//! The requests that come from the render surface, and the responses that
//! go back to it.

use crate::json::{Json, Lacks};
use crate::table::table;
use vstd::prelude::*;
use vstd::string::StringExecFns;

pub mod api;
pub mod app;
pub mod container;

verus! {

/// A request as it arrives from the render surface: the name of the handler
/// that it is for, and what that handler is to work on.
#[derive(Clone, Debug, PartialEq, Eq)]
pub struct InvokeBody {
    pub api_name: String,
    pub payload: Json,
}

/// A request on its way to a handler.
#[derive(Clone, Debug, PartialEq, Eq)]
pub struct InvokeRequest {
    pub body: InvokeBody,
}

/// What a response carries besides the name of the handler that gave it.
#[derive(Clone, Debug, PartialEq, Eq)]
pub struct ApiResponseBody {
    pub error: bool,
    pub payload: Option<Json>,
}

/// What a handler gives back. Either way it names the handler it answers for.
#[derive(Clone, Debug, PartialEq, Eq)]
pub enum ApiResponse {
    /// A response that is delivered to the render surface.
    OpResponse { api_name: String, body: ApiResponseBody },
    /// Nothing is to be delivered.
    OpDoNothing(String),
}

impl InvokeRequest {
    pub fn body(&self) -> (body: &InvokeBody)
        ensures
            *body == self.body,
    {
        &self.body
    }
}

impl InvokeBody {
    pub fn api_name(&self) -> (name: &String)
        ensures
            *name == self.api_name,
    {
        &self.api_name
    }

    pub fn payload(&self) -> (payload: &Json)
        ensures
            *payload == self.payload,
    {
        &self.payload
    }
}

impl ApiResponse {
    /// The name of the handler that the response answers for.
    pub open spec fn name(&self) -> String {
        match self {
            ApiResponse::OpResponse { api_name, .. } => *api_name,
            ApiResponse::OpDoNothing(api_name) => *api_name,
        }
    }

    /// The response is delivered, is marked as an error, is given in the name
    /// `tag`, and carries `payload`.
    pub open spec fn is_error(&self, tag: Seq<char>, payload: Json) -> bool {
        &&& self matches ApiResponse::OpResponse { api_name, body }
        &&& api_name@ == tag
        &&& body.error
        &&& body.payload == Some(payload)
    }

    /// The response is delivered, is marked as an error, is given in the name
    /// `tag`, and carries the text `text`.
    pub open spec fn is_error_text(&self, tag: Seq<char>, text: Seq<char>) -> bool {
        &&& self matches ApiResponse::OpResponse { api_name, body }
        &&& api_name@ == tag
        &&& body.error
        &&& body.payload matches Some(Json::Text(held))
        &&& held@ == text
    }

    /// The name of the handler that the response answers for.
    pub fn api_name(&self) -> (name: &String)
        ensures
            *name == self.name(),
    {
        match self {
            ApiResponse::OpResponse { api_name, .. } => api_name,
            ApiResponse::OpDoNothing(api_name) => api_name,
        }
    }

    /// `document` is this response as it is delivered: an object with the
    /// name under `api_name`, the mark under `error`, and under `payload` what
    /// the response carries, or `Null` where it carries nothing.
    pub open spec fn delivered_as(&self, document: Json) -> bool {
        &&& self matches ApiResponse::OpResponse { api_name, body }
        &&& document matches Json::Object(members)
        &&& members@.len() == 3
        &&& members@[0].0@ == "api_name"@
        &&& members@[0].1 == Json::Text(*api_name)
        &&& members@[1].0@ == "error"@
        &&& members@[1].1 == Json::Bool(body.error)
        &&& members@[2].0@ == "payload"@
        &&& members@[2].1 == match body.payload {
            Some(payload) => payload,
            None => Json::Null,
        }
    }

    /// The response as it is delivered to the render surface. There is none
    /// for a response that delivers nothing.
    pub fn into_wire(self) -> (document: Option<Json>)
        ensures
            match self {
                ApiResponse::OpResponse { .. } => document matches Some(wire) && self.delivered_as(
                    wire,
                ),
                ApiResponse::OpDoNothing(_) => document is None,
            },
    {
        match self {
            ApiResponse::OpDoNothing(_) => None,
            ApiResponse::OpResponse { api_name, body } => {
                let ApiResponseBody { error, payload } = body;
                let carried = match payload {
                    Some(payload) => payload,
                    None => Json::Null,
                };
                let mut members: Vec<(String, Json)> = Vec::with_capacity(3);
                members.push(("api_name".to_owned(), Json::Text(api_name)));
                members.push(("error".to_owned(), Json::Bool(error)));
                members.push(("payload".to_owned(), carried));
                Some(Json::Object(members))
            },
        }
    }

    /// A line that shows the response to whoever reads a log: the name for a
    /// response that delivers nothing, and else what `print` makes of the
    /// payload.
    pub fn body<P: Fn(&Option<Json>) -> String>(&self, print: P) -> (line: String)
        requires
            self matches ApiResponse::OpResponse { body, .. } ==> call_requires(
                print,
                (&body.payload,),
            ),
        ensures
            match self {
                ApiResponse::OpDoNothing(name) => line@ == "[api_name = "@ + name@ + "]"@,
                ApiResponse::OpResponse { body, .. } => call_ensures(print, (&body.payload,), line),
            },
    {
        match self {
            ApiResponse::OpDoNothing(name) => {
                let mut line = "[api_name = ".to_owned();
                line.append(name.as_str());
                line.append("]");
                line
            },
            ApiResponse::OpResponse { body, .. } => print(&body.payload),
        }
    }
}

/// `document` holds a request: it is an object with a text under `api_name`
/// and anything under `payload`. What else it holds does not count.
pub open spec fn is_envelope(document: Json) -> bool {
    &&& document matches Json::Object(members)
    &&& document.lacks("api_name"@, "payload"@) is None
    &&& table(members@)["api_name"@] is Text
}

/// Why `document` holds no request.
pub open spec fn complaint(document: Json) -> Seq<char> {
    match document.lacks("api_name"@, "payload"@) {
        Some(Lacks::Object) => "invalid type: expected an object with `api_name` and `payload`"@,
        Some(Lacks::First) => "missing field `api_name`"@,
        Some(Lacks::Second) => "missing field `payload`"@,
        None => "invalid type for field `api_name`: expected a string"@,
    }
}

/// Reads the request out of `document`, which is what came from the render
/// surface, as far as it could be read as a structured value at all.
pub fn envelope(document: Result<Json, String>) -> (parsed: Result<InvokeBody, String>)
    ensures
        match document {
            Err(said) => parsed == Err::<InvokeBody, String>(said),
            Ok(Json::Object(members)) if is_envelope(Json::Object(members)) => {
                &&& parsed matches Ok(body)
                &&& Json::Text(body.api_name) == table(members@)["api_name"@]
                &&& body.payload == table(members@)["payload"@]
            },
            Ok(other) => parsed matches Err(said) && said@ == complaint(other),
        },
{
    let document = match document {
        Err(said) => {
            return Err(said);
        },
        Ok(document) => document,
    };
    proof {
        reveal_strlit("api_name");
        reveal_strlit("payload");
        assert("api_name"@.len() != "payload"@.len());
    }
    match document.take_two("api_name", "payload") {
        Ok((Json::Text(api_name), payload)) => Ok(InvokeBody { api_name, payload }),
        Ok(_) => Err("invalid type for field `api_name`: expected a string".to_owned()),
        Err((_, Lacks::Object)) => Err(
            "invalid type: expected an object with `api_name` and `payload`".to_owned(),
        ),
        Err((_, Lacks::First)) => Err("missing field `api_name`".to_owned()),
        Err((_, Lacks::Second)) => Err("missing field `payload`".to_owned()),
    }
}

/// The request for the handler `api_name` with `payload`.
pub fn request(api_name: String, payload: Json) -> (body: InvokeBody)
    ensures
        body == (InvokeBody { api_name, payload }),
{
    InvokeBody { api_name, payload }
}

/// The response of `api_name` that reports a failure described by `payload`.
pub fn error(api_name: String, payload: Option<Json>) -> (rsp: ApiResponse)
    ensures
        rsp == (ApiResponse::OpResponse { api_name, body: ApiResponseBody { error: true, payload } }),
{
    ApiResponse::OpResponse { api_name, body: ApiResponseBody { error: true, payload } }
}

/// The response of `api_name` that delivers nothing.
pub fn void(api_name: String) -> (rsp: ApiResponse)
    ensures
        rsp == ApiResponse::OpDoNothing(api_name),
{
    ApiResponse::OpDoNothing(api_name)
}

/// The response of `api_name` that delivers `payload`.
pub fn success(api_name: String, payload: Option<Json>) -> (rsp: ApiResponse)
    ensures
        rsp == (ApiResponse::OpResponse { api_name, body: ApiResponseBody { error: false, payload } }),
{
    ApiResponse::OpResponse { api_name, body: ApiResponseBody { error: false, payload } }
}

} // verus!
