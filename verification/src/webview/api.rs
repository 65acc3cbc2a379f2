//! Handlers as the registry holds them: they take a request and give a
//! response, and decode and encode at their own edge.

use crate::json::Json;
use crate::middleware::Continue;
use crate::webview::{error, success, void, ApiResponse, ApiResponseBody, InvokeBody, InvokeRequest};
use crate::Api;
use vstd::prelude::*;

verus! {

/// What is reported of a payload that a handler cannot take.
#[derive(Clone, Debug, PartialEq, Eq)]
pub struct Malformed {
    /// The payload as text.
    pub found: String,
    /// Why it could not be taken.
    pub description: String,
}

/// The response that `outcome`, the result of the handler `api_name`, calls
/// for: none for `Null`, an error for an object with a member `Err`, and a
/// success for everything else.
pub open spec fn settled(api_name: String, outcome: Json) -> ApiResponse {
    if outcome is Null {
        ApiResponse::OpDoNothing(api_name)
    } else {
        ApiResponse::OpResponse {
            api_name,
            body: ApiResponseBody { error: outcome.has_key("Err"@), payload: Some(outcome) },
        }
    }
}

/// Turns the result of the handler `api_name` into its response.
pub fn settle(api_name: String, outcome: Json) -> (rsp: ApiResponse)
    ensures
        rsp == settled(api_name, outcome),
{
    if outcome.is_null() {
        void(api_name)
    } else if outcome.contains_key("Err") {
        error(api_name, Some(outcome))
    } else {
        success(api_name, Some(outcome))
    }
}

/// `report` is what is delivered of a payload that could not be taken:
/// an object that says so, quotes the payload and gives the reason.
pub open spec fn reports(report: Json, fault: Malformed) -> bool {
    &&& report matches Json::Object(members)
    &&& members@.len() == 3
    &&& members@[0].0@ == "description"@
    &&& members@[0].1 == Json::Text(fault.description)
    &&& members@[1].0@ == "error"@
    &&& members@[1].1 matches Json::Text(said)
    &&& said@ == "Malformed payload"@
    &&& members@[2].0@ == "found"@
    &&& members@[2].1 == Json::Text(fault.found)
}

/// What is delivered of a payload that could not be taken.
pub fn malformed_payload(fault: Malformed) -> (report: Json)
    ensures
        reports(report, fault),
{
    let Malformed { found, description } = fault;
    let mut members: Vec<(String, Json)> = Vec::new();
    members.push(("description".to_owned(), Json::Text(description)));
    members.push(("error".to_owned(), Json::text("Malformed payload")));
    members.push(("found".to_owned(), Json::Text(found)));
    Json::Object(members)
}

/// `rsp` is a response that the handler `api`, with `decode` before it and
/// `encode` behind it, may give to `msg`.
pub open spec fn served<API, D, E>(
    api: API,
    decode: D,
    encode: E,
    msg: InvokeRequest,
    rsp: ApiResponse,
) -> bool where API: Api, D: Fn(Json) -> Result<API::Input, Malformed>, E: Fn(API::Output) -> Json {
    exists|decoded: Result<API::Input, Malformed>|
        {
            &&& #[trigger] call_ensures(decode, (msg.body.payload,), decoded)
            &&& match decoded {
                Ok(input) => exists|out: API::Output, value: Json|
                    {
                        &&& #[trigger] api.answers(input, out)
                        &&& #[trigger] call_ensures(encode, (out,), value)
                        &&& rsp == settled(msg.body.api_name, value)
                    },
                Err(fault) => {
                    &&& rsp matches ApiResponse::OpResponse { api_name, body }
                    &&& api_name == msg.body.api_name
                    &&& body.error
                    &&& body.payload matches Some(report)
                    &&& reports(report, fault)
                },
            }
        }
}

/// `api` can be asked, and `decode` and `encode` can be called with whatever
/// comes.
pub open spec fn serving<API, D, E>(api: API, decode: D, encode: E) -> bool where
    API: Api,
    D: Fn(Json) -> Result<API::Input, Malformed>,
    E: Fn(API::Output) -> Json,
 {
    &&& api.ready()
    &&& forall|payload: Json| call_requires(decode, (payload,))
    &&& forall|out: API::Output| call_requires(encode, (out,))
}

/// A handler of typed messages, made to take requests: `decode` turns the
/// payload into its message, or says what is wrong with it, and `encode` turns
/// the answer into the payload of the response.
pub struct WebViewApi<API, D, E> {
    pub api_key: &'static str,
    pub api: API,
    pub decode: D,
    pub encode: E,
}

impl<API, D, E> Api for WebViewApi<API, D, E> where
    API: Api,
    D: Fn(Json) -> Result<API::Input, Malformed>,
    E: Fn(API::Output) -> Json,
 {
    type Input = InvokeRequest;

    type Output = ApiResponse;

    open spec fn ready(&self) -> bool {
        serving(self.api, self.decode, self.encode)
    }

    open spec fn answers(&self, msg: InvokeRequest, rsp: ApiResponse) -> bool {
        served(self.api, self.decode, self.encode, msg, rsp)
    }

    fn handle(&self, msg: InvokeRequest) -> (rsp: ApiResponse) {
        let InvokeRequest { body: InvokeBody { api_name, payload } } = msg;
        assert(call_requires(self.decode, (payload,)));
        let decoded = (self.decode)(payload);
        match decoded {
            Ok(input) => {
                let out = self.api.handle(input);
                assert(call_requires(self.encode, (out,)));
                let value = (self.encode)(out);
                let rsp = settle(api_name, value);
                assert(self.api.answers(input, out) && call_ensures(self.encode, (out,), value));
                assert(call_ensures(self.decode, (msg.body.payload,), decoded));
                rsp
            },
            Err(fault) => {
                let rsp = error(api_name, Some(malformed_payload(fault)));
                assert(call_ensures(self.decode, (msg.body.payload,), decoded));
                rsp
            },
        }
    }
}

/// The handler named `api_key` that decodes each payload with `decode`, asks
/// `api`, and encodes what it answers with `encode`.
pub fn web_view_api<API, D, E>(api_key: &'static str, api: API, decode: D, encode: E) -> (handler:
    WebViewApi<API, impl Fn(Json) -> Result<API::Input, Malformed>, impl Fn(API::Output) -> Json>) where
    API: Api,
    D: Fn(Json) -> Result<API::Input, Malformed>,
    E: Fn(API::Output) -> Json,

    ensures
        handler.api_key == api_key,
        handler.api == api,
        handler.ready() == serving(api, decode, encode),
        forall|msg: InvokeRequest, rsp: ApiResponse| #[trigger]
            handler.answers(msg, rsp) == served(api, decode, encode, msg, rsp),
{
    WebViewApi { api_key, api, decode, encode }
}

/// A handler that the registry can hold: it says under which name.
pub trait KeyedActor: Api<Input = InvokeRequest, Output = ApiResponse> {
    fn api_key(&self) -> &'static str;
}

impl<API, D, E> KeyedActor for WebViewApi<API, D, E> where
    API: Api,
    D: Fn(Json) -> Result<API::Input, Malformed>,
    E: Fn(API::Output) -> Json,
 {
    fn api_key(&self) -> (key: &'static str)
        ensures
            key == self.api_key,
    {
        self.api_key
    }
}

/// A handler whose type is forgotten, so that handlers of different types can
/// stand in one registry.
pub struct Recipient {
    key: &'static str,
    run: Box<dyn Continue<InvokeRequest, ApiResponse>>,
}

impl Recipient {
    /// The name under which the handler is held.
    pub closed spec fn key(&self) -> &'static str {
        self.key
    }

    /// What must hold before the handler may be asked.
    pub closed spec fn runs(&self) -> bool {
        self.run.ready()
    }

    /// `rsp` is a response that the handler may give to `msg`.
    pub closed spec fn gives(&self, msg: InvokeRequest, rsp: ApiResponse) -> bool {
        self.run.yields(msg, rsp)
    }

    /// The handler named `key` that answers what `run` returns.
    pub fn new<C: Fn(InvokeRequest) -> ApiResponse + 'static>(key: &'static str, run: C) -> (recipient:
        Self)
        ensures
            recipient.key() == key,
            recipient.runs() == (forall|msg: InvokeRequest| call_requires(run, (msg,))),
            forall|msg: InvokeRequest, rsp: ApiResponse|
                recipient.gives(msg, rsp) == call_ensures(run, (msg,), rsp),
    {
        Recipient { key, run: Box::new(run) }
    }

    /// `handler`, with its type forgotten.
    pub fn of<H: KeyedActor + 'static>(handler: H) -> (recipient: Self)
        ensures
            call_ensures(H::api_key, (&handler,), recipient.key()),
            handler.ready() ==> recipient.runs(),
            forall|msg: InvokeRequest, rsp: ApiResponse| #[trigger]
                recipient.gives(msg, rsp) ==> handler.answers(msg, rsp),
    {
        let key = handler.api_key();
        let run = move |msg: InvokeRequest| -> (rsp: ApiResponse)
            requires
                handler.ready(),
            ensures
                handler.answers(msg, rsp),
            { handler.handle(msg) };
        Recipient::new(key, run)
    }
}

impl Api for Recipient {
    type Input = InvokeRequest;

    type Output = ApiResponse;

    open spec fn ready(&self) -> bool {
        self.runs()
    }

    open spec fn answers(&self, msg: InvokeRequest, rsp: ApiResponse) -> bool {
        self.gives(msg, rsp)
    }

    fn handle(&self, msg: InvokeRequest) -> (rsp: ApiResponse) {
        self.run.proceed(msg)
    }
}

impl KeyedActor for Recipient {
    fn api_key(&self) -> (key: &'static str)
        ensures
            key == self.key(),
    {
        self.key
    }
}

/// A shared resource on its way into the application, with its kind.
pub struct WebViewLoadableActor<R>(pub u64, pub R);

/// A handler that is built when the first message for it arrives, and serves
/// every later message as built then.
pub struct WebViewLazyApi<F, H> {
    pub api_key: &'static str,
    pub api: Option<H>,
    pub factory: F,
}

impl<F, H> WebViewLazyApi<F, H> where H: Api, F: Fn(&H::Input) -> H {
    /// What must hold before `msg` may be handed in: a handler that is there
    /// can be asked; where none is there yet, one can be built for `msg`, and
    /// whatever is built can be asked.
    pub open spec fn accepts(&self, msg: H::Input) -> bool {
        match self.api {
            Some(built) => built.ready(),
            None => {
                &&& call_requires(self.factory, (&msg,))
                &&& forall|built: H| #[trigger]
                    call_ensures(self.factory, (&msg,), built) ==> built.ready()
            },
        }
    }

    /// Answers `msg` with the handler, which is built first if this is the
    /// first message.
    pub fn handle(&mut self, msg: H::Input) -> (rsp: H::Output)
        requires
            old(self).accepts(msg),
        ensures
            final(self).api_key == old(self).api_key,
            final(self).factory == old(self).factory,
            final(self).api matches Some(built) && built.answers(msg, rsp) && match old(self).api {
                Some(before) => built == before,
                None => call_ensures(old(self).factory, (&msg,), built),
            },
    {
        let built = match self.api.take() {
            Some(built) => built,
            None => (self.factory)(&msg),
        };
        let rsp = built.handle(msg);
        self.api = Some(built);
        rsp
    }

    pub fn api_key(&self) -> (key: &'static str)
        ensures
            key == self.api_key,
    {
        self.api_key
    }
}

/// `resource`, to be loaded as the shared resource of kind `key`.
pub fn actor<R>(key: u64, resource: R) -> (loadable: WebViewLoadableActor<R>)
    ensures
        loadable == WebViewLoadableActor(key, resource),
{
    WebViewLoadableActor(key, resource)
}

/// The handler named `api_key` that `factory` builds when the first message
/// for it arrives.
pub fn lazy<F, H>(api_key: &'static str, factory: F) -> (handler: WebViewLazyApi<F, H>) where
    H: Api,
    F: Fn(&H::Input) -> H,

    ensures
        handler == (WebViewLazyApi { api_key, api: None::<H>, factory }),
{
    WebViewLazyApi { api_key, factory, api: None }
}

} // verus!
