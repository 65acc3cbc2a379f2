//! The dispatcher: it takes what came from the render surface, finds the
//! handler, and runs the request through the middleware chain to it.

use crate::json::Json;
use crate::middleware::{admits, compose, none, within, AdHocMid, Compose, LoadMiddleware, Middleware, Next};
use crate::webview::api::{KeyedActor, WebViewLoadableActor};
use crate::webview::container::{ActorContainer, WebViewBuilderContainer, WebViewContainer};
use crate::webview::{error, ApiResponse, InvokeBody, InvokeRequest};
use crate::{Api, Application, Load};
use std::sync::Arc;
use vstd::prelude::*;
use vstd::string::StringExecFns;

verus! {

/// Why a request did not reach a handler.
#[derive(Debug, PartialEq, Eq)]
pub enum RequestError {
    /// What came from the render surface is no request; the text says why.
    MalformedEnvelope(String),
    /// No handler has the name that the request asks for, which is given.
    RouteNotFound(String),
}

impl RequestError {
    /// `rsp` is the response that reports this failure.
    pub open spec fn reported_by(&self, rsp: ApiResponse) -> bool {
        match self {
            RequestError::MalformedEnvelope(description) => rsp.is_error(
                "request/failed"@,
                Json::Text(*description),
            ),
            RequestError::RouteNotFound(api_name) => rsp.is_error_text(
                "request/not-found"@,
                "Unable to find: "@ + api_name@ + " api"@,
            ),
        }
    }

    /// The response that reports this failure to the render surface.
    pub fn respond(self) -> (rsp: ApiResponse)
        ensures
            self.reported_by(rsp),
    {
        match self {
            RequestError::MalformedEnvelope(description) => error(
                "request/failed".to_owned(),
                Some(Json::Text(description)),
            ),
            RequestError::RouteNotFound(api_name) => {
                let mut text = "Unable to find: ".to_owned();
                text.append(api_name.as_str());
                text.append(" api");
                error("request/not-found".to_owned(), Some(Json::Text(text)))
            },
        }
    }
}

/// The application: the handlers by name, the shared resources, and the
/// middleware chain that stands before every handler.
pub struct App<H, R, M> {
    container: Arc<WebViewContainer<H, R>>,
    chain: M,
}

impl<H, R, M> App<H, R, M> where
    H: Api<Input = InvokeRequest, Output = ApiResponse>,
    M: Middleware<Message = InvokeRequest, Response = ApiResponse>,
 {
    /// The handlers, by name.
    pub closed spec fn routes(&self) -> Map<Seq<char>, H> {
        self.container.routes()
    }

    /// The shared resources.
    pub closed spec fn resources(&self) -> Arc<ActorContainer<R>> {
        self.container.resources()
    }

    /// The middleware chain.
    pub closed spec fn chain(&self) -> M {
        self.chain
    }

    /// The chain can be run and every handler can be asked.
    pub open spec fn ready(&self) -> bool {
        &&& self.chain().ready()
        &&& forall|name: Seq<char>| #[trigger]
            self.routes().contains_key(name) ==> self.routes()[name].ready()
    }

    /// What becomes of `parsed`, the outcome of reading a request out of what
    /// came from the render surface: the request on its way to the handler that
    /// it names, or the reason why there is none.
    pub open spec fn routed(&self, parsed: Result<InvokeBody, String>) -> Result<
        (&H, InvokeRequest),
        RequestError,
    > {
        match parsed {
            Err(description) => Err(RequestError::MalformedEnvelope(description)),
            Ok(body) => if self.routes().contains_key(body.api_name@) {
                Ok((&self.routes()[body.api_name@], InvokeRequest { body }))
            } else {
                Err(RequestError::RouteNotFound(body.api_name))
            },
        }
    }

    /// Finds the handler for `parsed`, the outcome of reading a request out of
    /// what came from the render surface.
    pub fn route(&self, parsed: Result<InvokeBody, String>) -> (routed: Result<
        (&H, InvokeRequest),
        RequestError,
    >)
        ensures
            routed == self.routed(parsed),
    {
        match parsed {
            Err(description) => Err(RequestError::MalformedEnvelope(description)),
            Ok(body) => {
                match self.container.get(body.api_name.as_str()) {
                    Some(api) => Ok((api, InvokeRequest { body })),
                    None => Err(RequestError::RouteNotFound(body.api_name)),
                }
            },
        }
    }

    /// Answers `parsed`, the outcome of reading a request out of what came
    /// from the render surface: with the report of the failure where there is
    /// no request or no handler for it, and else with what the middleware
    /// chain gives, with the handler at its end.
    pub fn dispatch_request(&self, parsed: Result<InvokeBody, String>) -> (rsp: ApiResponse)
        requires
            self.ready(),
        ensures
            match self.routed(parsed) {
                Err(failure) => failure.reported_by(rsp),
                Ok((api, request)) => admits(
                    self.chain(),
                    request,
                    |m: InvokeRequest, r: ApiResponse| api.answers(m, r),
                    rsp,
                ),
            },
    {
        match self.route(parsed) {
            Err(failure) => failure.respond(),
            Ok((api, request)) => {
                let last = |msg: InvokeRequest| -> (r: ApiResponse)
                    requires
                        api.ready(),
                    ensures
                        api.answers(msg, r),
                    { api.handle(msg) };
                let next = Next::new(&last);
                let rsp = self.chain.manage(request, &next);
                proof {
                    let asked = |m: InvokeRequest, r: ApiResponse| api.answers(m, r);
                    assert(self.chain().handles(request, next.relation(), rsp) && within(
                        next.relation(),
                        asked,
                    ));
                }
                rsp
            },
        }
    }
}

/// The application under assembly.
pub struct AppBuilder<H, R, M> {
    container: WebViewBuilderContainer<H, R>,
    chain: M,
}

impl<H, R, M> AppBuilder<H, R, M> {
    /// The handlers that have been loaded, by name.
    pub closed spec fn routes(&self) -> Map<Seq<char>, H> {
        self.container.routes()
    }

    /// The resources that have been loaded, by kind.
    pub closed spec fn resources(&self) -> Map<u64, Arc<R>> {
        self.container.resources()@
    }

    /// The middleware chain as far as it has been loaded.
    pub closed spec fn chain(&self) -> M {
        self.chain
    }
}

/// What `routes` becomes when `api` is loaded under the name `key`: the same
/// where `key` is empty or taken, and else `routes` with `api` under `key`.
pub open spec fn loaded<H>(routes: Map<Seq<char>, H>, key: Seq<char>, api: H) -> Map<Seq<char>, H> {
    if key.len() == 0 || routes.contains_key(key) {
        routes
    } else {
        routes.insert(key, api)
    }
}

impl<H, R, M> Load<H> for AppBuilder<H, R, M> where H: KeyedActor {
    type Result = Self;

    /// Loads `api` as the handler of the name that it gives itself.
    fn load(self, api: H) -> (builder: Self)
        ensures
            exists|key: &'static str| #[trigger]
                call_ensures(H::api_key, (&api,), key) && builder.routes() == loaded(
                    self.routes(),
                    key@,
                    api,
                ),
            builder.resources() == self.resources(),
            builder.chain() == self.chain(),
    {
        let mut builder = self;
        let api_key = api.api_key();
        builder.container.load_recipient(api_key, api);
        assert(call_ensures(H::api_key, (&api,), api_key));
        builder
    }
}

impl<H, R, M> Load<WebViewLoadableActor<R>> for AppBuilder<H, R, M> {
    type Result = Self;

    /// Loads a shared resource, in place of the one of its kind that was
    /// loaded before, if any.
    fn load(self, api: WebViewLoadableActor<R>) -> (builder: Self)
        ensures
            builder.resources() == self.resources().insert(api.0, Arc::new(api.1)),
            builder.routes() == self.routes(),
            builder.chain() == self.chain(),
    {
        let mut builder = self;
        let WebViewLoadableActor(key, resource) = api;
        builder.container.load_actor(key, resource);
        builder
    }
}

impl<H, R, M, Mid> LoadMiddleware<Mid> for AppBuilder<H, R, M> where
    M: Middleware,
    Mid: Middleware<Message = M::Message, Response = M::Response>,
 {
    type Result = AppBuilder<H, R, Compose<M, Mid>>;

    /// Puts `middleware` at the end of the chain: the middlewares loaded
    /// before it stand around it.
    fn load_middleware(self, middleware: Mid) -> (builder: AppBuilder<H, R, Compose<M, Mid>>)
        ensures
            builder.chain().outer() == self.chain(),
            builder.chain().inner() == middleware,
            builder.routes() == self.routes(),
            builder.resources() == self.resources(),
    {
        let AppBuilder { container, chain } = self;
        AppBuilder { container, chain: compose(chain, middleware) }
    }
}

impl<H, R, M> Application for AppBuilder<H, R, M> where
    H: Api<Input = InvokeRequest, Output = ApiResponse>,
    M: Middleware<Message = InvokeRequest, Response = ApiResponse>,
 {
    type Result = App<H, R, M>;

    /// Closes the assembly: the application with the handlers, resources and
    /// chain as loaded.
    fn finish(self) -> (app: App<H, R, M>)
        ensures
            app.routes() == self.routes(),
            app.resources()@ == self.resources(),
            app.chain() == self.chain(),
    {
        let AppBuilder { container, chain } = self;
        App { container: Arc::new(container.finalize()), chain }
    }
}

/// An assembly without handlers or resources, with room for `capacity`
/// handlers. Its middleware chain does nothing yet.
pub fn builder<H, R>(capacity: usize) -> (builder: AppBuilder<
    H,
    R,
    AdHocMid<
        impl Fn(InvokeRequest, &Next<InvokeRequest, ApiResponse>) -> ApiResponse,
        InvokeRequest,
        ApiResponse,
    >,
>)
    ensures
        builder.routes() == Map::<Seq<char>, H>::empty(),
        builder.resources() == Map::<u64, Arc<R>>::empty(),
        builder.chain().ready(),
        forall|
            data: InvokeRequest,
            next: spec_fn(InvokeRequest, ApiResponse) -> bool,
            rsp: ApiResponse,
        | #[trigger]
            builder.chain().handles(data, next, rsp) ==> next(data, rsp),
{
    AppBuilder { container: WebViewBuilderContainer::new(capacity), chain: none() }
}

} // verus!
