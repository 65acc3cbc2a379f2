use realm::json::{Json, Number};
use realm::middleware::{adhoc, InvokeFor, LoadMiddleware, Next};
use realm::webview::api::{actor, lazy, settle, KeyedActor, Malformed, Recipient, WebViewApi};
use realm::webview::app::{builder, RequestError};
use realm::webview::container::ActorContainer;
use realm::webview::{error, request, success, void, ApiResponse, ApiResponseBody, InvokeBody, InvokeRequest};
use realm::{api, Api, Application, Load};
use std::sync::atomic::{AtomicUsize, Ordering};
use std::sync::Arc;

fn whole(n: i64) -> Json {
    Json::Number(Number::of(n))
}

fn decode_int(payload: Json) -> Result<i32, Malformed> {
    match &payload {
        Json::Number(n) => n.as_i32().ok_or(Malformed {
            found: format!("{:?}", payload),
            description: "number out of range".to_string(),
        }),
        _ => Err(Malformed {
            found: format!("{:?}", payload),
            description: "expected i32".to_string(),
        }),
    }
}

fn encode_int(n: i32) -> Json {
    whole(n as i64)
}

struct Add2;

impl Api for Add2 {
    type Input = i32;
    type Output = i32;

    fn handle(&self, msg: i32) -> i32 {
        msg + 2
    }
}

type Add2Api = WebViewApi<Add2, fn(Json) -> Result<i32, Malformed>, fn(i32) -> Json>;

fn add2() -> Add2Api {
    WebViewApi { api_key: "api/add2", api: Add2, decode: decode_int, encode: encode_int }
}

#[test]
fn add2_answers_five_with_seven() {
    let app = builder::<Add2Api, ()>(1).load(add2()).finish();
    let rsp = app.dispatch_request(Ok(request("api/add2".to_string(), whole(5))));
    assert_eq!(rsp, success("api/add2".to_string(), Some(whole(7))));
}

#[test]
fn unknown_name_is_reported_with_that_name() {
    let app = builder::<Add2Api, ()>(1).load(add2()).finish();
    let parsed = Ok(request("api/missing".to_string(), Json::Null));
    match app.route(parsed) {
        Err(RequestError::RouteNotFound(name)) => assert_eq!(name, "api/missing"),
        _ => panic!("a route was found"),
    }
    let rsp = app.dispatch_request(Ok(request("api/missing".to_string(), Json::Null)));
    assert_eq!(
        rsp,
        error(
            "request/not-found".to_string(),
            Some(Json::Text("Unable to find: api/missing api".to_string()))
        )
    );
}

#[test]
fn malformed_text_is_reported_as_failed_request() {
    let app = builder::<Add2Api, ()>(1).load(add2()).finish();
    let rsp = app.dispatch_request(Err("expected value at line 1 column 1".to_string()));
    assert_eq!(
        rsp,
        error(
            "request/failed".to_string(),
            Some(Json::Text("expected value at line 1 column 1".to_string()))
        )
    );
}

#[test]
fn payload_that_cannot_be_decoded_is_reported_with_its_text() {
    let app = builder::<Add2Api, ()>(1).load(add2()).finish();
    let rsp = app.dispatch_request(Ok(request("api/add2".to_string(), Json::Bool(true))));
    let report = Json::Object(vec![
        ("description".to_string(), Json::Text("expected i32".to_string())),
        ("error".to_string(), Json::Text("Malformed payload".to_string())),
        ("found".to_string(), Json::Text("Bool(true)".to_string())),
    ]);
    assert_eq!(rsp, error("api/add2".to_string(), Some(report)));
}

#[test]
fn settle_tells_results_apart_by_their_shape() {
    assert_eq!(settle("a".to_string(), Json::Null), void("a".to_string()));
    let failed = Json::Object(vec![("Err".to_string(), Json::Text("no".to_string()))]);
    assert_eq!(
        settle("a".to_string(), failed),
        ApiResponse::OpResponse {
            api_name: "a".to_string(),
            body: ApiResponseBody {
                error: true,
                payload: Some(Json::Object(vec![("Err".to_string(), Json::Text("no".to_string()))])),
            },
        }
    );
    let fine = Json::Object(vec![("Ok".to_string(), whole(1))]);
    assert_eq!(
        settle("a".to_string(), fine),
        success("a".to_string(), Some(Json::Object(vec![("Ok".to_string(), whole(1))])))
    );
    assert_eq!(settle("a".to_string(), whole(-3)), success("a".to_string(), Some(whole(-3))));
}

#[test]
fn first_handler_of_a_name_stays() {
    struct Named(&'static str, i32);
    impl Api for Named {
        type Input = InvokeRequest;
        type Output = ApiResponse;
        fn handle(&self, msg: InvokeRequest) -> ApiResponse {
            success(msg.body.api_name, Some(whole(self.1 as i64)))
        }
    }
    impl KeyedActor for Named {
        fn api_key(&self) -> &'static str {
            self.0
        }
    }
    let app = builder::<Named, ()>(2)
        .load(Named("api/x", 1))
        .load(Named("api/x", 2))
        .load(Named("", 3))
        .finish();
    let rsp = app.dispatch_request(Ok(request("api/x".to_string(), Json::Null)));
    assert_eq!(rsp, success("api/x".to_string(), Some(whole(1))));
    assert!(matches!(
        app.route(Ok(request("".to_string(), Json::Null))),
        Err(RequestError::RouteNotFound(_))
    ));
}

#[test]
fn middleware_limited_to_a_name_stays_out_of_other_requests() {
    let count = Arc::new(AtomicUsize::new(0));
    let seen = count.clone();
    let log_invoke = adhoc(move |ib: InvokeRequest, cb: &Next<InvokeRequest, ApiResponse>| {
        seen.fetch_add(1, Ordering::SeqCst);
        cb.call(ib)
    });
    let app = builder::<Add2Api, ()>(1)
        .load(add2())
        .load_middleware(
            log_invoke.invoke_for(vec!["api/add2".to_string()], |req: &InvokeRequest| {
                req.body().api_name()
            }),
        )
        .finish();
    app.dispatch_request(Ok(request("api/other".to_string(), whole(5))));
    assert_eq!(count.load(Ordering::SeqCst), 0);
    let rsp = app.dispatch_request(Ok(request("api/add2".to_string(), whole(5))));
    assert_eq!(count.load(Ordering::SeqCst), 1);
    assert_eq!(rsp, success("api/add2".to_string(), Some(whole(7))));
}

#[test]
fn lazy_handler_is_built_once() {
    let built = Arc::new(AtomicUsize::new(0));
    let counter = built.clone();
    let mut handler = lazy("api/test", move |_first: &i32| {
        counter.fetch_add(1, Ordering::SeqCst);
        api(|n: i32| format!("Returning {} + 1 = {result}", n, result = n + 1))
    });
    assert_eq!(handler.api_key(), "api/test");
    for x in 0..100 {
        assert_eq!(handler.handle(x), format!("Returning {} + 1 = {}", x, x + 1));
    }
    assert_eq!(built.load(Ordering::SeqCst), 1);
}

#[test]
fn resource_is_constructed_once_and_shared() {
    let mut cache: ActorContainer<String> = ActorContainer::new();
    assert!(cache.get(7).is_none());
    let runs = AtomicUsize::new(0);
    let mut handles = Vec::new();
    for _ in 0..10 {
        let handle = cache
            .get_or_register(7, || -> Result<String, ()> {
                runs.fetch_add(1, Ordering::SeqCst);
                Ok("client".to_string())
            })
            .unwrap();
        handles.push(handle);
    }
    assert_eq!(runs.load(Ordering::SeqCst), 1);
    for handle in &handles {
        assert!(Arc::ptr_eq(handle, &handles[0]));
    }
    assert!(Arc::ptr_eq(&cache.get(7).unwrap(), &handles[0]));
}

#[test]
fn failed_construction_leaves_nothing_behind() {
    let mut cache: ActorContainer<i32> = ActorContainer::new();
    let failed = cache.get_or_register(1, || Err::<i32, &str>("no connection"));
    assert_eq!(failed, Err("no connection"));
    assert!(cache.get(1).is_none());
    let made = cache.get_or_register(1, || Ok::<i32, &str>(5)).unwrap();
    assert_eq!(*made, 5);
    let again = cache.get_or_register(1, || Err::<i32, &str>("not run")).unwrap();
    assert!(Arc::ptr_eq(&made, &again));
}

#[test]
fn load_replaces_the_resource_of_a_kind() {
    let mut cache: ActorContainer<i32> = ActorContainer::new();
    cache.load(1, 10);
    cache.load(1, 11);
    cache.load(2, 20);
    assert_eq!(*cache.get(1).unwrap(), 11);
    assert_eq!(*cache.get(2).unwrap(), 20);
    let app = builder::<Add2Api, i32>(0).load(actor(3, 30)).finish();
    let _ = app;
}

#[test]
fn request_and_getters_agree() {
    let body: InvokeBody = request("api/add2".to_string(), whole(5));
    assert_eq!(body.api_name(), "api/add2");
    assert_eq!(*body.payload(), whole(5));
    let rsp = void("api/add2".to_string());
    assert_eq!(rsp.api_name(), "api/add2");
}

struct Shared<F, H>(std::sync::Mutex<realm::webview::api::WebViewLazyApi<F, H>>);

impl<F, H> Api for Shared<F, H>
where
    H: Api<Input = InvokeRequest, Output = ApiResponse>,
    F: Fn(&InvokeRequest) -> H,
{
    type Input = InvokeRequest;
    type Output = ApiResponse;

    fn handle(&self, msg: InvokeRequest) -> ApiResponse {
        self.0.lock().unwrap().handle(msg)
    }
}

impl<F, H> KeyedActor for Shared<F, H>
where
    H: Api<Input = InvokeRequest, Output = ApiResponse>,
    F: Fn(&InvokeRequest) -> H,
{
    fn api_key(&self) -> &'static str {
        self.0.lock().unwrap().api_key()
    }
}

fn launch_query(param: i32) -> String {
    format!("Returning {} + 1 = {result}", param, result = param + 1)
}

fn encode_text(text: String) -> Json {
    Json::Text(text)
}

#[test]
fn lazy_works() {
    let built = Arc::new(AtomicUsize::new(0));
    let counter = built.clone();
    let handler = lazy("api/test", move |_first: &InvokeRequest| {
        counter.fetch_add(1, Ordering::SeqCst);
        WebViewApi {
            api_key: "api/test",
            api: api(launch_query),
            decode: decode_int as fn(Json) -> Result<i32, Malformed>,
            encode: encode_text as fn(String) -> Json,
        }
    });
    let app = builder::<_, ()>(1).load(Shared(std::sync::Mutex::new(handler))).finish();
    for x in 0..100 {
        let rsp = app.dispatch_request(Ok(request("api/test".to_string(), whole(x))));
        assert_eq!(
            rsp,
            success(
                "api/test".to_string(),
                Some(Json::Text(format!("Returning {} + 1 = {}", x, x + 1)))
            )
        );
    }
    assert_eq!(built.load(Ordering::SeqCst), 1);
}

#[test]
fn handlers_of_different_types_stand_in_one_registry() {
    let doubling = Recipient::new("api/double", |msg: InvokeRequest| {
        let n = match msg.body.payload {
            Json::Number(n) => n.as_i64().unwrap_or(0),
            _ => 0,
        };
        success(msg.body.api_name, Some(whole(n * 2)))
    });
    let app = builder::<Recipient, ()>(2)
        .load(Recipient::of(add2()))
        .load(doubling)
        .finish();
    assert_eq!(
        app.dispatch_request(Ok(request("api/add2".to_string(), whole(5)))),
        success("api/add2".to_string(), Some(whole(7)))
    );
    assert_eq!(
        app.dispatch_request(Ok(request("api/double".to_string(), whole(5)))),
        success("api/double".to_string(), Some(whole(10)))
    );
    assert_eq!(Recipient::of(add2()).api_key(), "api/add2");
}

#[test]
fn typed_handler_decodes_asks_and_encodes() {
    let handler = realm::webview::api::web_view_api("api/add2", Add2, decode_int, encode_int);
    let asked = InvokeRequest { body: request("api/add2".to_string(), whole(40)) };
    assert_eq!(handler.handle(asked), success("api/add2".to_string(), Some(whole(42))));
    assert_eq!(handler.api_key(), "api/add2");
}
