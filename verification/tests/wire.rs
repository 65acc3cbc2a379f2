use realm::json::{Json, Number};
use realm::webview::api::{web_view_api, Malformed, Recipient};
use realm::webview::app::builder;
use realm::webview::envelope;
use realm::{api, Application, Load};
use serde_json::Value;

fn lift(value: Value) -> Json {
    match value {
        Value::Null => Json::Null,
        Value::Bool(b) => Json::Bool(b),
        Value::Number(n) => Json::Number(match (n.as_u64(), n.as_i64()) {
            (Some(u), _) => Number::PosInt(u),
            (None, Some(i)) => Number::NegInt(i),
            (None, None) => Number::Float(n.as_f64().unwrap_or(0.0).to_bits()),
        }),
        Value::String(s) => Json::Text(s),
        Value::Array(items) => Json::Array(items.into_iter().map(lift).collect()),
        Value::Object(members) => {
            Json::Object(members.into_iter().map(|(k, v)| (k, lift(v))).collect())
        }
    }
}

fn lower(json: &Json) -> Value {
    match json {
        Json::Null => Value::Null,
        Json::Bool(b) => Value::Bool(*b),
        Json::Number(Number::PosInt(u)) => Value::from(*u),
        Json::Number(Number::NegInt(i)) => Value::from(*i),
        Json::Number(Number::Float(bits)) => Value::from(f64::from_bits(*bits)),
        Json::Text(s) => Value::String(s.clone()),
        Json::Array(items) => Value::Array(items.iter().map(lower).collect()),
        Json::Object(members) => {
            Value::Object(members.iter().map(|(k, v)| (k.clone(), lower(v))).collect())
        }
    }
}

fn add2(n: i32) -> i32 {
    n + 2
}

fn decode(payload: Json) -> Result<i32, Malformed> {
    serde_json::from_value::<i32>(lower(&payload)).map_err(|e| Malformed {
        found: lower(&payload).to_string(),
        description: e.to_string(),
    })
}

fn encode(n: i32) -> Json {
    lift(serde_json::to_value(n).unwrap())
}

/// What the render surface is handed for `text`, if anything.
fn serve(text: &str) -> Option<String> {
    let app = builder::<Recipient, ()>(1)
        .load(Recipient::of(web_view_api("api/add2", api(add2), decode, encode)))
        .finish();
    let document = serde_json::from_str::<Value>(text).map(lift).map_err(|e| e.to_string());
    app.dispatch_request(envelope(document))
        .into_wire()
        .map(|wire| lower(&wire).to_string())
}

#[test]
fn add2_on_the_wire() {
    assert_eq!(
        serve(r#"{"api_name":"api/add2","payload":5}"#),
        Some(r#"{"api_name":"api/add2","error":false,"payload":7}"#.to_string())
    );
}

#[test]
fn text_that_is_no_request_is_answered_with_a_failed_request() {
    for text in ["", "{", "nonsense", r#"{"api_name":"#, "[1,2", "\u{0}"] {
        let answer = serve(text).expect("an answer is delivered");
        let answer: Value = serde_json::from_str(&answer).unwrap();
        assert_eq!(answer["api_name"], "request/failed");
        assert_eq!(answer["error"], true);
        assert!(answer["payload"].is_string());
    }
    let answer: Value = serde_json::from_str(&serve("7").unwrap()).unwrap();
    assert_eq!(answer["api_name"], "request/failed");
    assert_eq!(
        answer["payload"],
        "invalid type: expected an object with `api_name` and `payload`"
    );
}

#[test]
fn unknown_name_on_the_wire() {
    assert_eq!(
        serve(r#"{"api_name":"api/none","payload":null}"#),
        Some(
            r#"{"api_name":"request/not-found","error":true,"payload":"Unable to find: api/none api"}"#
                .to_string()
        )
    );
}

#[test]
fn payload_of_the_wrong_type_on_the_wire() {
    let answer = serve(r#"{"api_name":"api/add2","payload":"five"}"#).unwrap();
    let answer: Value = serde_json::from_str(&answer).unwrap();
    assert_eq!(answer["api_name"], "api/add2");
    assert_eq!(answer["error"], true);
    assert_eq!(answer["payload"]["error"], "Malformed payload");
    assert_eq!(answer["payload"]["found"], "\"five\"");
    assert!(answer["payload"]["description"].is_string());
}

#[test]
fn values_survive_the_way_there_and_back() {
    let text = r#"{"a":[1,-2,3.5,"x",true,null],"b":{"c":18446744073709551615}}"#;
    let value: Value = serde_json::from_str(text).unwrap();
    assert_eq!(lower(&lift(value.clone())), value);
    assert_eq!(lower(&lift(value).clone()).to_string(), text);
}
