use realm::adapters::ApiAdapters;
use realm::middleware::{adhoc, compose, none, InvokeFor, Middleware, Next};
use realm::Api;
use std::sync::atomic::{AtomicUsize, Ordering};
use std::sync::Arc;

struct Doubling;

impl Middleware for Doubling {
    type Message = i32;
    type Response = i32;

    fn manage(&self, data: i32, callback: &Next<i32, i32>) -> i32 {
        callback.call(data * 2)
    }
}

#[test]
fn none_hands_the_message_on_unchanged() {
    let mid = none::<i32, i32>();
    let handler = |m: i32| m + 2;
    assert_eq!(mid.manage(5, &Next::new(&handler)), 7);
}

#[test]
fn compose_runs_the_first_middleware_around_the_second() {
    let add_one = adhoc(|m: i32, next: &Next<i32, i32>| next.call(m + 1));
    let chain = compose(Doubling, add_one);
    let handler = |m: i32| m * 10;
    assert_eq!(chain.manage(3, &Next::new(&handler)), 70);
}

#[test]
fn a_key_outside_the_set_leaves_the_counter_unchanged() {
    let count = Arc::new(AtomicUsize::new(0));
    let seen = count.clone();
    let counting = adhoc(move |m: (String, i32), next: &Next<(String, i32), i32>| {
        seen.fetch_add(1, Ordering::SeqCst);
        next.call(m)
    });
    let limited = counting.invoke_for(vec!["api/add2".to_string()], |m: &(String, i32)| &m.0);
    let handler = |m: (String, i32)| m.1 + 2;
    assert_eq!(limited.manage(("api/other".to_string(), 5), &Next::new(&handler)), 7);
    assert_eq!(count.load(Ordering::SeqCst), 0);
    assert_eq!(limited.manage(("api/add2".to_string(), 5), &Next::new(&handler)), 7);
    assert_eq!(count.load(Ordering::SeqCst), 1);
}

struct Add2;

impl Api for Add2 {
    type Input = i32;
    type Output = i32;

    fn handle(&self, msg: i32) -> i32 {
        msg + 2
    }
}

#[test]
fn and_then_applies_the_function_to_the_answer() {
    let chained = Add2.and_then(|n: i32| n * 3);
    assert_eq!(chained.handle(5), 21);
    let plain = realm::api(|n: i32| n - 1);
    assert_eq!(plain.handle(5), 4);
}

fn tagging(tag: &'static str, log: Arc<std::sync::Mutex<Vec<String>>>) -> impl Middleware<Message = String, Response = String> {
    adhoc(move |m: String, next: &Next<String, String>| {
        log.lock().unwrap().push(format!("{} in", tag));
        let rsp = next.call(format!("{}{}", m, tag));
        log.lock().unwrap().push(format!("{} out", tag));
        format!("{}{}", rsp, tag)
    })
}

#[test]
fn composition_is_associative() {
    let left_log = Arc::new(std::sync::Mutex::new(Vec::new()));
    let right_log = Arc::new(std::sync::Mutex::new(Vec::new()));
    let left = compose(
        compose(tagging("a", left_log.clone()), tagging("b", left_log.clone())),
        tagging("c", left_log.clone()),
    );
    let right = compose(
        tagging("a", right_log.clone()),
        compose(tagging("b", right_log.clone()), tagging("c", right_log.clone())),
    );
    let handler = |m: String| format!("[{}]", m);
    let from_left = left.manage("x".to_string(), &Next::new(&handler));
    let from_right = right.manage("x".to_string(), &Next::new(&handler));
    assert_eq!(from_left, "[xabc]cba");
    assert_eq!(from_right, from_left);
    assert_eq!(
        *left_log.lock().unwrap(),
        vec!["a in", "b in", "c in", "c out", "b out", "a out"]
    );
    assert_eq!(*left_log.lock().unwrap(), *right_log.lock().unwrap());
}

#[test]
fn none_is_neutral_in_a_composition() {
    let handler = |m: i32| m * 10;
    let plain = Doubling.manage(3, &Next::new(&handler));
    assert_eq!(compose(none(), Doubling).manage(3, &Next::new(&handler)), plain);
    assert_eq!(compose(Doubling, none()).manage(3, &Next::new(&handler)), plain);
}

#[test]
fn middleware_may_answer_by_itself() {
    let guard = adhoc(|m: i32, next: &Next<i32, i32>| if m < 0 { -1 } else { next.call(m) });
    let handler = |m: i32| m + 2;
    assert_eq!(guard.manage(-5, &Next::new(&handler)), -1);
    assert_eq!(guard.manage(5, &Next::new(&handler)), 7);
}

#[test]
fn free_constructors_give_what_the_methods_give() {
    let handler = |m: (String, i32)| m.1 + 2;
    let jumping = adhoc(|m: (String, i32), next: &Next<(String, i32), i32>| next.call(m) + 100);
    let only_a = realm::middleware::limited(jumping, vec!["a".to_string()], |m: &(String, i32)| &m.0);
    assert_eq!(only_a.manage(("a".to_string(), 1), &Next::new(&handler)), 103);
    assert_eq!(only_a.manage(("b".to_string(), 1), &Next::new(&handler)), 3);
    let tripled = realm::adapters::chained(Add2, |n: i32| n * 3);
    assert_eq!(tripled.handle(5), 21);
}
