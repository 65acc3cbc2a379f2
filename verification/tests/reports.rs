use realm::json::{Json, Number};
use realm::reports::client_actor::{
    query_message, ClientActor, Command, Event, ExecutionResult, Finish, Message, Phase,
    QueryStatement, Register, Registered, Reply, Start,
};
use realm::reports::report_api::{decode_slot, params, report, show, Report};
use realm::reports::report_manager::report_builder;
use realm::reports::{QueryInfo, ReportError, SqlValue, Statement, Type};
use realm::webview::api::settle;
use realm::webview::ApiResponse;
use realm::Application;

type Actor = ClientActor<&'static str>;

fn text(s: &str) -> Json {
    Json::Text(s.to_string())
}

fn echo(row: &Vec<SqlValue>) -> Result<Json, String> {
    match row.first() {
        Some(SqlValue::Text(s)) => Ok(Json::Text(s.clone())),
        Some(_) => Err("not a text".to_string()),
        None => Err("empty row".to_string()),
    }
}

fn ask(name: &str, params: Json) -> QueryInfo {
    QueryInfo { name: name.to_string(), params }
}

/// A database that prepares every statement and answers every query with one
/// row that holds the parameters it was given.
fn run_to_idle(actor: &mut Actor) -> Vec<(u64, Reply<Vec<SqlValue>>)> {
    let mut replies = Vec::new();
    while let Some(start) = actor.next() {
        let event = match start {
            Start::Refuse(ticket, failure) => {
                replies.push((ticket, Reply::Executed(ExecutionResult(Err(failure)))));
                continue;
            }
            Start::Run(Command::Prepare { .. }) => Event::Prepared(Ok(())),
            Start::Run(Command::Query { params, .. }) => Event::Rows(Ok(vec![params])),
            Start::Run(Command::Begin(work)) => {
                if work == "fails" {
                    Event::Worked(Err("work failed".to_string()))
                } else {
                    Event::Worked(Ok(()))
                }
            }
            Start::Run(Command::Commit) | Start::Run(Command::Rollback) => unreachable!(),
        };
        match actor.complete(event) {
            Some(Finish::Reply(ticket, reply)) => replies.push((ticket, reply)),
            Some(Finish::Commit) | Some(Finish::Rollback) => {
                match actor.complete(Event::<Vec<SqlValue>>::Closed(Ok(()))) {
                    Some(Finish::Reply(ticket, reply)) => replies.push((ticket, reply)),
                    _ => panic!("the transaction was not closed"),
                }
            }
            None => panic!("the event was not taken"),
        }
    }
    replies
}

#[test]
fn report_returns_the_row_it_was_given() {
    let mut actor = Actor::new();
    let ranking = report(
        "ranking".to_string(),
        "SELECT $1".to_string(),
        params(vec![Type::Text]),
        echo,
        &mut actor,
    );
    assert_eq!(
        actor.next(),
        Some(Start::Run(Command::Prepare {
            statement: Statement(0),
            query: "SELECT $1".to_string(),
            types: vec![],
        }))
    );
    assert_eq!(
        actor.complete(Event::<Vec<SqlValue>>::Prepared(Ok(()))),
        Some(Finish::Reply(0, Reply::Registered(Ok(Registered::AppStatement(Statement(0))))))
    );
    let sent = ranking.handle(ask("ranking", Json::Array(vec![text("hello")])), &mut actor);
    assert_eq!(sent, Ok(1));
    let mut replies = run_to_idle(&mut actor);
    assert_eq!(replies.len(), 1);
    let (ticket, reply) = replies.remove(0);
    assert_eq!(ticket, 1);
    let result = match reply {
        Reply::Executed(result) => result,
        _ => panic!("not the reply to a query"),
    };
    let out = ranking.collect(result);
    assert_eq!(out, Ok(vec![text("hello")]));
    let shown = show(out);
    assert_eq!(
        shown,
        Json::Object(vec![("Ok".to_string(), Json::Array(vec![text("hello")]))])
    );
    if let ApiResponse::OpResponse { body, .. } = settle("api/report/ranking".to_string(), shown) {
        assert!(!body.error);
    } else {
        panic!("nothing to deliver");
    }
}

#[test]
fn report_that_is_not_prepared_fails_and_sends_nothing() {
    let mut actor = Actor::new();
    let ranking = Report::new(
        "ranking".to_string(),
        "SELECT $1".to_string(),
        params(vec![Type::Text]),
        echo,
    );
    let sent = ranking.handle(ask("ranking", Json::Array(vec![text("hello")])), &mut actor);
    assert_eq!(sent, Err(ReportError::UninitializedResource));
    assert_eq!(actor.next(), None);
    assert_eq!(
        ReportError::UninitializedResource.message(),
        "Report statement not initialized"
    );
    let shown = show(Err(ReportError::UninitializedResource));
    assert_eq!(
        shown,
        Json::Object(vec![("Err".to_string(), text("Report statement not initialized"))])
    );
    if let ApiResponse::OpResponse { body, .. } = settle("api/report/ranking".to_string(), shown) {
        assert!(body.error);
    } else {
        panic!("nothing to deliver");
    }
}

#[test]
fn queries_behind_a_registration_find_their_statement() {
    let mut actor = Actor::new();
    let statement = Statement(actor.send(Message::Register(Register::Statement(
        "SELECT $1".to_string(),
        vec![Type::Int4],
    ))));
    for x in 0..100 {
        let ticket = actor.send(Message::Query(query_message(statement, vec![SqlValue::Int4(x)])));
        assert_eq!(ticket, x as u64 + 1);
    }
    let replies = run_to_idle(&mut actor);
    assert_eq!(replies.len(), 101);
    assert_eq!(
        replies[0],
        (0, Reply::Registered(Ok(Registered::AppStatement(statement))))
    );
    for x in 0..100 {
        assert_eq!(
            replies[x + 1],
            (
                x as u64 + 1,
                Reply::Executed(ExecutionResult(Ok(vec![vec![SqlValue::Int4(x as i32)]])))
            )
        );
    }
}

#[test]
fn query_for_a_statement_that_was_never_registered_is_refused() {
    let mut actor = Actor::new();
    actor.send(Message::Query(QueryStatement { statement: Statement(9), params: vec![] }));
    assert_eq!(
        actor.next(),
        Some(Start::Refuse(0, ReportError::BackendError("unknown statement".to_string())))
    );
    assert_eq!(actor.next(), None);
}

#[test]
fn query_behind_a_failed_registration_is_refused() {
    let mut actor = Actor::new();
    let statement = Statement(actor.send(Message::Register(Register::Statement(
        "SELEC".to_string(),
        vec![],
    ))));
    actor.send(Message::Query(query_message(statement, vec![])));
    assert!(matches!(actor.next(), Some(Start::Run(Command::Prepare { .. }))));
    assert_eq!(
        actor.complete(Event::<()>::Prepared(Err("syntax error".to_string()))),
        Some(Finish::Reply(
            0,
            Reply::Registered(Err(ReportError::BackendError("syntax error".to_string())))
        ))
    );
    assert!(matches!(actor.next(), Some(Start::Refuse(1, ReportError::BackendError(_)))));
}

#[test]
fn one_message_is_in_work_at_a_time() {
    let mut actor = Actor::new();
    actor.send(Message::Register(Register::Statement("SELECT 1".to_string(), vec![])));
    actor.send(Message::Register(Register::Statement("SELECT 2".to_string(), vec![])));
    assert!(actor.next().is_some());
    assert_eq!(actor.next(), None);
    assert_eq!(actor.complete(Event::<()>::Rows(Ok(vec![]))), None);
    assert_eq!(actor.next(), None);
    assert!(actor.complete(Event::<()>::Prepared(Ok(()))).is_some());
    assert_eq!(
        actor.next(),
        Some(Start::Run(Command::Prepare {
            statement: Statement(1),
            query: "SELECT 2".to_string(),
            types: vec![],
        }))
    );
}

#[test]
fn transaction_commits_only_where_the_work_went_through() {
    let mut actor = Actor::new();
    actor.send(Message::Register(Register::Transaction("works")));
    actor.send(Message::Register(Register::Transaction("fails")));
    assert_eq!(actor.next(), Some(Start::Run(Command::Begin("works"))));
    assert_eq!(actor.complete(Event::<()>::Worked(Ok(()))), Some(Finish::Commit));
    assert_eq!(
        actor.complete(Event::<()>::Closed(Ok(()))),
        Some(Finish::Reply(0, Reply::Registered(Ok(Registered::AppTransaction))))
    );
    assert_eq!(actor.next(), Some(Start::Run(Command::Begin("fails"))));
    assert_eq!(
        actor.complete(Event::<()>::Worked(Err("work failed".to_string()))),
        Some(Finish::Rollback)
    );
    assert_eq!(
        actor.complete(Event::<()>::Closed(Ok(()))),
        Some(Finish::Reply(
            1,
            Reply::Registered(Err(ReportError::TransactionFailure("work failed".to_string())))
        ))
    );
    actor.send(Message::Register(Register::Transaction("works")));
    assert!(actor.next().is_some());
    assert_eq!(actor.complete(Event::<()>::Worked(Ok(()))), Some(Finish::Commit));
    assert_eq!(
        actor.complete(Event::<()>::Closed(Err("connection lost".to_string()))),
        Some(Finish::Reply(
            2,
            Reply::Registered(Err(ReportError::TransactionFailure("connection lost".to_string())))
        ))
    );
}

#[test]
fn backend_failure_of_a_query_is_handed_on() {
    let mut actor = Actor::new();
    let ranking =
        report("r".to_string(), "SELECT $1".to_string(), params(vec![Type::Text]), echo, &mut actor);
    actor.next();
    actor.complete(Event::<Vec<SqlValue>>::Prepared(Ok(())));
    ranking.handle(ask("r", Json::Array(vec![text("x")])), &mut actor).unwrap();
    assert!(matches!(actor.next(), Some(Start::Run(Command::Query { .. }))));
    let finished = actor.complete(Event::<Vec<SqlValue>>::Rows(Err("relation missing".to_string())));
    let result = match finished {
        Some(Finish::Reply(1, Reply::Executed(result))) => result,
        _ => panic!("not the reply to the query"),
    };
    assert_eq!(
        ranking.collect(result),
        Err(ReportError::BackendError("relation missing".to_string()))
    );
    let unmapped = ExecutionResult(Ok(vec![vec![SqlValue::Bool(true)]]));
    assert_eq!(
        ranking.collect(unmapped),
        Err(ReportError::BackendError("not a text".to_string()))
    );
}

#[test]
fn parameters_are_decoded_slot_by_slot() {
    let decoder = params(vec![Type::Text, Type::Int4, Type::Int8, Type::Bool]);
    let payload = Json::Array(vec![
        text("a"),
        Json::Number(Number::NegInt(-7)),
        Json::Number(Number::PosInt(1 << 40)),
        Json::Bool(true),
        Json::Null,
    ]);
    assert_eq!(
        decoder.decode(&payload),
        Some(vec![
            SqlValue::Text("a".to_string()),
            SqlValue::Int4(-7),
            SqlValue::Int8(1 << 40),
            SqlValue::Bool(true),
        ])
    );
    assert_eq!(params(vec![]).decode(&Json::Array(vec![])), Some(vec![]));
}

#[test]
fn parameters_that_do_not_fit_are_refused() {
    let one_text = params(vec![Type::Text]);
    assert_eq!(one_text.decode(&text("hello")), None);
    assert_eq!(one_text.decode(&Json::Null), None);
    assert_eq!(one_text.decode(&Json::Array(vec![])), None);
    assert_eq!(one_text.decode(&Json::Array(vec![Json::Bool(true)])), None);
    assert_eq!(
        one_text.decode(&Json::Object(vec![("0".to_string(), text("hello"))])),
        None
    );
    let two = params(vec![Type::Text, Type::Int4]);
    assert_eq!(two.decode(&Json::Array(vec![text("a")])), None);
    assert_eq!(two.decode(&Json::Array(vec![text("a"), text("b")])), None);
    let mut actor = Actor::new();
    let ranking =
        report("r".to_string(), "SELECT $1".to_string(), params(vec![Type::Text]), echo, &mut actor);
    assert_eq!(
        ranking.handle(ask("r", Json::Bool(false)), &mut actor),
        Err(ReportError::ParamDecodeFailure)
    );
    assert_eq!(
        ReportError::ParamDecodeFailure.message(),
        "Parameters for query could not be parsed"
    );
}

#[test]
fn whole_numbers_are_taken_where_they_fit() {
    let max = Json::Number(Number::PosInt(i32::MAX as u64));
    let over = Json::Number(Number::PosInt(i32::MAX as u64 + 1));
    let min = Json::Number(Number::NegInt(i32::MIN as i64));
    let under = Json::Number(Number::NegInt(i32::MIN as i64 - 1));
    let real = Json::Number(Number::Float(0x4014_0000_0000_0000));
    assert_eq!(decode_slot(Type::Int4, &max), Some(SqlValue::Int4(i32::MAX)));
    assert_eq!(decode_slot(Type::Int4, &over), None);
    assert_eq!(decode_slot(Type::Int4, &min), Some(SqlValue::Int4(i32::MIN)));
    assert_eq!(decode_slot(Type::Int4, &under), None);
    assert_eq!(decode_slot(Type::Int4, &real), None);
    assert_eq!(decode_slot(Type::Int8, &over), Some(SqlValue::Int8(i32::MAX as i64 + 1)));
    assert_eq!(
        decode_slot(Type::Int8, &Json::Number(Number::PosInt(u64::MAX))),
        None
    );
    assert_eq!(
        decode_slot(Type::Int8, &Json::Number(Number::PosInt(i64::MAX as u64))),
        Some(SqlValue::Int8(i64::MAX))
    );
    assert_eq!(decode_slot(Type::Bool, &max), None);
    assert_eq!(Number::Float(1).as_i64(), None);
    assert_eq!(Number::of(-7), Number::NegInt(-7));
    assert_eq!(Number::of(0), Number::PosInt(0));
    assert_eq!(Number::of(7).as_i32(), Some(7));
    assert_eq!(Number::of(i64::MIN).as_i64(), Some(i64::MIN));
}

#[test]
fn manager_asks_the_report_of_the_name() {
    let mut actor = Actor::new();
    let first = Report::new("a".to_string(), "SELECT 1".to_string(), params(vec![]), echo);
    let second = Report::new("b".to_string(), "SELECT $1".to_string(), params(vec![Type::Text]), echo)
        .typed(vec![Type::Text]);
    let again = Report::new("a".to_string(), "SELECT 2".to_string(), params(vec![]), echo);
    let manager = report_builder(2)
        .load(first, &mut actor)
        .load(second, &mut actor)
        .load(again, &mut actor)
        .finish();
    assert!(manager.get("c").is_none());
    assert!(manager.get("a").is_some());
    assert_eq!(manager.handle(ask("c", Json::Null), &mut actor), None);
    assert_eq!(manager.handle(ask("a", Json::Array(vec![])), &mut actor), Some(Ok(3)));
    assert_eq!(
        manager.handle(ask("b", Json::Array(vec![])), &mut actor),
        Some(Err(ReportError::ParamDecodeFailure))
    );
    assert_eq!(
        actor.next(),
        Some(Start::Run(Command::Prepare {
            statement: Statement(0),
            query: "SELECT 1".to_string(),
            types: vec![],
        }))
    );
    actor.complete(Event::<()>::Prepared(Ok(())));
    assert_eq!(
        actor.next(),
        Some(Start::Run(Command::Prepare {
            statement: Statement(1),
            query: "SELECT $1".to_string(),
            types: vec![Type::Text],
        }))
    );
    actor.complete(Event::<()>::Prepared(Ok(())));
    assert!(matches!(actor.next(), Some(Start::Run(Command::Prepare { .. }))));
    actor.complete(Event::<()>::Prepared(Ok(())));
    assert_eq!(
        actor.next(),
        Some(Start::Run(Command::Query { statement: Statement(2), params: vec![] }))
    );
    let _ = Phase::Querying;
}

#[test]
fn registered_gives_its_statement() {
    assert_eq!(Registered::AppStatement(Statement(4)).statement(), Some(Statement(4)));
    assert_eq!(Registered::AppTransaction.statement(), None);
}
