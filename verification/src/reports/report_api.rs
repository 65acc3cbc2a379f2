//! Reports: a named query with its prepared statement, the decoder of its
//! parameters and the mapper of its rows.

use crate::json::Json;
use crate::reports::client_actor::{query_message, ClientActor, ExecutionResult, Message, Register};
use crate::reports::{QueryInfo, ReportError, SqlValue, Statement, Type};
use vstd::prelude::*;

verus! {

/// The value that `slot` gives for a parameter of kind `kind`, if it holds
/// one: a text for `Text`, a truth value for `Bool`, and for `Int4` and `Int8`
/// a whole number that fits.
pub open spec fn slot_value(kind: Type, slot: Json) -> Option<SqlValue> {
    match (kind, slot) {
        (Type::Text, Json::Text(text)) => Some(SqlValue::Text(text)),
        (Type::Bool, Json::Bool(b)) => Some(SqlValue::Bool(b)),
        (Type::Int4, Json::Number(n)) => match n.whole() {
            Some(w) if i32::MIN <= w <= i32::MAX => Some(SqlValue::Int4(w as i32)),
            _ => None,
        },
        (Type::Int8, Json::Number(n)) => match n.whole() {
            Some(w) if i64::MIN <= w <= i64::MAX => Some(SqlValue::Int8(w as i64)),
            _ => None,
        },
        _ => None,
    }
}

/// `payload` is an array that holds, slot by slot and from its start, a value
/// for each of `kinds`. What follows them in the array does not count.
pub open spec fn holds_params(kinds: Seq<Type>, payload: Json) -> bool {
    &&& payload matches Json::Array(slots)
    &&& kinds.len() <= slots@.len()
    &&& forall|i: int| 0 <= i < kinds.len() ==> (#[trigger] slot_value(kinds[i], slots@[i])) is Some
}

/// `values` are the parameters of `kinds` that `payload` holds.
pub open spec fn params_of(kinds: Seq<Type>, payload: Json, values: Seq<SqlValue>) -> bool {
    &&& payload matches Json::Array(slots)
    &&& values.len() == kinds.len()
    &&& kinds.len() <= slots@.len()
    &&& forall|i: int|
        0 <= i < kinds.len() ==> (#[trigger] slot_value(kinds[i], slots@[i])) == Some(values[i])
}

/// The value that `slot` gives for a parameter of kind `kind`.
pub fn decode_slot(kind: Type, slot: &Json) -> (value: Option<SqlValue>)
    ensures
        value == slot_value(kind, *slot),
{
    match kind {
        Type::Text => match slot {
            Json::Text(text) => Some(SqlValue::Text(text.clone())),
            _ => None,
        },
        Type::Bool => match slot {
            Json::Bool(b) => Some(SqlValue::Bool(*b)),
            _ => None,
        },
        Type::Int4 => match slot {
            Json::Number(n) => match n.as_i32() {
                Some(w) => Some(SqlValue::Int4(w)),
                None => None,
            },
            _ => None,
        },
        Type::Int8 => match slot {
            Json::Number(n) => match n.as_i64() {
                Some(w) => Some(SqlValue::Int8(w)),
                None => None,
            },
            _ => None,
        },
    }
}

/// The decoder of the parameters of a statement: they come as an array, one
/// slot for each, in the order of the kinds that the decoder was made with.
#[derive(Debug, PartialEq, Eq)]
pub struct Params {
    kinds: Vec<Type>,
}

/// The decoder for parameters of `kinds`, in that order.
pub fn params(kinds: Vec<Type>) -> (decoder: Params)
    ensures
        decoder.kinds() == kinds@,
{
    Params { kinds }
}

impl Params {
    /// The kinds of the parameters, in their order.
    pub closed spec fn kinds(&self) -> Seq<Type> {
        self.kinds@
    }

    /// The parameters that `payload` holds, if it holds them all.
    pub fn decode(&self, payload: &Json) -> (values: Option<Vec<SqlValue>>)
        ensures
            values is Some <==> holds_params(self.kinds(), *payload),
            values matches Some(found) ==> params_of(self.kinds(), *payload, found@),
    {
        match payload {
            Json::Array(slots) => {
                if slots.len() < self.kinds.len() {
                    return None;
                }
                let mut returning: Vec<SqlValue> = Vec::with_capacity(self.kinds.len());
                let mut i: usize = 0;
                while i < self.kinds.len()
                    invariant
                        i <= self.kinds.len(),
                        self.kinds.len() <= slots.len(),
                        returning@.len() == i,
                        payload matches Json::Array(held) && held == slots,
                        forall|j: int|
                            0 <= j < i ==> (#[trigger] slot_value(self.kinds@[j], slots@[j]))
                                == Some(returning@[j]),
                    decreases self.kinds.len() - i,
                {
                    match decode_slot(self.kinds[i], &slots[i]) {
                        Some(value) => returning.push(value),
                        None => {
                            assert(slot_value(self.kinds@[i as int], slots@[i as int]) is None);
                            return None;
                        },
                    }
                    i += 1;
                }
                Some(returning)
            },
            _ => None,
        }
    }
}

/// A named query: its text, the kinds of its parameters where they are
/// declared, the handle of its statement once it is prepared, the decoder of
/// its parameters, and the mapper that turns each row into a structured
/// value.
pub struct Report<F> {
    name: String,
    query: String,
    types: Option<Vec<Type>>,
    statement: Option<Statement>,
    solver: F,
    solve_params: Params,
}

/// `out` is what mapping `rows` with `solver` may give: the values of all the
/// rows, in their order, or the failure of a row that could not be mapped.
pub open spec fn maps_rows<Row, F: Fn(&Row) -> Result<Json, String>>(
    solver: F,
    rows: Seq<Row>,
    out: Result<Vec<Json>, ReportError>,
) -> bool {
    match out {
        Ok(values) => {
            &&& values@.len() == rows.len()
            &&& forall|i: int|
                0 <= i < rows.len() ==> #[trigger] call_ensures(
                    solver,
                    (&rows[i],),
                    Ok::<Json, String>(values@[i]),
                )
        },
        Err(failure) => exists|i: int, said: String|
            {
                &&& 0 <= i < rows.len()
                &&& #[trigger] call_ensures(solver, (&rows[i],), Err::<Json, String>(said))
                &&& failure == ReportError::BackendError(said)
            },
    }
}

impl<F> Report<F> {
    /// The name under which the report is asked for.
    pub closed spec fn name(&self) -> String {
        self.name
    }

    /// The text of the query.
    pub closed spec fn query(&self) -> String {
        self.query
    }

    /// The kinds of the parameters, where they have been declared.
    pub closed spec fn types(&self) -> Option<Seq<Type>> {
        match self.types {
            Some(types) => Some(types@),
            None => None,
        }
    }

    /// The handle of the statement, once the report is prepared.
    pub closed spec fn statement(&self) -> Option<Statement> {
        self.statement
    }

    /// The mapper of the rows.
    pub closed spec fn solver(&self) -> F {
        self.solver
    }

    /// The decoder of the parameters.
    pub closed spec fn decoder(&self) -> Params {
        self.solve_params
    }

    /// The message that registers the statement of this report: its query,
    /// with the declared kinds of its parameters, or with none.
    pub open spec fn registers<W>(&self, message: Message<W>) -> bool {
        &&& message matches Message::Register(Register::Statement(query, types))
        &&& query == self.query()
        &&& types@ == match self.types() {
            Some(declared) => declared,
            None => Seq::empty(),
        }
    }

    /// `after` is this report with `statement` kept as the handle of its
    /// statement, and nothing else changed.
    pub open spec fn prepared_as(&self, statement: Statement, after: Self) -> bool {
        &&& after.statement() == Some(statement)
        &&& after.name() == self.name()
        &&& after.query() == self.query()
        &&& after.types() == self.types()
        &&& after.solver() == self.solver()
        &&& after.decoder() == self.decoder()
    }

    /// `after` is `before` with the registration of this report's statement
    /// sent, and nothing else changed.
    pub open spec fn registered_with<W>(&self, before: ClientActor<W>, after: ClientActor<W>) -> bool {
        &&& after.wf()
        &&& after.sent() == before.sent() + 1
        &&& after.busy() == before.busy()
        &&& after.known() == before.known()
        &&& after.pending().len() == before.pending().len() + 1
        &&& after.pending().drop_last() == before.pending()
        &&& after.pending().last().0 == before.sent()
        &&& self.registers(after.pending().last().1)
    }

    /// What asking the report means: `sent` is what the caller is given, and
    /// `after` is the connection actor `before` with the query sent, where one
    /// is sent.
    pub open spec fn handled<W>(
        &self,
        msg: QueryInfo,
        before: ClientActor<W>,
        after: ClientActor<W>,
        sent: Result<u64, ReportError>,
    ) -> bool {
        &&& after.wf()
        &&& after.busy() == before.busy()
        &&& after.known() == before.known()
        &&& match self.statement() {
            None => sent == Err::<u64, ReportError>(ReportError::UninitializedResource),
            Some(statement) => if holds_params(self.decoder().kinds(), msg.params) {
                &&& sent == Ok::<u64, ReportError>(before.sent())
                &&& after.pending().len() == before.pending().len() + 1
                &&& after.pending().last().0 == before.sent()
                &&& after.pending().last().1 matches Message::Query(query)
                &&& query.statement == statement
                &&& params_of(self.decoder().kinds(), msg.params, query.params@)
            } else {
                sent == Err::<u64, ReportError>(ReportError::ParamDecodeFailure)
            },
        }
        &&& sent is Ok ==> after.sent() == before.sent() + 1
        &&& sent is Ok ==> after.pending().drop_last() == before.pending()
        &&& sent is Err ==> after.sent() == before.sent()
        &&& sent is Err ==> after.pending() == before.pending()
    }

    /// The report `name` over `query`, not prepared yet, with no kinds
    /// declared.
    pub fn new(name: String, query: String, params: Params, solver: F) -> (report: Self)
        ensures
            report.name() == name,
            report.query() == query,
            report.types() is None,
            report.statement() is None,
            report.solver() == solver,
            report.decoder() == params,
    {
        Report { name, query, types: None, statement: None, solver, solve_params: params }
    }

    /// The same report with `types` declared as the kinds of its parameters.
    pub fn typed(self, types: Vec<Type>) -> (report: Self)
        ensures
            report.types() == Some(types@),
            report.name() == self.name(),
            report.query() == self.query(),
            report.statement() == self.statement(),
            report.solver() == self.solver(),
            report.decoder() == self.decoder(),
    {
        let mut report = self;
        report.types = Some(types);
        report
    }

    /// The handle of the statement, once the report is prepared.
    pub fn prepared(&self) -> (statement: Option<Statement>)
        ensures
            statement == self.statement(),
    {
        self.statement
    }

    /// The name under which the report is asked for.
    pub fn report_name(&self) -> (name: &String)
        ensures
            *name == self.name(),
    {
        &self.name
    }

    /// Registers the statement of the report with `client` and keeps its
    /// handle. A report is prepared once, before it is first used.
    pub fn prepare<W>(&mut self, client: &mut ClientActor<W>)
        requires
            old(self).statement() is None,
            old(client).wf(),
            old(client).sent() < u64::MAX,
        ensures
            old(self).prepared_as(Statement(old(client).sent()), *final(self)),
            old(self).registered_with(*old(client), *final(client)),
    {
        let types = match &self.types {
            Some(types) => copy_types(types),
            None => Vec::new(),
        };
        let message = Message::Register(Register::Statement(self.query.clone(), types));
        let ticket = client.send(message);
        self.statement = Some(Statement(ticket));
        assert(client.pending().drop_last() == old(client).pending());
    }

    /// Asks the report: resolves its statement, decodes the parameters out of
    /// `msg`, and sends the query to `client`. The ticket of the query is given
    /// back. Where the report is not prepared, or the parameters are not what it
    /// declares, nothing is sent.
    pub fn handle<W>(&self, msg: QueryInfo, client: &mut ClientActor<W>) -> (sent: Result<
        u64,
        ReportError,
    >)
        requires
            old(client).wf(),
            old(client).sent() < u64::MAX,
        ensures
            self.handled(msg, *old(client), *final(client), sent),
    {
        let statement = match self.statement {
            Some(statement) => statement,
            None => {
                return Err(ReportError::UninitializedResource);
            },
        };
        let params = match self.solve_params.decode(&msg.params) {
            Some(params) => params,
            None => {
                return Err(ReportError::ParamDecodeFailure);
            },
        };
        let ticket = client.send(Message::Query(query_message(statement, params)));
        assert(client.pending().drop_last() == old(client).pending());
        Ok(ticket)
    }

    /// `out` is what the report may make of `result`, which came of its
    /// query: a failure of the database stays as it is, and the rows are
    /// mapped.
    pub open spec fn collects<Row>(
        &self,
        result: ExecutionResult<Row>,
        out: Result<Vec<Json>, ReportError>,
    ) -> bool where F: Fn(&Row) -> Result<Json, String> {
        match result.0 {
            Err(failure) => out == Err::<Vec<Json>, ReportError>(failure),
            Ok(rows) => maps_rows(self.solver(), rows@, out),
        }
    }

    /// Turns what came of the query into the values of its rows. A failure of
    /// the database stays as it is; a row that cannot be mapped is a failure of
    /// the database too.
    pub fn collect<Row>(&self, result: ExecutionResult<Row>) -> (out: Result<Vec<Json>, ReportError>) where
        F: Fn(&Row) -> Result<Json, String>,

        requires
            forall|row: &Row| call_requires(self.solver(), (row,)),
        ensures
            self.collects(result, out),
    {
        match result.0 {
            Err(failure) => Err(failure),
            Ok(rows) => {
                let mut values: Vec<Json> = Vec::with_capacity(rows.len());
                let mut i: usize = 0;
                while i < rows.len()
                    invariant
                        i <= rows.len(),
                        values@.len() == i,
                        result.0 matches Ok(held) && held == rows,
                        forall|row: &Row| call_requires(self.solver(), (row,)),
                        forall|j: int|
                            0 <= j < i ==> #[trigger] call_ensures(
                                self.solver(),
                                (&rows@[j],),
                                Ok::<Json, String>(values@[j]),
                            ),
                    decreases rows.len() - i,
                {
                    assert(call_requires(self.solver(), (&rows@[i as int],)));
                    match (self.solver)(&rows[i]) {
                        Ok(value) => values.push(value),
                        Err(said) => {
                            assert(call_ensures(
                                self.solver(),
                                (&rows@[i as int],),
                                Err::<Json, String>(said),
                            ));
                            return Err(ReportError::BackendError(said));
                        },
                    }
                    i += 1;
                }
                Ok(values)
            },
        }
    }
}

/// A copy of `types`.
fn copy_types(types: &Vec<Type>) -> (copy: Vec<Type>)
    ensures
        copy@ == types@,
{
    let mut copy: Vec<Type> = Vec::with_capacity(types.len());
    let mut i: usize = 0;
    while i < types.len()
        invariant
            i <= types.len(),
            copy@ == types@.take(i as int),
        decreases types.len() - i,
    {
        copy.push(types[i]);
        assert(types@.take(i as int + 1) == types@.take(i as int).push(types@[i as int]));
        i += 1;
    }
    assert(types@.take(types@.len() as int) == types@);
    copy
}

/// The report `name` over `query`, with its statement registered with
/// `client`.
pub fn report<W, F>(
    name: String,
    query: String,
    params: Params,
    solver: F,
    client: &mut ClientActor<W>,
) -> (report: Report<F>)
    requires
        old(client).wf(),
        old(client).sent() < u64::MAX,
    ensures
        report.name() == name,
        report.query() == query,
        report.types() is None,
        report.statement() == Some(Statement(old(client).sent())),
        report.solver() == solver,
        report.decoder() == params,
        report.registered_with(*old(client), *final(client)),
{
    let mut report = Report::new(name, query, params, solver);
    report.prepare(client);
    report
}

/// The result of a report as the render surface gets it: the values under
/// `Ok`, or the failure in words under `Err`.
pub open spec fn shows(shown: Json, out: Result<Vec<Json>, ReportError>) -> bool {
    &&& shown matches Json::Object(members)
    &&& members@.len() == 1
    &&& match out {
        Ok(values) => members@[0].0@ == "Ok"@ && members@[0].1 == Json::Array(values),
        Err(failure) => {
            &&& members@[0].0@ == "Err"@
            &&& members@[0].1 matches Json::Text(said)
            &&& said@ == failure.text()
        },
    }
}

/// The result of a report as the render surface gets it.
pub fn show(out: Result<Vec<Json>, ReportError>) -> (shown: Json)
    ensures
        shows(shown, out),
{
    let mut members: Vec<(String, Json)> = Vec::new();
    match out {
        Ok(values) => members.push(("Ok".to_owned(), Json::Array(values))),
        Err(failure) => members.push(("Err".to_owned(), Json::Text(failure.message()))),
    }
    Json::Object(members)
}

} // verus!
