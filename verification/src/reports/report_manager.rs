//! The reports of an application, by name.

use crate::json::Json;
use crate::reports::client_actor::{ClientActor, ExecutionResult};
use crate::reports::report_api::Report;
use crate::reports::{QueryInfo, ReportError, Statement};
use crate::table::{find, lemma_table_push, lemma_table_update, table};
use crate::Application;
use vstd::prelude::*;

verus! {

/// The reports under assembly.
pub struct ReportManagerBuilder<F> {
    apis: Vec<(String, Report<F>)>,
}

/// The reports as assembled, by name.
pub struct ReportManager<F> {
    apis: Vec<(String, Report<F>)>,
}

/// An assembly without reports, with room for `capacity` of them.
pub fn report_builder<F>(capacity: usize) -> (builder: ReportManagerBuilder<F>)
    ensures
        builder.reports() == Map::<Seq<char>, Report<F>>::empty(),
{
    let builder = ReportManagerBuilder { apis: Vec::with_capacity(capacity) };
    assert(builder.reports() =~= Map::<Seq<char>, Report<F>>::empty());
    builder
}

impl<F> ReportManagerBuilder<F> {
    /// The reports that have been loaded, by name.
    pub closed spec fn reports(&self) -> Map<Seq<char>, Report<F>> {
        table(self.apis@)
    }

    /// Prepares `api` with `client` and loads it under its name, in place of
    /// the report that was loaded under that name before, if any.
    pub fn load<W>(self, api: Report<F>, client: &mut ClientActor<W>) -> (builder: Self)
        requires
            api.statement() is None,
            old(client).wf(),
            old(client).sent() < u64::MAX,
        ensures
            api.registered_with(*old(client), *final(client)),
            builder.reports().dom() == self.reports().dom().insert(api.name()@),
            api.prepared_as(Statement(old(client).sent()), builder.reports()[api.name()@]),
            forall|name: Seq<char>|
                name != api.name()@ && self.reports().contains_key(name) ==> #[trigger]
                    builder.reports()[name] == self.reports()[name],
    {
        let mut builder = self;
        let mut api = api;
        api.prepare(client);
        let name = api.report_name().clone();
        match find(&builder.apis, name.as_str()) {
            Some(at) => {
                proof {
                    lemma_table_update(builder.apis@, at as int, name, api);
                }
                builder.apis.set(at, (name, api));
            },
            None => {
                proof {
                    lemma_table_push(builder.apis@, name, api);
                }
                builder.apis.push((name, api));
            },
        }
        builder
    }
}

impl<F> Application for ReportManagerBuilder<F> {
    type Result = ReportManager<F>;

    /// Closes the assembly.
    fn finish(self) -> (manager: ReportManager<F>)
        ensures
            manager.reports() == self.reports(),
    {
        ReportManager { apis: self.apis }
    }
}

impl<F> ReportManager<F> {
    /// The reports, by name.
    pub closed spec fn reports(&self) -> Map<Seq<char>, Report<F>> {
        table(self.apis@)
    }

    /// The report named `name`, if there is one.
    pub fn get(&self, name: &str) -> (found: Option<&Report<F>>)
        ensures
            found == if self.reports().contains_key(name@) {
                Some(&self.reports()[name@])
            } else {
                None
            },
    {
        match find(&self.apis, name) {
            Some(at) => Some(&self.apis[at].1),
            None => None,
        }
    }

    /// Asks the report that `msg` names, if there is one: what it gives is
    /// handed on. Where there is none, nothing is sent and nothing is given.
    pub fn handle<W>(&self, msg: QueryInfo, client: &mut ClientActor<W>) -> (sent: Option<
        Result<u64, ReportError>,
    >)
        requires
            old(client).wf(),
            old(client).sent() < u64::MAX,
        ensures
            match sent {
                None => !self.reports().contains_key(msg.name@) && *final(client) == *old(client),
                Some(given) => self.reports().contains_key(msg.name@) && self.reports()[msg.name@].handled(
                    msg,
                    *old(client),
                    *final(client),
                    given,
                ),
            },
    {
        match find(&self.apis, msg.name.as_str()) {
            Some(at) => Some(self.apis[at].1.handle(msg, client)),
            None => None,
        }
    }

    /// Turns what came of a query of the report named `name` into the values
    /// of its rows, or into the failure in words. Nothing is given where there is
    /// no such report.
    pub fn collect<Row>(&self, name: &str, result: ExecutionResult<Row>) -> (given: Option<
        Result<Vec<Json>, String>,
    >) where F: Fn(&Row) -> Result<Json, String>
        requires
            self.reports().contains_key(name@) ==> forall|row: &Row|
                call_requires(self.reports()[name@].solver(), (row,)),
        ensures
            match given {
                None => !self.reports().contains_key(name@),
                Some(Ok(values)) => self.reports().contains_key(name@) && self.reports()[name@].collects(
                    result,
                    Ok(values),
                ),
                Some(Err(said)) => self.reports().contains_key(name@) && exists|failure: ReportError|
                    #[trigger] self.reports()[name@].collects(result, Err(failure)) && said@
                        == failure.text(),
            },
    {
        match find(&self.apis, name) {
            Some(at) => match self.apis[at].1.collect(result) {
                Ok(values) => Some(Ok(values)),
                Err(failure) => Some(Err(failure.message())),
            },
            None => None,
        }
    }
}

} // verus!
