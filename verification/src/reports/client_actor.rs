//! The connection actor: the one owner of the connection to the database. It
//! takes messages into a mailbox and works them off one at a time, in the order
//! in which they were sent. It decides what is to be done next; doing it is up
//! to whoever holds the connection, who reports back what came of it.

use crate::reports::{ReportError, SqlValue, Statement, Type};
use std::collections::{HashSet, VecDeque};
use vstd::prelude::*;

verus! {

broadcast use vstd::std_specs::hash::group_hash_axioms;

/// A message that sets something up at the database.
#[derive(Debug, PartialEq, Eq)]
pub enum Register<W> {
    /// Work to be done inside one transaction.
    Transaction(W),
    /// A statement to be prepared: its text and the kinds of its parameters.
    Statement(String, Vec<Type>),
}

/// A message that runs a prepared statement.
#[derive(Debug, PartialEq, Eq)]
pub struct QueryStatement {
    pub statement: Statement,
    pub params: Vec<SqlValue>,
}

/// The message that runs `statement` with `params`.
pub fn query_message(statement: Statement, params: Vec<SqlValue>) -> (message: QueryStatement)
    ensures
        message == (QueryStatement { statement, params }),
{
    QueryStatement { statement, params }
}

/// What the mailbox takes.
#[derive(Debug, PartialEq, Eq)]
pub enum Message<W> {
    Register(Register<W>),
    Query(QueryStatement),
}

/// What came of a `Register` message.
#[derive(Debug, PartialEq, Eq)]
pub enum Registered {
    AppTransaction,
    AppStatement(Statement),
}

impl Registered {
    /// The statement, where one was registered.
    pub fn statement(self) -> (statement: Option<Statement>)
        ensures
            statement == match self {
                Registered::AppStatement(handle) => Some(handle),
                Registered::AppTransaction => None,
            },
    {
        match self {
            Registered::AppStatement(x) => Some(x),
            _ => None,
        }
    }
}

/// What came of a `Query` message: the rows, in the order in which the
/// database gave them.
#[derive(Debug, PartialEq, Eq)]
pub struct ExecutionResult<Row>(pub Result<Vec<Row>, ReportError>);

/// What is to be done at the database.
#[derive(Debug, PartialEq, Eq)]
pub enum Command<W> {
    /// Prepare the statement `query` and keep it as `statement`.
    Prepare { statement: Statement, query: String, types: Vec<Type> },
    /// Run `statement` with `params`.
    Query { statement: Statement, params: Vec<SqlValue> },
    /// Open a transaction and do the work in it.
    Begin(W),
    /// Commit the open transaction.
    Commit,
    /// Roll the open transaction back.
    Rollback,
}

/// What came of a command.
#[derive(Debug, PartialEq, Eq)]
pub enum Event<Row> {
    /// Of `Prepare`.
    Prepared(Result<(), String>),
    /// Of `Query`.
    Rows(Result<Vec<Row>, String>),
    /// Of `Begin`: whether the work went through.
    Worked(Result<(), String>),
    /// Of `Commit` and `Rollback`.
    Closed(Result<(), String>),
}

/// What the sender of a message is told.
#[derive(Debug, PartialEq, Eq)]
pub enum Reply<Row> {
    Registered(Result<Registered, ReportError>),
    Executed(ExecutionResult<Row>),
}

/// How far the message in work has got.
#[derive(Debug, PartialEq, Eq)]
pub enum Phase {
    Preparing,
    Querying,
    Working,
    Committing,
    /// Rolling back after the work failed in the way that the text says.
    RollingBack(String),
}

/// What the actor does when it turns to the next message.
#[derive(Debug, PartialEq, Eq)]
pub enum Start<W> {
    /// The command is to be run; the actor waits for what comes of it.
    Run(Command<W>),
    /// The sender of the message with this ticket is told of a failure at
    /// once; the actor stays idle.
    Refuse(u64, ReportError),
}

/// What the actor does when it learns what came of a command.
#[derive(Debug, PartialEq, Eq)]
pub enum Finish<Row> {
    /// The transaction is to be committed; the actor waits on.
    Commit,
    /// The transaction is to be rolled back; the actor waits on.
    Rollback,
    /// The sender of the message with this ticket is told; the actor is idle
    /// again.
    Reply(u64, Reply<Row>),
}

/// The connection actor.
pub struct ClientActor<W> {
    mailbox: VecDeque<(u64, Message<W>)>,
    inflight: Option<(u64, Phase)>,
    statements: HashSet<u64>,
    issued: u64,
    asked: Ghost<Set<u64>>,
    refused: Ghost<Set<u64>>,
}

impl<W> Message<W> {
    /// The message registers a statement.
    pub open spec fn registers_statement(&self) -> bool {
        self matches Message::Register(Register::Statement(_, _))
    }
}

/// A message with `ticket` stands in `pending`.
pub open spec fn waits<W>(pending: Seq<(u64, Message<W>)>, ticket: u64) -> bool {
    exists|i: int| 0 <= i < pending.len() && (#[trigger] pending[i]).0 == ticket
}

/// The registration with `ticket` is in work.
pub open spec fn prepares(busy: Option<(u64, Phase)>, ticket: u64) -> bool {
    busy matches Some((working, Phase::Preparing)) && working == ticket
}

/// The mailbox is in order: the tickets of the waiting messages rise from the
/// oldest to the newest, none has been given out twice, and the message in
/// work is older than all that wait.
pub open spec fn in_order<W>(
    pending: Seq<(u64, Message<W>)>,
    busy: Option<(u64, Phase)>,
    sent: u64,
) -> bool {
    &&& forall|i: int| 0 <= i < pending.len() ==> (#[trigger] pending[i]).0 < sent
    &&& forall|i: int, j: int|
        0 <= i < j < pending.len() ==> (#[trigger] pending[i]).0 < (#[trigger] pending[j]).0
    &&& busy matches Some((ticket, _)) ==> {
        &&& ticket < sent
        &&& forall|i: int| 0 <= i < pending.len() ==> ticket < (#[trigger] pending[i]).0
    }
}

/// The books are kept: of the messages sent, those that register a statement
/// are written down as such, and no others; and every registration waits, is
/// in work, has made its statement known, or was refused by the database.
pub open spec fn accounted<W>(
    pending: Seq<(u64, Message<W>)>,
    busy: Option<(u64, Phase)>,
    known: Set<u64>,
    registered: Set<u64>,
    failed: Set<u64>,
    sent: u64,
) -> bool {
    &&& forall|i: int|
        0 <= i < pending.len() ==> ((#[trigger] pending[i]).1.registers_statement()
            <==> registered.contains(pending[i].0))
    &&& forall|ticket: u64| #[trigger]
        registered.contains(ticket) ==> {
            &&& ticket < sent
            &&& {
                ||| waits(pending, ticket)
                ||| prepares(busy, ticket)
                ||| known.contains(ticket)
                ||| failed.contains(ticket)
            }
        }
    &&& busy matches Some((working, phase)) ==> (phase is Preparing <==> registered.contains(
        working,
    ))
    &&& forall|ticket: u64| #[trigger] known.contains(ticket) ==> registered.contains(ticket)
    &&& forall|ticket: u64| #[trigger] failed.contains(ticket) ==> registered.contains(ticket)
}

/// Sending a message keeps the mailbox in order and the books kept.
proof fn lemma_sending<W>(
    pending: Seq<(u64, Message<W>)>,
    busy: Option<(u64, Phase)>,
    known: Set<u64>,
    registered: Set<u64>,
    failed: Set<u64>,
    sent: u64,
    message: Message<W>,
)
    requires
        in_order(pending, busy, sent),
        accounted(pending, busy, known, registered, failed, sent),
        sent < u64::MAX,
    ensures
        in_order(pending.push((sent, message)), busy, (sent + 1) as u64),
        accounted(
            pending.push((sent, message)),
            busy,
            known,
            if message.registers_statement() {
                registered.insert(sent)
            } else {
                registered
            },
            failed,
            (sent + 1) as u64,
        ),
{
    let longer = pending.push((sent, message));
    let written = if message.registers_statement() {
        registered.insert(sent)
    } else {
        registered
    };
    assert forall|i: int| 0 <= i < longer.len() implies (#[trigger] longer[i]).0 < sent + 1 by {
        if i < pending.len() {
            assert(longer[i] == pending[i]);
        }
    }
    assert forall|i: int, j: int| 0 <= i < j < longer.len() implies (#[trigger] longer[i]).0 < (
    #[trigger] longer[j]).0 by {
        assert(longer[i] == pending[i]);
        if j < pending.len() {
            assert(longer[j] == pending[j]);
        }
    }
    if let Some((working, _)) = busy {
        assert forall|i: int| 0 <= i < longer.len() implies working < (#[trigger] longer[i]).0 by {
            if i < pending.len() {
                assert(longer[i] == pending[i]);
            }
        }
    }
    assert forall|i: int| 0 <= i < longer.len() implies ((#[trigger] longer[i]).1.registers_statement()
        <==> written.contains(longer[i].0)) by {
        if i < pending.len() {
            assert(longer[i] == pending[i]);
        } else {
            assert(!registered.contains(sent));
        }
    }
    assert forall|ticket: u64| #[trigger] written.contains(ticket) implies {
        &&& ticket < sent + 1
        &&& {
            ||| waits(longer, ticket)
            ||| prepares(busy, ticket)
            ||| known.contains(ticket)
            ||| failed.contains(ticket)
        }
    } by {
        if ticket == sent {
            assert(longer[pending.len() as int].0 == ticket);
        } else {
            assert(registered.contains(ticket));
            if waits(pending, ticket) {
                let i = choose|i: int| 0 <= i < pending.len() && (#[trigger] pending[i]).0 == ticket;
                assert(longer[i].0 == ticket);
            }
        }
    }
    if let Some((working, _)) = busy {
        assert(!registered.contains(sent));
    }
}

/// Turning to the oldest message keeps the mailbox in order and the books
/// kept, where the actor gets into `Preparing` for a registration of a
/// statement and for nothing else.
proof fn lemma_starting<W>(
    pending: Seq<(u64, Message<W>)>,
    known: Set<u64>,
    registered: Set<u64>,
    failed: Set<u64>,
    sent: u64,
    phase: Option<Phase>,
)
    requires
        in_order(pending, None, sent),
        accounted(pending, None, known, registered, failed, sent),
        pending.len() > 0,
        pending[0].1.registers_statement() <==> phase == Some(Phase::Preparing),
    ensures
        in_order(
            pending.drop_first(),
            match phase {
                Some(phase) => Some((pending[0].0, phase)),
                None => None,
            },
            sent,
        ),
        accounted(
            pending.drop_first(),
            match phase {
                Some(phase) => Some((pending[0].0, phase)),
                None => None,
            },
            known,
            registered,
            failed,
            sent,
        ),
{
    let rest = pending.drop_first();
    let first = pending[0].0;
    let busy = match phase {
        Some(phase) => Some((first, phase)),
        None => None,
    };
    assert forall|i: int| 0 <= i < rest.len() implies first < (#[trigger] rest[i]).0 && rest[i].0
        < sent by {
        assert(rest[i] == pending[i + 1]);
    }
    assert forall|i: int, j: int| 0 <= i < j < rest.len() implies (#[trigger] rest[i]).0 < (
    #[trigger] rest[j]).0 by {
        assert(rest[i] == pending[i + 1]);
        assert(rest[j] == pending[j + 1]);
    }
    assert forall|i: int| 0 <= i < rest.len() implies ((#[trigger] rest[i]).1.registers_statement()
        <==> registered.contains(rest[i].0)) by {
        assert(rest[i] == pending[i + 1]);
    }
    assert forall|ticket: u64| #[trigger] registered.contains(ticket) implies {
        ||| waits(rest, ticket)
        ||| prepares(busy, ticket)
        ||| known.contains(ticket)
        ||| failed.contains(ticket)
    } by {
        if waits(pending, ticket) {
            let i = choose|i: int| 0 <= i < pending.len() && (#[trigger] pending[i]).0 == ticket;
            if i > 0 {
                assert(rest[i - 1] == pending[i]);
            }
        }
    }
}

impl<W> ClientActor<W> {
    /// The messages that wait, with their tickets, the oldest first.
    pub closed spec fn pending(&self) -> Seq<(u64, Message<W>)> {
        self.mailbox@
    }

    /// The ticket of the message that is in work, and how far it has got. The
    /// actor is idle where there is none.
    pub closed spec fn busy(&self) -> Option<(u64, Phase)> {
        self.inflight
    }

    /// The statements that have been prepared.
    pub closed spec fn known(&self) -> Set<u64> {
        self.statements@
    }

    /// How many messages have been sent. It is the ticket of the next one.
    pub closed spec fn sent(&self) -> u64 {
        self.issued
    }

    /// The tickets of the messages sent so far that register a statement.
    pub closed spec fn registered(&self) -> Set<u64> {
        self.asked@
    }

    /// The tickets of the registrations that the database refused.
    pub closed spec fn failed(&self) -> Set<u64> {
        self.refused@
    }

    /// What holds of the actor at all times: its mailbox is in order and its
    /// books are kept.
    pub open spec fn wf(&self) -> bool {
        &&& in_order(self.pending(), self.busy(), self.sent())
        &&& accounted(
            self.pending(),
            self.busy(),
            self.known(),
            self.registered(),
            self.failed(),
            self.sent(),
        )
    }

    /// An idle actor with an empty mailbox that knows no statement.
    pub fn new() -> (actor: Self)
        ensures
            actor.wf(),
            actor.pending() == Seq::<(u64, Message<W>)>::empty(),
            actor.busy() is None,
            actor.known() == Set::<u64>::empty(),
            actor.registered() == Set::<u64>::empty(),
            actor.failed() == Set::<u64>::empty(),
            actor.sent() == 0,
    {
        ClientActor {
            mailbox: VecDeque::new(),
            inflight: None,
            statements: HashSet::new(),
            issued: 0,
            asked: Ghost(Set::empty()),
            refused: Ghost(Set::empty()),
        }
    }

    /// Whether one more message can be sent: the tickets have not run out.
    pub fn has_room(&self) -> (room: bool)
        ensures
            room == (self.sent() < u64::MAX),
    {
        self.issued < u64::MAX
    }

    /// Whether no message is in work.
    pub fn is_idle(&self) -> (idle: bool)
        ensures
            idle == (self.busy() is None),
    {
        self.inflight.is_none()
    }

    /// How many messages wait.
    pub fn waiting(&self) -> (count: usize)
        ensures
            count == self.pending().len(),
    {
        self.mailbox.len()
    }

    /// Puts `message` at the end of the mailbox and gives its ticket.
    pub fn send(&mut self, message: Message<W>) -> (ticket: u64)
        requires
            old(self).wf(),
            old(self).sent() < u64::MAX,
        ensures
            final(self).wf(),
            ticket == old(self).sent(),
            final(self).sent() == ticket + 1,
            final(self).pending() == old(self).pending().push((ticket, message)),
            final(self).busy() == old(self).busy(),
            final(self).known() == old(self).known(),
            final(self).failed() == old(self).failed(),
            final(self).registered() == if message.registers_statement() {
                old(self).registered().insert(ticket)
            } else {
                old(self).registered()
            },
    {
        let ticket = self.issued;
        proof {
            lemma_sending(
                self.pending(),
                self.busy(),
                self.known(),
                self.registered(),
                self.failed(),
                self.sent(),
                message,
            );
            if message.registers_statement() {
                self.asked@ = self.asked@.insert(ticket);
            }
        }
        self.mailbox.push_back((ticket, message));
        self.issued = ticket + 1;
        ticket
    }

    /// What turning to the oldest waiting message `(ticket, message)` means:
    /// the phase that the actor gets into, if any, and what it does.
    pub open spec fn begins(&self, ticket: u64, message: Message<W>, phase: Option<Phase>, start: Start<W>) -> bool {
        match message {
            Message::Register(Register::Statement(query, types)) => {
                &&& phase == Some(Phase::Preparing)
                &&& start == Start::<W>::Run(
                    Command::Prepare { statement: Statement(ticket), query, types },
                )
            },
            Message::Register(Register::Transaction(work)) => {
                &&& phase == Some(Phase::Working)
                &&& start == Start::<W>::Run(Command::Begin(work))
            },
            Message::Query(QueryStatement { statement, params }) => if self.known().contains(
                statement.0,
            ) {
                &&& phase == Some(Phase::Querying)
                &&& start == Start::<W>::Run(Command::Query { statement, params })
            } else {
                &&& phase is None
                &&& start matches Start::Refuse(refused, ReportError::BackendError(said))
                &&& refused == ticket
                &&& said@ == "unknown statement"@
            },
        }
    }

    /// Turns to the oldest waiting message, unless a message is in work or
    /// none waits.
    pub fn next(&mut self) -> (start: Option<Start<W>>)
        requires
            old(self).wf(),
        ensures
            final(self).wf(),
            final(self).sent() == old(self).sent(),
            final(self).known() == old(self).known(),
            final(self).registered() == old(self).registered(),
            final(self).failed() == old(self).failed(),
            old(self).busy() is Some || old(self).pending().len() == 0 ==> {
                &&& start is None
                &&& final(self).pending() == old(self).pending()
                &&& final(self).busy() == old(self).busy()
            },
            old(self).busy() is None && old(self).pending().len() > 0 ==> {
                &&& final(self).pending() == old(self).pending().drop_first()
                &&& start matches Some(begun)
                &&& old(self).begins(
                    old(self).pending()[0].0,
                    old(self).pending()[0].1,
                    match final(self).busy() {
                        Some((_, phase)) => Some(phase),
                        None => None,
                    },
                    begun,
                )
                &&& final(self).busy() matches Some((ticket, _)) ==> ticket == old(self).pending()[0].0
            },
    {
        if self.inflight.is_some() {
            return None;
        }
        match self.mailbox.pop_front() {
            None => None,
            Some((ticket, message)) => {
                assert(old(self).pending()[0] == (ticket, message));
                assert(self.pending() == old(self).pending().drop_first());
                match message {
                    Message::Register(Register::Statement(query, types)) => {
                        self.inflight = Some((ticket, Phase::Preparing));
                        proof {
                            lemma_starting(
                                old(self).pending(),
                                self.known(),
                                self.registered(),
                                self.failed(),
                                self.sent(),
                                Some(Phase::Preparing),
                            );
                        }
                        Some(
                            Start::Run(
                                Command::Prepare { statement: Statement(ticket), query, types },
                            ),
                        )
                    },
                    Message::Register(Register::Transaction(work)) => {
                        self.inflight = Some((ticket, Phase::Working));
                        proof {
                            lemma_starting(
                                old(self).pending(),
                                self.known(),
                                self.registered(),
                                self.failed(),
                                self.sent(),
                                Some(Phase::Working),
                            );
                        }
                        Some(Start::Run(Command::Begin(work)))
                    },
                    Message::Query(QueryStatement { statement, params }) => {
                        if self.statements.contains(&statement.0) {
                            self.inflight = Some((ticket, Phase::Querying));
                            proof {
                                lemma_starting(
                                    old(self).pending(),
                                    self.known(),
                                    self.registered(),
                                    self.failed(),
                                    self.sent(),
                                    Some(Phase::Querying),
                                );
                            }
                            Some(Start::Run(Command::Query { statement, params }))
                        } else {
                            proof {
                                lemma_starting(
                                    old(self).pending(),
                                    self.known(),
                                    self.registered(),
                                    self.failed(),
                                    self.sent(),
                                    None,
                                );
                            }
                            Some(
                                Start::Refuse(
                                    ticket,
                                    ReportError::BackendError("unknown statement".to_owned()),
                                ),
                            )
                        }
                    },
                }
            },
        }
    }

    /// What learning of `event` means to an actor that was at `busy` and knew
    /// the statements `known`: where it is afterwards, what it knows, and what it
    /// does. An event that does not answer the command in work changes
    /// nothing.
    pub open spec fn completed<Row>(busy: Option<(u64, Phase)>, known: Set<u64>, event: Event<Row>) -> (
        Option<(u64, Phase)>,
        Set<u64>,
        Option<Finish<Row>>,
    ) {
        match (busy, event) {
            (Some((ticket, Phase::Preparing)), Event::Prepared(Ok(_))) => (
                None,
                known.insert(ticket),
                Some(
                    Finish::Reply(
                        ticket,
                        Reply::Registered(Ok(Registered::AppStatement(Statement(ticket)))),
                    ),
                ),
            ),
            (Some((ticket, Phase::Preparing)), Event::Prepared(Err(said))) => (
                None,
                known,
                Some(Finish::Reply(ticket, Reply::Registered(Err(ReportError::BackendError(said))))),
            ),
            (Some((ticket, Phase::Querying)), Event::Rows(Ok(rows))) => (
                None,
                known,
                Some(Finish::Reply(ticket, Reply::Executed(ExecutionResult(Ok(rows))))),
            ),
            (Some((ticket, Phase::Querying)), Event::Rows(Err(said))) => (
                None,
                known,
                Some(
                    Finish::Reply(
                        ticket,
                        Reply::Executed(ExecutionResult(Err(ReportError::BackendError(said)))),
                    ),
                ),
            ),
            (Some((ticket, Phase::Working)), Event::Worked(Ok(_))) => (
                Some((ticket, Phase::Committing)),
                known,
                Some(Finish::Commit),
            ),
            (Some((ticket, Phase::Working)), Event::Worked(Err(said))) => (
                Some((ticket, Phase::RollingBack(said))),
                known,
                Some(Finish::Rollback),
            ),
            (Some((ticket, Phase::Committing)), Event::Closed(Ok(_))) => (
                None,
                known,
                Some(Finish::Reply(ticket, Reply::Registered(Ok(Registered::AppTransaction)))),
            ),
            (Some((ticket, Phase::Committing)), Event::Closed(Err(said))) => (
                None,
                known,
                Some(
                    Finish::Reply(
                        ticket,
                        Reply::Registered(Err(ReportError::TransactionFailure(said))),
                    ),
                ),
            ),
            (Some((ticket, Phase::RollingBack(why))), Event::Closed(_)) => (
                None,
                known,
                Some(
                    Finish::Reply(ticket, Reply::Registered(Err(ReportError::TransactionFailure(why)))),
                ),
            ),
            _ => (busy, known, None),
        }
    }

    /// Takes in what came of the command in work.
    pub fn complete<Row>(&mut self, event: Event<Row>) -> (finish: Option<Finish<Row>>)
        requires
            old(self).wf(),
        ensures
            final(self).wf(),
            final(self).sent() == old(self).sent(),
            final(self).pending() == old(self).pending(),
            final(self).registered() == old(self).registered(),
            (final(self).busy(), final(self).known(), finish) == Self::completed(
                old(self).busy(),
                old(self).known(),
                event,
            ),
            final(self).failed() == match (old(self).busy(), event) {
                (Some((ticket, Phase::Preparing)), Event::Prepared(Err(_))) => old(
                    self,
                ).failed().insert(ticket),
                _ => old(self).failed(),
            },
    {
        let finish = match self.inflight.take() {
            None => None,
            Some((ticket, phase)) => {
                match (phase, event) {
                    (Phase::Preparing, Event::Prepared(Ok(_))) => {
                        self.statements.insert(ticket);
                        Some(
                            Finish::Reply(
                                ticket,
                                Reply::Registered(Ok(Registered::AppStatement(Statement(ticket)))),
                            ),
                        )
                    },
                    (Phase::Preparing, Event::Prepared(Err(said))) => {
                        proof {
                            self.refused@ = self.refused@.insert(ticket);
                        }
                        Some(
                            Finish::Reply(
                                ticket,
                                Reply::Registered(Err(ReportError::BackendError(said))),
                            ),
                        )
                    },
                    (Phase::Querying, Event::Rows(Ok(rows))) => Some(
                        Finish::Reply(ticket, Reply::Executed(ExecutionResult(Ok(rows)))),
                    ),
                    (Phase::Querying, Event::Rows(Err(said))) => Some(
                        Finish::Reply(
                            ticket,
                            Reply::Executed(ExecutionResult(Err(ReportError::BackendError(said)))),
                        ),
                    ),
                    (Phase::Working, Event::Worked(Ok(_))) => {
                        self.inflight = Some((ticket, Phase::Committing));
                        Some(Finish::Commit)
                    },
                    (Phase::Working, Event::Worked(Err(said))) => {
                        self.inflight = Some((ticket, Phase::RollingBack(said)));
                        Some(Finish::Rollback)
                    },
                    (Phase::Committing, Event::Closed(Ok(_))) => Some(
                        Finish::Reply(ticket, Reply::Registered(Ok(Registered::AppTransaction))),
                    ),
                    (Phase::Committing, Event::Closed(Err(said))) => Some(
                        Finish::Reply(
                            ticket,
                            Reply::Registered(Err(ReportError::TransactionFailure(said))),
                        ),
                    ),
                    (Phase::RollingBack(why), Event::Closed(_)) => Some(
                        Finish::Reply(
                            ticket,
                            Reply::Registered(Err(ReportError::TransactionFailure(why))),
                        ),
                    ),
                    (phase, _) => {
                        self.inflight = Some((ticket, phase));
                        None
                    },
                }
            },
        };
        proof {
            let pending = old(self).pending();
            assert(self.pending() == pending);
            if let Some((working, _)) = self.busy() {
                assert(old(self).busy() matches Some((before, _)) && before == working);
            }
            assert forall|ticket: u64| #[trigger] self.registered().contains(ticket) implies {
                ||| waits(self.pending(), ticket)
                ||| prepares(self.busy(), ticket)
                ||| self.known().contains(ticket)
                ||| self.failed().contains(ticket)
            } by {
                assert(old(self).registered().contains(ticket));
            }
        }
        finish
    }
}

/// Messages wait in the order in which they were sent: of two that wait, the
/// one that stands first was sent first.
pub proof fn lemma_mailbox_in_sending_order<W>(actor: ClientActor<W>, i: int, j: int)
    requires
        actor.wf(),
        0 <= i < j < actor.pending().len(),
    ensures
        actor.pending()[i].0 < actor.pending()[j].0,
{
}

/// By the time the actor turns to a message, everything that was sent before
/// it has been worked off: nothing older waits, and nothing is in work.
pub proof fn lemma_older_messages_are_done<W>(actor: ClientActor<W>, older: u64)
    requires
        actor.wf(),
        actor.busy() is None,
        actor.pending().len() > 0,
        older < actor.pending()[0].0,
    ensures
        !waits(actor.pending(), older),
        !prepares(actor.busy(), older),
{
    assert forall|i: int| 0 <= i < actor.pending().len() implies (#[trigger] actor.pending()[i]).0
        != older by {
        if i > 0 {
            assert(actor.pending()[0].0 < actor.pending()[i].0);
        }
    }
}

/// A query finds the statement whose registration was sent before it, unless
/// the database refused that registration: by the time the actor turns to the
/// query, the registration has been worked off, and the statement is known
/// or was refused.
pub proof fn lemma_query_finds_its_statement<W>(actor: ClientActor<W>, statement: Statement)
    requires
        actor.wf(),
        actor.busy() is None,
        actor.pending().len() > 0,
        actor.pending()[0].1 matches Message::Query(query) && query.statement == statement,
        actor.registered().contains(statement.0),
        statement.0 < actor.pending()[0].0,
    ensures
        actor.known().contains(statement.0) || actor.failed().contains(statement.0),
{
    lemma_older_messages_are_done(actor, statement.0);
}

} // verus!
