//! The request handlers: one entry per route, and the stages that every
//! request passes through.
//!
//! A request is parsed by the function of its route, which yields an
//! [`Exchange`]. From there on the caller does what [`Exchange::action`]
//! asks for, takes a connection from the pool, runs the statement on a
//! worker, and reports what happened with [`Exchange::advance`], until the
//! exchange holds the reply. Nothing is tried twice: the first failure
//! decides the reply.

use vstd::prelude::*;
use crate::failure::Failure;
use crate::ident::{checked_id, is_random_id, parse_id, parsed_id};
use crate::notes::{note_of, Note, NoteDBView, NoteRequest, NoteView, Notes};
use crate::repository::{conclude, concluded, insertion, outcome_view, Outcome, OutcomeView};
use crate::storage::{rows_by_id, runs, table_wf, Answer, AnswerView, Statement, StatementView, Table};

verus! {

/// The most notes that a listing returns.
pub const LIST_LIMIT: i64 = 50;

/// The text that the root of the service answers with.
pub open spec fn greeting() -> Seq<char> {
    "Oh hello there!"@
}

/// The body of a reply. A text is sent as plain text, a note and a list of
/// notes as JSON.
#[derive(Debug, Clone, PartialEq, Eq)]
pub enum Body {
    Empty,
    Text(String),
    Note(Note),
    Notes(Notes),
}

/// What a [`Body`] holds.
pub enum BodyView {
    Empty,
    Text(Seq<char>),
    Note(NoteView),
    Notes(Seq<NoteView>),
}

impl View for Body {
    type V = BodyView;

    open spec fn view(&self) -> BodyView {
        match self {
            Body::Empty => BodyView::Empty,
            Body::Text(text) => BodyView::Text(text@),
            Body::Note(note) => BodyView::Note(note@),
            Body::Notes(notes) => BodyView::Notes(notes@),
        }
    }
}

/// The reply to a request: an HTTP status and a body.
#[derive(Debug, Clone, PartialEq, Eq)]
pub struct Reply {
    pub status: u16,
    pub body: Body,
}

/// What a [`Reply`] holds.
pub struct ReplyView {
    pub status: u16,
    pub body: BodyView,
}

impl View for Reply {
    type V = ReplyView;

    open spec fn view(&self) -> ReplyView {
        ReplyView { status: self.status, body: self.body@ }
    }
}

/// Where a request stands once its input is parsed.
#[derive(Debug, Clone, PartialEq, Eq)]
pub enum Exchange {
    /// A connection is to be taken from the pool for `statement`.
    Acquiring { statement: Statement },
    /// `statement` is to be run on a worker with the connection taken.
    Dispatching { statement: Statement },
    /// The request is decided; `reply` is to be sent.
    Responding { reply: Reply },
}

/// What an [`Exchange`] holds.
pub enum ExchangeView {
    Acquiring { statement: StatementView },
    Dispatching { statement: StatementView },
    Responding { reply: ReplyView },
}

impl View for Exchange {
    type V = ExchangeView;

    open spec fn view(&self) -> ExchangeView {
        match self {
            Exchange::Acquiring { statement } => ExchangeView::Acquiring { statement: statement@ },
            Exchange::Dispatching { statement } => ExchangeView::Dispatching { statement: statement@ },
            Exchange::Responding { reply } => ExchangeView::Responding { reply: reply@ },
        }
    }
}

/// What happened to what an exchange asked for.
#[derive(Debug, Clone, PartialEq, Eq)]
pub enum Event {
    /// The pool gave a connection.
    Acquired,
    /// The pool gave none.
    Exhausted,
    /// The worker ran the statement, and the store gave this answer.
    Answered(Answer),
    /// The worker did not come back with an answer.
    WorkerFailed,
}

/// What an [`Event`] holds.
pub enum EventView {
    Acquired,
    Exhausted,
    Answered(AnswerView),
    WorkerFailed,
}

impl View for Event {
    type V = EventView;

    open spec fn view(&self) -> EventView {
        match self {
            Event::Acquired => EventView::Acquired,
            Event::Exhausted => EventView::Exhausted,
            Event::Answered(answer) => EventView::Answered(answer@),
            Event::WorkerFailed => EventView::WorkerFailed,
        }
    }
}

/// What an exchange asks its caller to do next.
#[derive(Debug)]
pub enum Action<'a> {
    /// Take a connection from the pool, and report [`Event::Acquired`] or
    /// [`Event::Exhausted`].
    Acquire,
    /// Run the statement on a worker, and report [`Event::Answered`] or
    /// [`Event::WorkerFailed`].
    Dispatch(&'a Statement),
    /// Send the reply. The exchange is over.
    Respond(&'a Reply),
}

/// The reply that a result of the repository is answered with: 200 with the
/// notes listed or the note found, 201 with the note created, 204 without a
/// body for a deletion, and for a failure the status of its kind without a
/// body.
pub open spec fn reply_for(result: Result<OutcomeView, Failure>) -> ReplyView {
    match result {
        Ok(OutcomeView::Listed(notes)) => ReplyView { status: 200, body: BodyView::Notes(notes) },
        Ok(OutcomeView::Found(note)) => ReplyView { status: 200, body: BodyView::Note(note) },
        Ok(OutcomeView::Created(note)) => ReplyView { status: 201, body: BodyView::Note(note) },
        Ok(OutcomeView::Deleted) => ReplyView { status: 204, body: BodyView::Empty },
        Err(failure) => ReplyView { status: failure.status_code(), body: BodyView::Empty },
    }
}

/// Where a request stands after parsing: with the statement to run where
/// the input was accepted, and with the reply to the failure where it was
/// not.
pub open spec fn begun(parsed: Result<StatementView, Failure>) -> ExchangeView {
    match parsed {
        Ok(statement) => ExchangeView::Acquiring { statement },
        Err(failure) => ExchangeView::Responding { reply: reply_for(Err(failure)) },
    }
}

/// Where an exchange stands after an event.
///
/// While a connection is awaited, [`EventView::Acquired`] leads on to the
/// worker and [`EventView::Exhausted`] ends the request with
/// [`Failure::PoolExhausted`]. While the worker is awaited, an answer ends
/// the request with what the repository makes of it. Every other event ends
/// the request with [`Failure::DispatchFailure`]. A request that has its
/// reply keeps it.
pub open spec fn step(exchange: ExchangeView, event: EventView) -> ExchangeView {
    match (exchange, event) {
        (ExchangeView::Acquiring { statement }, EventView::Acquired) => ExchangeView::Dispatching {
            statement,
        },
        (ExchangeView::Acquiring { statement }, EventView::Exhausted) => ExchangeView::Responding {
            reply: reply_for(Err(Failure::PoolExhausted)),
        },
        (ExchangeView::Dispatching { statement }, EventView::Answered(answer)) => ExchangeView::Responding {
            reply: reply_for(concluded(statement, answer)),
        },
        (ExchangeView::Responding { reply }, _) => ExchangeView::Responding { reply },
        (_, _) => ExchangeView::Responding { reply: reply_for(Err(Failure::DispatchFailure)) },
    }
}

/// The reply to a result of the repository.
pub fn render(result: Result<Outcome, Failure>) -> (reply: Reply)
    ensures
        reply@ == reply_for(outcome_view(result)),
{
    match result {
        Ok(Outcome::Listed(notes)) => Reply { status: 200, body: Body::Notes(notes) },
        Ok(Outcome::Found(note)) => Reply { status: 200, body: Body::Note(note) },
        Ok(Outcome::Created(note)) => Reply { status: 201, body: Body::Note(note) },
        Ok(Outcome::Deleted) => Reply { status: 204, body: Body::Empty },
        Err(failure) => Reply { status: failure.status(), body: Body::Empty },
    }
}

/// What a parsed input holds.
pub open spec fn parsed_view(parsed: Result<Statement, Failure>) -> Result<StatementView, Failure> {
    match parsed {
        Ok(statement) => Ok(statement@),
        Err(failure) => Err(failure),
    }
}

/// Starts the exchange for a parsed input.
pub fn begin(parsed: Result<Statement, Failure>) -> (exchange: Exchange)
    ensures
        exchange@ == begun(parsed_view(parsed)),
{
    match parsed {
        Ok(statement) => Exchange::Acquiring { statement },
        Err(failure) => Exchange::Responding { reply: render(Err(failure)) },
    }
}

/// `GET /`: answers with the greeting, and needs neither a connection nor a
/// worker.
pub fn index() -> (exchange: Exchange)
    ensures
        exchange@ == (ExchangeView::Responding {
            reply: ReplyView { status: 200, body: BodyView::Text(greeting()) },
        }),
{
    Exchange::Responding { reply: Reply { status: 200, body: Body::Text("Oh hello there!".to_owned()) } }
}

/// `GET /notes`: lists the latest notes, at most [`LIST_LIMIT`] of them.
pub fn list() -> (exchange: Exchange)
    ensures
        exchange@ == begun(Ok(StatementView::Newest { limit: LIST_LIMIT })),
{
    begin(Ok(Statement::Newest { limit: LIST_LIMIT }))
}

/// The statement that a lookup under the identifier read from the path
/// runs.
pub open spec fn lookup(id: Result<u128, Failure>) -> Result<StatementView, Failure> {
    match id {
        Ok(id) => Ok(StatementView::ById { id }),
        Err(failure) => Err(failure),
    }
}

/// The statement that a deletion under the identifier read from the path
/// runs.
pub open spec fn removal(id: Result<u128, Failure>) -> Result<StatementView, Failure> {
    match id {
        Ok(id) => Ok(StatementView::Remove { id }),
        Err(failure) => Err(failure),
    }
}

/// Starts a lookup under the identifier read from the path, or ends the
/// request where none could be read.
pub fn get_by_id(id: Result<u128, Failure>) -> (exchange: Exchange)
    ensures
        exchange@ == begun(lookup(id)),
{
    match id {
        Ok(id) => begin(Ok(Statement::ById { id })),
        Err(failure) => begin(Err(failure)),
    }
}

/// Starts a deletion under the identifier read from the path, or ends the
/// request where none could be read.
pub fn delete_by_id(id: Result<u128, Failure>) -> (exchange: Exchange)
    ensures
        exchange@ == begun(removal(id)),
{
    match id {
        Ok(id) => begin(Ok(Statement::Remove { id })),
        Err(failure) => begin(Err(failure)),
    }
}

/// `GET /notes/{id}`: looks up the note whose identifier is the text
/// `path`. A text that is no identifier ends the request at once as a
/// [`Failure::BadRequest`].
pub fn get(path: &str) -> (exchange: Exchange)
    ensures
        exchange@ == begun(lookup(checked_id(parsed_id(path@)))),
{
    get_by_id(parse_id(path))
}

/// `POST /notes`: creates a note with the content of the request. A request
/// without a content ends at once as a [`Failure::BadRequest`]. Otherwise
/// the row to insert has that content, a newly drawn identifier and the
/// current instant.
pub fn create(note_req: &NoteRequest) -> (exchange: Exchange)
    ensures
        match note_req@ {
            Some(content) => {
                &&& exchange@ matches ExchangeView::Acquiring {
                    statement: StatementView::Insert { row },
                }
                &&& row.content == content
                &&& is_random_id(row.id)
            },
            None => exchange@ == begun(Err(Failure::BadRequest)),
        },
{
    match note_req.to_note() {
        Some(note) => begin(Ok(insertion(&note))),
        None => begin(Err(Failure::BadRequest)),
    }
}

/// `DELETE /notes/{id}`: deletes the note whose identifier is the text
/// `path`. A text that is no identifier ends the request at once as a
/// [`Failure::BadRequest`].
pub fn delete(path: &str) -> (exchange: Exchange)
    ensures
        exchange@ == begun(removal(checked_id(parsed_id(path@)))),
{
    delete_by_id(parse_id(path))
}

impl Exchange {
    /// What the caller is to do next.
    pub fn action(&self) -> (action: Action<'_>)
        ensures
            match self {
                Exchange::Acquiring { statement } => action is Acquire,
                Exchange::Dispatching { statement } => action == Action::Dispatch(statement),
                Exchange::Responding { reply } => action == Action::Respond(reply),
            },
    {
        match self {
            Exchange::Acquiring { statement } => Action::Acquire,
            Exchange::Dispatching { statement } => Action::Dispatch(statement),
            Exchange::Responding { reply } => Action::Respond(reply),
        }
    }

    /// Takes the exchange on by one event.
    pub fn advance(self, event: Event) -> (next: Exchange)
        ensures
            next@ == step(self@, event@),
    {
        match self {
            Exchange::Acquiring { statement } => match event {
                Event::Acquired => Exchange::Dispatching { statement },
                Event::Exhausted => Exchange::Responding { reply: render(Err(Failure::PoolExhausted)) },
                _ => Exchange::Responding { reply: render(Err(Failure::DispatchFailure)) },
            },
            Exchange::Dispatching { statement } => match event {
                Event::Answered(answer) => Exchange::Responding {
                    reply: render(conclude(&statement, answer)),
                },
                _ => Exchange::Responding { reply: render(Err(Failure::DispatchFailure)) },
            },
            Exchange::Responding { reply } => Exchange::Responding { reply },
        }
    }
}

/// Whether `status` is one of the statuses that a reply can carry.
pub open spec fn is_reply_status(status: u16) -> bool {
    status == 200 || status == 201 || status == 204 || status == 400 || status == 500 || status == 503
}

/// A reply carries one of six statuses, and a body only where it reports a
/// success that has something to show.
pub proof fn lemma_reply_shape(result: Result<OutcomeView, Failure>)
    ensures
        is_reply_status(reply_for(result).status),
        result is Err ==> reply_for(result).body is Empty,
        reply_for(result).status == 201 <==> (result matches Ok(OutcomeView::Created(_))),
        reply_for(result).status == 200 <==> (result matches Ok(OutcomeView::Listed(_))) || (result matches Ok(
            OutcomeView::Found(_),
        )),
{
}

/// A request that has its reply keeps it, whatever is reported afterwards.
pub proof fn lemma_reply_is_final(reply: ReplyView, event: EventView)
    ensures
        step(ExchangeView::Responding { reply }, event) == (ExchangeView::Responding { reply }),
{
}

/// Every request has its reply after two events at the latest, and every
/// event that is no step forward ends it at once: nothing is tried again.
pub proof fn lemma_answered_in_two(exchange: ExchangeView, first: EventView, second: EventView)
    ensures
        step(step(exchange, first), second) is Responding,
        exchange is Acquiring && !(first is Acquired) ==> step(exchange, first) is Responding,
        exchange is Dispatching ==> step(exchange, first) is Responding,
{
}

/// A request that finds the pool exhausted is answered with 503, and one
/// whose worker fails with 500, both without a body.
pub proof fn lemma_resource_failures(statement: StatementView)
    ensures
        step(ExchangeView::Acquiring { statement }, EventView::Exhausted) == (ExchangeView::Responding {
            reply: ReplyView { status: 503, body: BodyView::Empty },
        }),
        step(ExchangeView::Dispatching { statement }, EventView::WorkerFailed) == (ExchangeView::Responding {
            reply: ReplyView { status: 500, body: BodyView::Empty },
        }),
{
}

/// The reply to a listing that reached its worker is 200 with a list of
/// notes, whatever the store answered, unless the answer was a count.
pub proof fn lemma_list_reply(answer: AnswerView)
    ensures
        !(answer is Affected) ==> ({
            &&& step(
                step(begun(Ok(StatementView::Newest { limit: LIST_LIMIT })), EventView::Acquired),
                EventView::Answered(answer),
            ) matches ExchangeView::Responding { reply }
            &&& reply.status == 200
            &&& reply.body matches BodyView::Notes(notes)
            &&& notes.len() <= LIST_LIMIT
        }),
{
}

/// The reply to a lookup: 400 where the path is no identifier; otherwise,
/// once the store has answered with rows, 200 with the note of the first row
/// where there is one and 204 where there is none.
pub proof fn lemma_get_reply(id: Result<u128, Failure>, rows: Seq<NoteDBView>)
    ensures
        id == Err::<u128, Failure>(Failure::BadRequest) ==> begun(lookup(id)) == (ExchangeView::Responding {
            reply: ReplyView { status: 400, body: BodyView::Empty },
        }),
        id is Ok ==> step(
            step(begun(lookup(id)), EventView::Acquired),
            EventView::Answered(AnswerView::Rows(rows)),
        ) == (ExchangeView::Responding {
            reply: if rows.len() > 0 {
                ReplyView { status: 200, body: BodyView::Note(note_of(rows[0])) }
            } else {
                ReplyView { status: 204, body: BodyView::Empty }
            },
        }),
{
}

/// The reply to a deletion that the store carried out is 204, whether or
/// not a row was there to delete.
pub proof fn lemma_delete_reply(id: u128, count: usize)
    ensures
        step(
            step(begun(removal(Ok(id))), EventView::Acquired),
            EventView::Answered(AnswerView::Affected(count)),
        ) == (ExchangeView::Responding { reply: ReplyView { status: 204, body: BodyView::Empty } }),
{
}

/// The reply to a creation whose row the store inserted is 201 with the
/// note of that row.
pub proof fn lemma_create_reply(row: NoteDBView, count: usize)
    requires
        count > 0,
    ensures
        step(
            step(begun(Ok(StatementView::Insert { row })), EventView::Acquired),
            EventView::Answered(AnswerView::Affected(count)),
        ) == (ExchangeView::Responding {
            reply: ReplyView { status: 201, body: BodyView::Note(note_of(row)) },
        }),
{
}

/// Where a request that runs `statement` stands once the pool has given a
/// connection and the store has given `answer`.
pub open spec fn served(statement: StatementView, answer: AnswerView) -> ExchangeView {
    step(step(begun(Ok(statement)), EventView::Acquired), EventView::Answered(answer))
}

/// The life of a note, with a store that answers every statement: its
/// creation is answered with 201 and the note as stored; a lookup under its
/// identifier with 200 and the same note; its deletion with 204; and a
/// lookup after that with 204 and no body.
pub proof fn lemma_note_lifecycle(
    row: NoteDBView,
    tables: Seq<Table>,
    inserted: AnswerView,
    selected: AnswerView,
    removed: AnswerView,
    reselected: AnswerView,
)
    requires
        tables.len() == 5,
        table_wf(tables[0]),
        runs(tables[0], StatementView::Insert { row }, inserted, tables[1]),
        runs(tables[1], StatementView::ById { id: row.id }, selected, tables[2]),
        runs(tables[2], StatementView::Remove { id: row.id }, removed, tables[3]),
        runs(tables[3], StatementView::ById { id: row.id }, reselected, tables[4]),
        !(inserted is Failed),
        !(selected is Failed),
        !(removed is Failed),
        !(reselected is Failed),
    ensures
        served(StatementView::Insert { row }, inserted) == (ExchangeView::Responding {
            reply: ReplyView { status: 201, body: BodyView::Note(note_of(row)) },
        }),
        served(StatementView::ById { id: row.id }, selected) == (ExchangeView::Responding {
            reply: ReplyView { status: 200, body: BodyView::Note(note_of(row)) },
        }),
        served(StatementView::Remove { id: row.id }, removed) == (ExchangeView::Responding {
            reply: ReplyView { status: 204, body: BodyView::Empty },
        }),
        served(StatementView::ById { id: row.id }, reselected) == (ExchangeView::Responding {
            reply: ReplyView { status: 204, body: BodyView::Empty },
        }),
        tables[4] == tables[0],
{
    assert(tables[1] == tables[0].insert(row.id, row));
    assert(rows_by_id(tables[2], row.id) == seq![row]);
    assert(tables[4] =~= tables[0]);
}

} // verus!
