//! The repository: the four operations on notes, each read from the answer
//! that the store gave to the operation's statement.

use vstd::prelude::*;
use crate::failure::Failure;
use crate::ident::{canonical_text, is_random_id};
use crate::notes::{note_of, row_of, rows_view, Note, NoteDB, NoteDBView, NoteView, Notes, Response};
use crate::storage::{
    distinct_instants, is_newest_first, rows_by_id, runs, table_wf, Answer, AnswerView, Statement,
    StatementView, Table,
};

verus! {

/// What an operation of the repository returns when it succeeds.
#[derive(Debug, Clone, PartialEq, Eq)]
pub enum Outcome {
    /// The notes listed, newest first.
    Listed(Notes),
    /// The note found.
    Found(Note),
    /// The note created, as it was stored.
    Created(Note),
    /// The deletion was carried out.
    Deleted,
}

/// What an [`Outcome`] holds.
pub enum OutcomeView {
    Listed(Seq<NoteView>),
    Found(NoteView),
    Created(NoteView),
    Deleted,
}

impl View for Outcome {
    type V = OutcomeView;

    open spec fn view(&self) -> OutcomeView {
        match self {
            Outcome::Listed(notes) => OutcomeView::Listed(notes@),
            Outcome::Found(note) => OutcomeView::Found(note@),
            Outcome::Created(note) => OutcomeView::Created(note@),
            Outcome::Deleted => OutcomeView::Deleted,
        }
    }
}

/// What the rows of a selection hold, or the failure in their place.
pub open spec fn loaded_view(loaded: Result<Vec<NoteDB>, Failure>) -> Result<Seq<NoteDBView>, Failure> {
    match loaded {
        Ok(rows) => Ok(rows_view(rows@)),
        Err(failure) => Err(failure),
    }
}

/// What a note returned by the repository holds, or the failure in its
/// place.
pub open spec fn note_view(result: Result<Note, Failure>) -> Result<NoteView, Failure> {
    match result {
        Ok(note) => Ok(note@),
        Err(failure) => Err(failure),
    }
}

/// What a result of the repository holds.
pub open spec fn outcome_view(result: Result<Outcome, Failure>) -> Result<OutcomeView, Failure> {
    match result {
        Ok(outcome) => Ok(outcome@),
        Err(failure) => Err(failure),
    }
}

/// The first rows of `rows`, as many as `total_notes` allows.
pub open spec fn capped(total_notes: i64, rows: Seq<NoteDBView>) -> Seq<NoteDBView> {
    if total_notes <= 0 {
        Seq::empty()
    } else if rows.len() <= total_notes {
        rows
    } else {
        rows.take(total_notes as int)
    }
}

/// The notes that a listing under the limit `total_notes` returns for what
/// the selection gave: the notes of its first rows, in their order, and none
/// where the selection failed.
pub open spec fn listed(total_notes: i64, loaded: Result<Seq<NoteDBView>, Failure>) -> Seq<NoteView> {
    match loaded {
        Ok(rows) => capped(total_notes, rows).map_values(|row: NoteDBView| note_of(row)),
        Err(_) => Seq::empty(),
    }
}

/// What a lookup returns for what the selection gave: the note of the first
/// row, [`Failure::NotFound`] where there is no row, and the selection's own
/// failure where it failed.
pub open spec fn found(loaded: Result<Seq<NoteDBView>, Failure>) -> Result<NoteView, Failure> {
    match loaded {
        Ok(rows) => if rows.len() > 0 {
            Ok(note_of(rows[0]))
        } else {
            Err(Failure::NotFound)
        },
        Err(failure) => Err(failure),
    }
}

/// What a creation returns for what the insertion of `row` gave: the note of
/// the row where it was stored, [`Failure::StorageFailure`] where the store
/// reports that it stored nothing, and the insertion's own failure where it
/// failed.
pub open spec fn created(row: NoteDBView, inserted: Result<usize, Failure>) -> Result<NoteView, Failure> {
    match inserted {
        Ok(count) => if count > 0 {
            Ok(note_of(row))
        } else {
            Err(Failure::StorageFailure)
        },
        Err(failure) => Err(failure),
    }
}

/// What a deletion returns for what the statement gave: success, however
/// many rows were taken away, and the statement's own failure where it
/// failed.
pub open spec fn deleted(removed: Result<usize, Failure>) -> Result<(), Failure> {
    match removed {
        Ok(_) => Ok(()),
        Err(failure) => Err(failure),
    }
}

/// The statement that creates `note`: the insertion of the row that the
/// mapper makes of it, under a newly drawn identifier and with the current
/// instant.
pub fn insertion(note: &Note) -> (statement: Statement)
    ensures
        statement@ matches StatementView::Insert { row } && row == row_of(note@, row.id, row.timestamp)
            && is_random_id(row.id),
{
    Statement::Insert { row: note.to_note_db() }
}

/// Lists notes from what the selection of the latest rows gave. The result
/// keeps the order of the rows and never holds more than `total_notes`
/// notes. A selection that failed gives an empty list, not an error.
pub fn list_notes(total_notes: i64, loaded: Result<Vec<NoteDB>, Failure>) -> (result: Result<
    Notes,
    Failure,
>)
    ensures
        result matches Ok(notes) && notes@ == listed(total_notes, loaded_view(loaded)),
        result matches Ok(notes) && (notes@.len() == 0 || notes@.len() <= total_notes),
{
    let rows: Vec<NoteDB> = match loaded {
        Ok(rows) => rows,
        Err(_) => Vec::new(),
    };
    let kept: usize = if total_notes <= 0 {
        0
    } else if rows.len() as u64 <= total_notes as u64 {
        rows.len()
    } else {
        total_notes as usize
    };
    let mut results: Vec<Note> = Vec::new();
    let mut i: usize = 0;
    while i < kept
        invariant
            i <= kept <= rows.len(),
            results.len() == i,
            forall|k: int| 0 <= k < i ==> (#[trigger] results[k])@ == note_of(rows[k]@),
        decreases kept - i,
    {
        results.push(rows[i].to_note());
        i += 1;
    }
    let notes = Response { results };
    assert(notes@ =~= listed(total_notes, loaded_view(loaded)));
    Ok(notes)
}

/// Finds a note from what the selection by identifier gave. Where the
/// selection gave several rows, which the table's key rules out, the first
/// one counts.
pub fn find_note(loaded: Result<Vec<NoteDB>, Failure>) -> (result: Result<Note, Failure>)
    ensures
        note_view(result) == found(loaded_view(loaded)),
{
    match loaded {
        Ok(rows) => {
            if rows.len() > 0 {
                Ok(rows[0].to_note())
            } else {
                Err(Failure::NotFound)
            }
        },
        Err(failure) => Err(failure),
    }
}

/// Concludes the creation of a note from what the insertion of `row` gave.
/// The note returned is the one that was stored: its identifier and instant
/// are the row's.
pub fn create_note(row: &NoteDB, inserted: Result<usize, Failure>) -> (result: Result<Note, Failure>)
    ensures
        note_view(result) == created(row@, inserted),
{
    match inserted {
        Ok(count) => {
            if count > 0 {
                Ok(row.to_note())
            } else {
                Err(Failure::StorageFailure)
            }
        },
        Err(failure) => Err(failure),
    }
}

/// Concludes a deletion from what the statement gave. A deletion that found
/// no row to take away has succeeded all the same.
pub fn delete_note(removed: Result<usize, Failure>) -> (result: Result<(), Failure>)
    ensures
        result == deleted(removed),
{
    match removed {
        Ok(_) => Ok(()),
        Err(failure) => Err(failure),
    }
}

/// What the repository makes of the answer to a statement. An answer of the
/// wrong shape, rows for a change or a count for a selection, is a
/// [`Failure::DispatchFailure`].
pub open spec fn concluded(statement: StatementView, answer: AnswerView) -> Result<OutcomeView, Failure> {
    match (statement, answer) {
        (StatementView::Newest { limit }, AnswerView::Rows(rows)) => Ok(
            OutcomeView::Listed(listed(limit, Ok(rows))),
        ),
        (StatementView::Newest { limit }, AnswerView::Failed) => Ok(
            OutcomeView::Listed(listed(limit, Err(Failure::StorageFailure))),
        ),
        (StatementView::ById { id }, AnswerView::Rows(rows)) => match found(Ok(rows)) {
            Ok(note) => Ok(OutcomeView::Found(note)),
            Err(failure) => Err(failure),
        },
        (StatementView::Insert { row }, AnswerView::Affected(count)) => match created(row, Ok(count)) {
            Ok(note) => Ok(OutcomeView::Created(note)),
            Err(failure) => Err(failure),
        },
        (StatementView::Remove { id }, AnswerView::Affected(count)) => Ok(OutcomeView::Deleted),
        (_, AnswerView::Failed) => Err(Failure::StorageFailure),
        (_, _) => Err(Failure::DispatchFailure),
    }
}

/// Reads the answer that the store gave to `statement`.
pub fn conclude(statement: &Statement, answer: Answer) -> (result: Result<Outcome, Failure>)
    ensures
        outcome_view(result) == concluded(statement@, answer@),
{
    match statement {
        Statement::Newest { limit } => match answer {
            Answer::Rows(rows) => match list_notes(*limit, Ok(rows)) {
                Ok(notes) => Ok(Outcome::Listed(notes)),
                Err(failure) => Err(failure),
            },
            Answer::Failed => match list_notes(*limit, Err(Failure::StorageFailure)) {
                Ok(notes) => Ok(Outcome::Listed(notes)),
                Err(failure) => Err(failure),
            },
            Answer::Affected(_) => Err(Failure::DispatchFailure),
        },
        Statement::ById { id } => match answer {
            Answer::Rows(rows) => match find_note(Ok(rows)) {
                Ok(note) => Ok(Outcome::Found(note)),
                Err(failure) => Err(failure),
            },
            Answer::Failed => Err(Failure::StorageFailure),
            Answer::Affected(_) => Err(Failure::DispatchFailure),
        },
        Statement::Insert { row } => match answer {
            Answer::Affected(count) => match create_note(row, Ok(count)) {
                Ok(note) => Ok(Outcome::Created(note)),
                Err(failure) => Err(failure),
            },
            Answer::Failed => Err(Failure::StorageFailure),
            Answer::Rows(_) => Err(Failure::DispatchFailure),
        },
        Statement::Remove { id } => match answer {
            Answer::Affected(count) => match delete_note(Ok(count)) {
                Ok(_) => Ok(Outcome::Deleted),
                Err(failure) => Err(failure),
            },
            Answer::Failed => Err(Failure::StorageFailure),
            Answer::Rows(_) => Err(Failure::DispatchFailure),
        },
    }
}

/// Whether the notes stand strictly in descending order of their instants.
pub open spec fn strictly_newest_first(notes: Seq<NoteView>) -> bool {
    forall|i: int, j: int|
        0 <= i < j < notes.len() ==> (#[trigger] notes[i]).timestamp > (#[trigger] notes[j]).timestamp
}

/// Whatever the store does with a statement, the table stays a table.
pub proof fn lemma_table_stays_wf(before: Table, statement: StatementView, answer: AnswerView, after: Table)
    requires
        table_wf(before),
        runs(before, statement, answer, after),
    ensures
        table_wf(after),
{
}

/// A listing never holds more notes than its limit allows, whatever the
/// store answered.
pub proof fn lemma_listing_within_limit(limit: i64, answer: AnswerView)
    ensures
        concluded(StatementView::Newest { limit }, answer) matches Ok(OutcomeView::Listed(notes))
            ==> notes.len() == 0 || notes.len() <= limit,
{
}

/// A listing of a table succeeds whether or not the store could answer. It
/// holds no more notes than the limit, all of them notes of the table, and
/// leaves out no note that is later than one it holds. Where no two rows of
/// the table have the same instant it stands strictly in descending order of
/// the instants.
pub proof fn lemma_listing_newest_first(before: Table, limit: i64, answer: AnswerView, after: Table)
    requires
        table_wf(before),
        runs(before, StatementView::Newest { limit }, answer, after),
    ensures
        after == before,
        concluded(StatementView::Newest { limit }, answer) matches Ok(OutcomeView::Listed(notes)) && {
            &&& notes.len() == 0 || notes.len() <= limit
            &&& notes.len() <= before.dom().len()
            &&& forall|i: int|
                0 <= i < notes.len() ==> exists|id: u128|
                    before.dom().contains(id) && #[trigger] notes[i] == note_of(#[trigger] before[id])
            &&& forall|id: u128, i: int|
                before.dom().contains(id) && 0 <= i < notes.len() && (forall|j: int|
                    0 <= j < notes.len() ==> (#[trigger] notes[j]).id != canonical_text(id))
                    ==> (#[trigger] before[id]).timestamp <= (#[trigger] notes[i]).timestamp
            &&& distinct_instants(before) ==> strictly_newest_first(notes)
        },
{
    match answer {
        AnswerView::Rows(rows) => {
            assert(is_newest_first(before, limit, rows));
            assert(capped(limit, rows) == rows);
            let notes = listed(limit, Ok(rows));
            assert forall|id: u128, i: int|
                before.dom().contains(id) && 0 <= i < notes.len() && (forall|j: int|
                    0 <= j < notes.len() ==> (#[trigger] notes[j]).id != canonical_text(
                        id,
                    )) implies (#[trigger] before[id]).timestamp <= (#[trigger] notes[i]).timestamp by {
                assert forall|j: int| 0 <= j < rows.len() implies (#[trigger] rows[j]).id != id by {
                    assert(notes[j].id == canonical_text(rows[j].id));
                }
                assert(before[id].timestamp <= rows[i].timestamp);
            }
            assert forall|i: int| 0 <= i < notes.len() implies exists|id: u128|
                before.dom().contains(id) && #[trigger] notes[i] == note_of(#[trigger] before[id]) by {
                let id = rows[i].id;
                assert(before.dom().contains(id) && before[id] == rows[i]);
            }
            if distinct_instants(before) {
                assert forall|i: int, j: int| 0 <= i < j < notes.len() implies (#[trigger] notes[i]).timestamp
                    > (#[trigger] notes[j]).timestamp by {
                    assert(rows[i].id != rows[j].id);
                    assert(before[rows[i].id].timestamp != before[rows[j].id].timestamp);
                    assert(rows[i].timestamp >= rows[j].timestamp);
                }
            }
        },
        _ => {},
    }
}

/// A note that was created is found under its identifier by the lookup that
/// follows, provided the store answers the lookup: the note found has the
/// content that was stored, and the identifier and the instant that the
/// creation returned.
pub proof fn lemma_find_after_create(
    before: Table,
    row: NoteDBView,
    inserted: AnswerView,
    between: Table,
    selected: AnswerView,
    after: Table,
)
    requires
        table_wf(before),
        runs(before, StatementView::Insert { row }, inserted, between),
        concluded(StatementView::Insert { row }, inserted) is Ok,
        runs(between, StatementView::ById { id: row.id }, selected, after),
        !(selected is Failed),
    ensures
        concluded(StatementView::Insert { row }, inserted) == Ok::<OutcomeView, Failure>(
            OutcomeView::Created(note_of(row)),
        ),
        concluded(StatementView::ById { id: row.id }, selected) == Ok::<OutcomeView, Failure>(
            OutcomeView::Found(note_of(row)),
        ),
        note_of(row).content == row.content,
{
    assert(between == before.insert(row.id, row));
    assert(rows_by_id(between, row.id) == seq![row]);
}

/// A lookup under an identifier that the table does not hold fails with
/// [`Failure::NotFound`], provided the store answers.
pub proof fn lemma_find_absent(before: Table, id: u128, selected: AnswerView, after: Table)
    requires
        table_wf(before),
        !before.dom().contains(id),
        runs(before, StatementView::ById { id }, selected, after),
        !(selected is Failed),
    ensures
        concluded(StatementView::ById { id }, selected) == Err::<OutcomeView, Failure>(Failure::NotFound),
        after == before,
{
}

/// A deletion under an identifier that the table does not hold succeeds and
/// leaves the table as it was, provided the store answers.
pub proof fn lemma_delete_absent(before: Table, id: u128, removed: AnswerView, after: Table)
    requires
        table_wf(before),
        !before.dom().contains(id),
        runs(before, StatementView::Remove { id }, removed, after),
        !(removed is Failed),
    ensures
        concluded(StatementView::Remove { id }, removed) == Ok::<OutcomeView, Failure>(OutcomeView::Deleted),
        after == before,
{
    assert(before.remove(id) =~= before);
}

/// Two deletions in a row under one identifier both succeed, provided the
/// store answers them: after the first the note is gone, and the second
/// changes nothing.
pub proof fn lemma_delete_twice(
    before: Table,
    id: u128,
    first: AnswerView,
    between: Table,
    second: AnswerView,
    after: Table,
)
    requires
        table_wf(before),
        runs(before, StatementView::Remove { id }, first, between),
        !(first is Failed),
        runs(between, StatementView::Remove { id }, second, after),
        !(second is Failed),
    ensures
        concluded(StatementView::Remove { id }, first) == Ok::<OutcomeView, Failure>(OutcomeView::Deleted),
        concluded(StatementView::Remove { id }, second) == Ok::<OutcomeView, Failure>(OutcomeView::Deleted),
        !between.dom().contains(id),
        after == between,
{
    assert(between.remove(id) =~= between);
}

/// After a deletion that the store answered, a lookup under the same
/// identifier that the store answers fails with [`Failure::NotFound`].
pub proof fn lemma_find_after_delete(
    before: Table,
    id: u128,
    removed: AnswerView,
    between: Table,
    selected: AnswerView,
    after: Table,
)
    requires
        table_wf(before),
        runs(before, StatementView::Remove { id }, removed, between),
        !(removed is Failed),
        runs(between, StatementView::ById { id }, selected, after),
        !(selected is Failed),
    ensures
        concluded(StatementView::ById { id }, selected) == Err::<OutcomeView, Failure>(Failure::NotFound),
{
}

} // verus!
