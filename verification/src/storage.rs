//! The boundary with the relational store: the statements that the
//! repository issues, the answers that come back, and a model of the notes
//! table that says what each statement means.
//!
//! Nothing here talks to a store. Whoever holds the connection runs the
//! [`Statement`] and reports the [`Answer`].

use vstd::prelude::*;
use crate::notes::{rows_view, NoteDB, NoteDBView};

verus! {

/// One statement against the notes table.
#[derive(Debug, Clone, PartialEq, Eq)]
pub enum Statement {
    /// Select the rows with the latest instants, latest first, and at most
    /// `limit` of them.
    Newest { limit: i64 },
    /// Select the rows whose identifier is `id`.
    ById { id: u128 },
    /// Insert `row`.
    Insert { row: NoteDB },
    /// Delete the rows whose identifier is `id`.
    Remove { id: u128 },
}

/// What a [`Statement`] holds.
pub enum StatementView {
    Newest { limit: i64 },
    ById { id: u128 },
    Insert { row: NoteDBView },
    Remove { id: u128 },
}

impl View for Statement {
    type V = StatementView;

    open spec fn view(&self) -> StatementView {
        match self {
            Statement::Newest { limit } => StatementView::Newest { limit: *limit },
            Statement::ById { id } => StatementView::ById { id: *id },
            Statement::Insert { row } => StatementView::Insert { row: row@ },
            Statement::Remove { id } => StatementView::Remove { id: *id },
        }
    }
}

/// What the store reports for one statement.
#[derive(Debug, Clone, PartialEq, Eq)]
pub enum Answer {
    /// The rows selected, in the order of the result.
    Rows(Vec<NoteDB>),
    /// The number of rows inserted or deleted.
    Affected(usize),
    /// The statement could not be carried out.
    Failed,
}

/// What an [`Answer`] holds.
pub enum AnswerView {
    Rows(Seq<NoteDBView>),
    Affected(usize),
    Failed,
}

impl View for Answer {
    type V = AnswerView;

    open spec fn view(&self) -> AnswerView {
        match self {
            Answer::Rows(rows) => AnswerView::Rows(rows_view(rows@)),
            Answer::Affected(count) => AnswerView::Affected(*count),
            Answer::Failed => AnswerView::Failed,
        }
    }
}

/// The notes table: its rows by their identifier, which is the table's key.
pub type Table = Map<u128, NoteDBView>;

/// A table holds finitely many rows, each under its own identifier.
pub open spec fn table_wf(table: Table) -> bool {
    &&& table.dom().finite()
    &&& forall|id: u128| table.dom().contains(id) ==> (#[trigger] table[id]).id == id
}

/// No two rows of the table have the same instant.
pub open spec fn distinct_instants(table: Table) -> bool {
    forall|a: u128, b: u128|
        table.dom().contains(a) && table.dom().contains(b) && a != b ==> (#[trigger] table[a]).timestamp
            != (#[trigger] table[b]).timestamp
}

/// Whether `rows` is a selection of the latest rows of `table`, latest
/// first, under the limit `limit`: as many rows as the limit allows, each of
/// them in the table and none of them twice, in descending order of their
/// instants, and no row left out that is later than one selected. Where two
/// rows have the same instant the store may give either first.
pub open spec fn is_newest_first(table: Table, limit: i64, rows: Seq<NoteDBView>) -> bool {
    &&& limit >= 0
    &&& rows.len() == if table.dom().len() <= limit {
        table.dom().len()
    } else {
        limit as nat
    }
    &&& forall|i: int|
        0 <= i < rows.len() ==> table.dom().contains((#[trigger] rows[i]).id) && table[rows[i].id]
            == rows[i]
    &&& forall|i: int, j: int|
        0 <= i < j < rows.len() ==> (#[trigger] rows[i]).id != (#[trigger] rows[j]).id
    &&& forall|i: int, j: int|
        0 <= i < j < rows.len() ==> (#[trigger] rows[i]).timestamp >= (#[trigger] rows[j]).timestamp
    &&& forall|id: u128, i: int|
        table.dom().contains(id) && 0 <= i < rows.len() && (forall|j: int|
            0 <= j < rows.len() ==> (#[trigger] rows[j]).id != id) ==> (#[trigger] table[id]).timestamp
            <= (#[trigger] rows[i]).timestamp
}

/// The rows of `table` whose identifier is `id`: one, or none.
pub open spec fn rows_by_id(table: Table, id: u128) -> Seq<NoteDBView> {
    if table.dom().contains(id) {
        seq![table[id]]
    } else {
        Seq::empty()
    }
}

/// How many rows of `table` have the identifier `id`.
pub open spec fn count_by_id(table: Table, id: u128) -> usize {
    if table.dom().contains(id) {
        1
    } else {
        0
    }
}

/// What the store does with one statement: `runs(before, statement, answer,
/// after)` holds where running `statement` on the table `before` may report
/// `answer` and leave the table `after`.
///
/// Any statement may fail, and then the table is as it was. A selection
/// leaves the table as it was. An insertion adds its row where the table has
/// none under that identifier, and fails where it has one. A deletion takes
/// the row away where there is one, and reports how many it took.
pub open spec fn runs(
    before: Table,
    statement: StatementView,
    answer: AnswerView,
    after: Table,
) -> bool {
    ||| answer is Failed && after == before
    ||| match statement {
        StatementView::Newest { limit } => {
            &&& after == before
            &&& answer matches AnswerView::Rows(rows)
            &&& is_newest_first(before, limit, rows)
        },
        StatementView::ById { id } => {
            &&& after == before
            &&& answer == AnswerView::Rows(rows_by_id(before, id))
        },
        StatementView::Insert { row } => {
            &&& !before.dom().contains(row.id)
            &&& after == before.insert(row.id, row)
            &&& answer == AnswerView::Affected(1)
        },
        StatementView::Remove { id } => {
            &&& after == before.remove(id)
            &&& answer == AnswerView::Affected(count_by_id(before, id))
        },
    }
}

} // verus!
