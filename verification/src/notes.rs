//! Notes in their three forms, and the mapper between the domain form and
//! the stored form.
//!
//! Instants are counted in microseconds since the Unix epoch, UTC, which is
//! the resolution the store keeps. A stored instant carries no time zone and
//! is read as UTC, so both forms hold the same number.

use vstd::prelude::*;
use crate::clock::now_micros;
use crate::ident::{canonical_text, fresh_id, id_text, is_random_id};

verus! {

/// A note as callers see it.
#[derive(Debug, Clone, PartialEq, Eq)]
pub struct Note {
    /// The identifier in its canonical text.
    pub id: String,
    /// The instant of creation.
    pub timestamp: i64,
    /// The text of the note.
    pub content: String,
}

/// What a [`Note`] holds.
pub struct NoteView {
    pub id: Seq<char>,
    pub timestamp: i64,
    pub content: Seq<char>,
}

impl View for Note {
    type V = NoteView;

    open spec fn view(&self) -> NoteView {
        NoteView { id: self.id@, timestamp: self.timestamp, content: self.content@ }
    }
}

/// A note as the store keeps it: one row of the notes table.
#[derive(Debug, Clone, PartialEq, Eq)]
pub struct NoteDB {
    /// The identifier, the table's key.
    pub id: u128,
    /// The instant of creation, without a time zone.
    pub timestamp: i64,
    /// The text of the note.
    pub content: String,
}

/// What a [`NoteDB`] holds.
pub struct NoteDBView {
    pub id: u128,
    pub timestamp: i64,
    pub content: Seq<char>,
}

impl View for NoteDB {
    type V = NoteDBView;

    open spec fn view(&self) -> NoteDBView {
        NoteDBView { id: self.id, timestamp: self.timestamp, content: self.content@ }
    }
}

/// The body of a request to create a note.
#[derive(Debug, Clone, PartialEq, Eq)]
pub struct NoteRequest {
    /// The text of the note. It is required: a request without it is
    /// malformed.
    pub content: Option<String>,
}

impl View for NoteRequest {
    type V = Option<Seq<char>>;

    open spec fn view(&self) -> Option<Seq<char>> {
        match self.content {
            Some(content) => Some(content@),
            None => None,
        }
    }
}

/// A list of results in the order in which the store gave them.
#[derive(Debug, Clone, PartialEq, Eq)]
pub struct Response<T> {
    pub results: Vec<T>,
}

/// The notes that a listing returns, newest first.
pub type Notes = Response<Note>;

impl View for Response<Note> {
    type V = Seq<NoteView>;

    open spec fn view(&self) -> Seq<NoteView> {
        notes_view(self.results@)
    }
}

/// What a sequence of notes holds.
pub open spec fn notes_view(notes: Seq<Note>) -> Seq<NoteView> {
    notes.map_values(|note: Note| note@)
}

/// What a sequence of rows holds.
pub open spec fn rows_view(rows: Seq<NoteDB>) -> Seq<NoteDBView> {
    rows.map_values(|row: NoteDB| row@)
}

/// The row that stores `note` under the identifier `id` with the instant
/// `timestamp`. Neither the note's own identifier nor its own instant is
/// kept: both are decided when the row is written.
pub open spec fn row_of(note: NoteView, id: u128, timestamp: i64) -> NoteDBView {
    NoteDBView { id, timestamp, content: note.content }
}

/// The note that a row stands for: the identifier in its canonical text, the
/// instant read as UTC, the content as it is.
pub open spec fn note_of(row: NoteDBView) -> NoteView {
    NoteView { id: canonical_text(row.id), timestamp: row.timestamp, content: row.content }
}

impl Note {
    /// A note with the given identifier, instant and content.
    pub fn from_parts(id: u128, timestamp: i64, content: String) -> (note: Note)
        ensures
            note@ == (NoteView { id: canonical_text(id), timestamp, content: content@ }),
    {
        Note { id: id_text(id), timestamp, content }
    }

    /// A note with the given content, a newly drawn identifier and the
    /// current instant.
    pub fn new(content: String) -> (note: Note)
        ensures
            note@.content == content@,
            exists|id: u128| is_random_id(id) && note@.id == canonical_text(id),
    {
        let id: u128 = fresh_id();
        let timestamp: i64 = now_micros();
        Note::from_parts(id, timestamp, content)
    }

    /// The row that stores this note under `id` with the instant
    /// `timestamp`.
    pub fn to_row(&self, id: u128, timestamp: i64) -> (row: NoteDB)
        ensures
            row@ == row_of(self@, id, timestamp),
    {
        NoteDB { id, timestamp, content: self.content.clone() }
    }

    /// The row to insert for this note. Every call draws a new identifier
    /// and reads the clock anew; the note's own identifier and instant are
    /// not carried over.
    pub fn to_note_db(&self) -> (row: NoteDB)
        ensures
            row@ == row_of(self@, row.id, row.timestamp),
            is_random_id(row.id),
    {
        let id: u128 = fresh_id();
        let timestamp: i64 = now_micros();
        self.to_row(id, timestamp)
    }
}

impl NoteRequest {
    /// The note that this request asks for, if it carries a content.
    pub fn to_note(&self) -> (note: Option<Note>)
        ensures
            self@ is None <==> note is None,
            note matches Some(n) ==> {
                &&& Some(n@.content) == self@
                &&& exists|id: u128| is_random_id(id) && n@.id == canonical_text(id)
            },
    {
        match &self.content {
            Some(content) => Some(Note::new(content.clone())),
            None => None,
        }
    }
}

impl NoteDB {
    /// The note that this row stands for.
    pub fn to_note(&self) -> (note: Note)
        ensures
            note@ == note_of(self@),
    {
        Note::from_parts(self.id, self.timestamp, self.content.clone())
    }
}

/// Mapping a note to a row and the row back to a note keeps the content
/// exactly, whatever it is; the identifier and the instant of the result are
/// those of the row, not those of the note that went in.
pub proof fn lemma_round_trip(note: NoteView, id: u128, timestamp: i64)
    ensures
        note_of(row_of(note, id, timestamp)).content == note.content,
        note_of(row_of(note, id, timestamp)).id == canonical_text(id),
        note_of(row_of(note, id, timestamp)).timestamp == timestamp,
{
}

} // verus!
