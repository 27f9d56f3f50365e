//! Notes: their validation and how the outcome of each note query is reported.
use vstd::prelude::*;

use crate::db::connection::{pool_error_text, DatabaseError, PoolError};
use crate::text::{is_blank, spec_is_blank, spec_is_whitespace};

verus! {

/// Represents a note stored in the database.
#[derive(Debug, PartialEq)]
pub struct Note {
    /// Unique identifier for the note (auto-incremented).
    pub id: i64,
    /// Title of the note (must be unique and non-empty).
    pub title: String,
    /// Content/body of the note.
    pub content: String,
    /// Arbitrary metadata stored as JSON.
    pub metadata: serde_json::Value,
    /// Timestamp when the note was created.
    pub created_at: chrono::NaiveDateTime,
}

/// Data required to create a new note.
#[derive(Debug, PartialEq)]
pub struct NewNote {
    /// Title of the note (must be unique and non-empty).
    pub title: String,
    /// Content/body of the note.
    pub content: String,
    /// Arbitrary metadata stored as JSON.
    pub metadata: serde_json::Value,
}

/// Errors that can occur when working with notes.
#[derive(Debug)]
pub enum NoteServiceError {
    /// Error from the database layer.
    Database(DatabaseError),
    /// Error from migration or pool setup.
    Migrations(PoolError),
    /// Error during (de)serialization of metadata.
    Serde(serde_json::Error),
    /// Returned when a note is not found in the database.
    NotFound,
    /// Returned when validation of input data fails.
    Validation(String),
}

/// Whether `text` is the message shown for the note error `e`. That of a
/// `serde_json` error ends with that error's own text (its `Display`).
pub open spec fn describes_note_error(e: NoteServiceError, text: Seq<char>) -> bool {
    match e {
        NoteServiceError::Database(d) => text == "Database error: "@ + d.message@,
        NoteServiceError::Migrations(p) => text == "Migration error: "@ + pool_error_text(p),
        NoteServiceError::Serde(j) => exists|shown: String|
            #![trigger vstd::string::to_string_from_display_ensures::<serde_json::Error>(&j, shown)]
            vstd::string::to_string_from_display_ensures::<serde_json::Error>(&j, shown) && text
                == "Serialization error: "@ + shown@,
        NoteServiceError::NotFound => text == "Note not found"@,
        NoteServiceError::Validation(m) => text == "Validation error: "@ + m@,
    }
}

impl NoteServiceError {
    /// The message shown for this error.
    pub fn message(&self) -> (res: String)
        ensures
            describes_note_error(*self, res@),
    {
        match self {
            NoteServiceError::Database(d) => String::from_str("Database error: ").concat(
                d.message.as_str(),
            ),
            NoteServiceError::Migrations(p) => String::from_str("Migration error: ").concat(
                p.message().as_str(),
            ),
            NoteServiceError::Serde(j) => {
                let shown = j.to_string();
                String::from_str("Serialization error: ").concat(shown.as_str())
            },
            NoteServiceError::NotFound => String::from_str("Note not found"),
            NoteServiceError::Validation(m) => String::from_str("Validation error: ").concat(
                m.as_str(),
            ),
        }
    }
}

/// The message of the validation error for a blank title.
pub open spec fn title_empty_message() -> Seq<char> {
    seq!['T', 'i', 't', 'l', 'e', ' ', 'c', 'a', 'n', 'n', 'o', 't', ' ', 'b', 'e', ' ', 'e', 'm', 'p', 't', 'y']
}

/// The message of the validation error for a blank content.
pub open spec fn content_empty_message() -> Seq<char> {
    seq!['C', 'o', 'n', 't', 'e', 'n', 't', ' ', 'c', 'a', 'n', 'n', 'o', 't', ' ', 'b', 'e', ' ', 'e', 'm', 'p', 't', 'y']
}

/// The validation message a new note with this title and content gets, if any:
/// the title is checked first, then the content.
pub open spec fn validation_failure(title: Seq<char>, content: Seq<char>) -> Option<Seq<char>> {
    if spec_is_blank(title) {
        Some(title_empty_message())
    } else if spec_is_blank(content) {
        Some(content_empty_message())
    } else {
        None
    }
}

/// A title holding a letter, digit or other character that is not white space
/// (such as `买菜`) never gets the blank-title error; the note then fails only
/// for a blank content.
pub proof fn lemma_title_with_text_is_valid(title: Seq<char>, content: Seq<char>, i: int)
    requires
        0 <= i < title.len(),
        !spec_is_whitespace(title[i]),
    ensures
        validation_failure(title, content) == if spec_is_blank(content) {
            Some(content_empty_message())
        } else {
            None::<Seq<char>>
        },
{
}

/// The validation error for a note with this title and content, if any: a
/// blank title, then a blank content (nothing but white space).
pub fn validation_error(title: &str, content: &str) -> (res: Option<NoteServiceError>)
    ensures
        match validation_failure(title@, content@) {
            None => res is None,
            Some(msg) => res matches Some(NoteServiceError::Validation(m)) && m@ == msg,
        },
{
    if is_blank(title) {
        proof {
            reveal_strlit("Title cannot be empty");
        }
        return Some(NoteServiceError::Validation(String::from_str("Title cannot be empty")));
    }
    if is_blank(content) {
        proof {
            reveal_strlit("Content cannot be empty");
        }
        return Some(NoteServiceError::Validation(String::from_str("Content cannot be empty")));
    }
    None
}

impl NewNote {
    /// Validates the fields of the new note.
    ///
    /// Returns an error if the title or content is empty (nothing but white space).
    pub fn validate(&self) -> (res: Result<(), NoteServiceError>)
        ensures
            match validation_failure(self.title@, self.content@) {
                None => res is Ok,
                Some(msg) => res matches Err(NoteServiceError::Validation(m)) && m@ == msg,
            },
    {
        match validation_error(self.title.as_str(), self.content.as_str()) {
            Some(e) => Err(e),
            None => Ok(()),
        }
    }
}

/// What a note creation inserts: the new note itself when it is valid,
/// the validation error otherwise (and then nothing is inserted).
pub fn note_to_insert(new_note: NewNote) -> (res: Result<NewNote, NoteServiceError>)
    ensures
        match validation_failure(new_note.title@, new_note.content@) {
            None => res == Ok::<NewNote, NoteServiceError>(new_note),
            Some(msg) => res matches Err(NoteServiceError::Validation(m)) && m@ == msg,
        },
{
    match validation_error(new_note.title.as_str(), new_note.content.as_str()) {
        Some(e) => Err(e),
        None => Ok(new_note),
    }
}

/// What a note update stores: the note itself when its title is not blank
/// (a note's title must be non-empty), the validation error for a blank title
/// otherwise (and then nothing is stored). The content may be anything.
pub fn note_to_store(note: Note) -> (res: Result<Note, NoteServiceError>)
    ensures
        spec_is_blank(note.title@) ==> (res matches Err(NoteServiceError::Validation(m)) && m@
            == title_empty_message()),
        !spec_is_blank(note.title@) ==> res == Ok::<Note, NoteServiceError>(note),
{
    if is_blank(note.title.as_str()) {
        proof {
            reveal_strlit("Title cannot be empty");
        }
        return Err(NoteServiceError::Validation(String::from_str("Title cannot be empty")));
    }
    Ok(note)
}

/// The outcome of inserting a note: the stored row, or the database's error.
pub fn created_note(inserted: Result<Note, DatabaseError>) -> (res: Result<Note, NoteServiceError>)
    ensures
        match inserted {
            Ok(n) => res == Ok::<Note, NoteServiceError>(n),
            Err(e) => res matches Err(NoteServiceError::Database(d)) && d == e,
        },
{
    match inserted {
        Ok(n) => Ok(n),
        Err(e) => Err(NoteServiceError::Database(e)),
    }
}

/// The outcome of a query for one note by id (a read, or an update that
/// returns the changed row): the row if there is one, `NotFound` if there is none.
pub fn fetched_note(fetched: Result<Option<Note>, DatabaseError>) -> (res: Result<Note, NoteServiceError>)
    ensures
        match fetched {
            Ok(Some(n)) => res == Ok::<Note, NoteServiceError>(n),
            Ok(None) => res matches Err(NoteServiceError::NotFound),
            Err(e) => res matches Err(NoteServiceError::Database(d)) && d == e,
        },
{
    match fetched {
        Ok(Some(n)) => Ok(n),
        Ok(None) => Err(NoteServiceError::NotFound),
        Err(e) => Err(NoteServiceError::Database(e)),
    }
}

/// The outcome of a listing of notes.
pub fn listed_notes(listed: Result<Vec<Note>, DatabaseError>) -> (res: Result<Vec<Note>, NoteServiceError>)
    ensures
        match listed {
            Ok(v) => res matches Ok(w) && w@ == v@,
            Err(e) => res matches Err(NoteServiceError::Database(d)) && d == e,
        },
{
    match listed {
        Ok(v) => Ok(v),
        Err(e) => Err(NoteServiceError::Database(e)),
    }
}

/// The outcome of deleting a note by id, from the number of rows deleted:
/// `NotFound` when no row was deleted.
pub fn deleted_note(affected: Result<u64, DatabaseError>) -> (res: Result<(), NoteServiceError>)
    ensures
        match affected {
            Ok(n) => (n == 0 ==> res matches Err(NoteServiceError::NotFound)) && (n != 0 ==> res is Ok),
            Err(e) => res matches Err(NoteServiceError::Database(d)) && d == e,
        },
{
    match affected {
        Ok(n) => if n == 0 {
            Err(NoteServiceError::NotFound)
        } else {
            Ok(())
        },
        Err(e) => Err(NoteServiceError::Database(e)),
    }
}

} // verus!
