use graph_notes::cli::app::AppError;
use graph_notes::db::connection::{DatabaseError, PoolError};
use graph_notes::db::links::LinkServiceError;
use graph_notes::db::notes::{
    created_note, deleted_note, fetched_note, listed_notes, note_to_insert, note_to_store,
    validation_error, NewNote, Note, NoteServiceError,
};

fn timestamp() -> chrono::NaiveDateTime {
    chrono::NaiveDate::from_ymd_opt(2024, 5, 17).unwrap().and_hms_opt(9, 30, 0).unwrap()
}

fn note(id: i64, title: &str, content: &str) -> Note {
    Note {
        id,
        title: title.to_string(),
        content: content.to_string(),
        metadata: serde_json::Value::Null,
        created_at: timestamp(),
    }
}

fn db_error(message: &str) -> DatabaseError {
    DatabaseError { message: message.to_string() }
}

#[test]
fn test_new_note_validation() {
    let cases: [(&str, &str, Option<&str>); 4] = [
        ("", "", Some("Title cannot be empty")),
        ("Title", "", Some("Content cannot be empty")),
        ("", "Content", Some("Title cannot be empty")),
        ("Title", "Content", None),
    ];
    for (title, content, expected_error) in cases {
        let new_note = NewNote {
            title: title.to_string(),
            content: content.to_string(),
            metadata: serde_json::Value::Null,
        };
        let result = new_note.validate();
        match expected_error {
            Some(expected_error_msg) => match result {
                Err(NoteServiceError::Validation(actual_error_msg)) => {
                    assert_eq!(actual_error_msg, expected_error_msg)
                }
                other => panic!(
                    "Expected validation error msg: {:?}, got: {:?}",
                    expected_error, other
                ),
            },
            None => assert!(result.is_ok(), "Expected Ok(), got: {:?}", result),
        }
    }
}

#[test]
fn validation_treats_white_space_as_empty() {
    let blank_title = NewNote {
        title: " \t\n\u{3000}".to_string(),
        content: "content".to_string(),
        metadata: serde_json::Value::Null,
    };
    assert!(matches!(
        blank_title.validate(),
        Err(NoteServiceError::Validation(m)) if m == "Title cannot be empty"
    ));
    let blank_content = NewNote {
        title: "  padded title  ".to_string(),
        content: "\u{a0}\r\n".to_string(),
        metadata: serde_json::Value::Null,
    };
    assert!(matches!(
        blank_content.validate(),
        Err(NoteServiceError::Validation(m)) if m == "Content cannot be empty"
    ));
    let fine = NewNote {
        title: " x ".to_string(),
        content: "\u{2003}y".to_string(),
        metadata: serde_json::Value::Null,
    };
    assert!(fine.validate().is_ok());
}

#[test]
fn created_note_reports_the_row_or_the_database_error() {
    let stored = created_note(Ok(note(1, "Note Title", "note content"))).unwrap();
    assert_eq!(stored, note(1, "Note Title", "note content"));
    assert!(matches!(
        created_note(Err(db_error("UNIQUE constraint failed: notes.title"))),
        Err(NoteServiceError::Database(e)) if e.message == "UNIQUE constraint failed: notes.title"
    ));
}

#[test]
fn fetched_note_not_found_when_no_row() {
    assert_eq!(fetched_note(Ok(Some(note(3, "a", "b")))).unwrap(), note(3, "a", "b"));
    assert!(matches!(fetched_note(Ok(None)), Err(NoteServiceError::NotFound)));
    assert!(matches!(fetched_note(Err(db_error("disk I/O error"))), Err(NoteServiceError::Database(_))));
}

#[test]
fn listed_notes_keeps_the_rows() {
    let rows = vec![note(2, "b", "b"), note(1, "a", "a")];
    let listed = listed_notes(Ok(rows)).unwrap();
    assert_eq!(listed.len(), 2);
    assert_eq!(listed[0].id, 2);
    assert_eq!(listed[1].id, 1);
    assert!(matches!(listed_notes(Err(db_error("locked"))), Err(NoteServiceError::Database(_))));
}

#[test]
fn deleted_note_not_found_when_nothing_deleted() {
    assert!(matches!(deleted_note(Ok(0)), Err(NoteServiceError::NotFound)));
    assert!(deleted_note(Ok(1)).is_ok());
    assert!(matches!(deleted_note(Err(db_error("locked"))), Err(NoteServiceError::Database(_))));
}

#[test]
fn notes_to_insert_and_store_are_validated() {
    let ok = note_to_insert(NewNote {
        title: "T".into(),
        content: "C".into(),
        metadata: serde_json::Value::Bool(true),
    })
    .unwrap();
    assert_eq!(ok.title, "T");
    assert_eq!(ok.metadata, serde_json::Value::Bool(true));
    assert!(matches!(
        note_to_insert(NewNote { title: "T".into(), content: "  ".into(), metadata: serde_json::Value::Null }),
        Err(NoteServiceError::Validation(m)) if m == "Content cannot be empty"
    ));
    assert_eq!(note_to_store(note(5, "Updated Title", "x")).unwrap(), note(5, "Updated Title", "x"));
    assert!(matches!(
        note_to_store(note(5, "\t", "x")),
        Err(NoteServiceError::Validation(m)) if m == "Title cannot be empty"
    ));
    assert_eq!(note_to_store(note(6, "Title", "   ")).unwrap(), note(6, "Title", "   "));
    assert!(validation_error("a", "b").is_none());
    assert!(matches!(validation_error("", ""), Some(NoteServiceError::Validation(m)) if m == "Title cannot be empty"));
}

#[test]
fn error_messages() {
    assert_eq!(NoteServiceError::NotFound.message(), "Note not found");
    assert_eq!(
        NoteServiceError::Validation("Title cannot be empty".into()).message(),
        "Validation error: Title cannot be empty"
    );
    assert_eq!(
        NoteServiceError::Database(db_error("locked")).message(),
        "Database error: locked"
    );
    assert_eq!(
        PoolError::ConnectionNotInitialized().message(),
        "Connection not initialized"
    );
    assert_eq!(
        LinkServiceError::NoteError(NoteServiceError::NotFound).message(),
        "Note service error: Note not found"
    );
    assert_eq!(
        AppError::AppLinkError(LinkServiceError::NotFound).message(),
        "Application link error: Link not found"
    );
    assert_eq!(
        AppError::AppPoolError(PoolError::MigrationFailed("no table".into())).message(),
        "Application pool error: Migration run failed, error: no table"
    );
    let json_error = serde_json::from_str::<serde_json::Value>("{").unwrap_err();
    let shown = json_error.to_string();
    assert_eq!(
        AppError::AppSerializationError(json_error).message(),
        format!("Serialization error: {}", shown)
    );
}
