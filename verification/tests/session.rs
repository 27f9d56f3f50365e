use graph_notes::cli::app::{AppAction, AppError, AppSession, Args, Output};
use graph_notes::db::connection::{DatabaseError, PoolError};
use graph_notes::db::links::{Link, LinkServiceError, LinkType};
use graph_notes::db::notes::{Note, NoteServiceError};

fn timestamp() -> chrono::NaiveDateTime {
    chrono::NaiveDate::from_ymd_opt(2024, 5, 17).unwrap().and_hms_opt(9, 30, 0).unwrap()
}

/// A note store held in memory, standing in for the database in these runs.
#[derive(Default)]
struct Store {
    notes: Vec<Note>,
    links: Vec<Link>,
    next_id: i64,
    config_exists: bool,
    written_config: Option<String>,
    requests: usize,
}

fn command_of(args: &[&str]) -> Args {
    let matches = Args::command()
        .try_get_matches_from(args.iter().map(|s| s.to_string()).collect::<Vec<String>>())
        .unwrap();
    Args::from_matches(&matches).unwrap()
}

fn run(store: &mut Store, args: &[&str]) -> Result<Output, AppError> {
    let (mut session, mut action) = AppSession::start(command_of(args).command);
    loop {
        store.requests += 1;
        match action {
            AppAction::CreateNote(n) => {
                let outcome = match n.validate() {
                    Err(e) => Err(e),
                    Ok(()) if store.notes.iter().any(|m| m.title == n.title) => {
                        Err(NoteServiceError::Database(DatabaseError {
                            message: "UNIQUE constraint failed: notes.title".into(),
                        }))
                    }
                    Ok(()) => {
                        store.next_id += 1;
                        let note = Note {
                            id: store.next_id,
                            title: n.title,
                            content: n.content,
                            metadata: n.metadata,
                            created_at: timestamp(),
                        };
                        store.notes.push(note.clone_for_test());
                        Ok(note)
                    }
                };
                (session, action) = session.note_result(outcome);
            }
            AppAction::GetNote(id) => {
                let outcome = match store.notes.iter().find(|m| m.id == id) {
                    Some(m) => Ok(m.clone_for_test()),
                    None => Err(NoteServiceError::NotFound),
                };
                (session, action) = session.note_result(outcome);
            }
            AppAction::UpdateNote(n) => {
                let outcome = match store.notes.iter_mut().find(|m| m.id == n.id) {
                    Some(m) => {
                        *m = n.clone_for_test();
                        Ok(n)
                    }
                    None => Err(NoteServiceError::NotFound),
                };
                (session, action) = session.note_result(outcome);
            }
            AppAction::DeleteNote(id) => {
                let before = store.notes.len();
                store.notes.retain(|m| m.id != id);
                store.links.retain(|l| l.from_note_id != id && l.to_note_id != id);
                let outcome = if store.notes.len() == before {
                    Err(NoteServiceError::NotFound)
                } else {
                    Ok(())
                };
                (session, action) = session.deletion_result(outcome);
            }
            AppAction::CreateLink(l) => {
                let known = |id: i64| store.notes.iter().any(|m| m.id == id);
                let outcome = if known(l.from_note_id) && known(l.to_note_id) {
                    let link = Link {
                        from_note_id: l.from_note_id,
                        to_note_id: l.to_note_id,
                        link_type: l.link_type,
                        created_at: timestamp(),
                    };
                    store.links.push(Link { created_at: timestamp(), ..link });
                    Ok(Link { created_at: timestamp(), ..link })
                } else {
                    Err(LinkServiceError::Database(DatabaseError {
                        message: "FOREIGN KEY constraint failed".into(),
                    }))
                };
                (session, action) = session.link_result(outcome);
            }
            AppAction::CheckConfigFile => {
                let exists = store.config_exists;
                (session, action) = session.config_checked(exists);
            }
            AppAction::WriteDefaultConfig(text) => {
                store.written_config = Some(text);
                store.config_exists = true;
                (session, action) = session.config_written(Ok(()));
            }
            AppAction::Finish(outcome) => return outcome,
        }
    }
}

trait CloneForTest {
    fn clone_for_test(&self) -> Self;
}

impl CloneForTest for Note {
    fn clone_for_test(&self) -> Note {
        Note {
            id: self.id,
            title: self.title.clone(),
            content: self.content.clone(),
            metadata: self.metadata.clone(),
            created_at: self.created_at,
        }
    }
}

#[test]
fn create_command_stores_the_note() {
    let mut store = Store::default();
    let out = run(&mut store, &["graph-notes-cli", "create", "Test Title", "Test Content"]).unwrap();
    assert!(matches!(out, Output::Note(ref n) if n.title == "Test Title" && n.content == "Test Content"));
    assert_eq!(store.notes.len(), 1);
    assert_eq!(store.notes[0].metadata, serde_json::Value::Null);
}

#[test]
fn create_command_with_metadata() {
    let mut store = Store::default();
    run(
        &mut store,
        &["graph-notes-cli", "create", "Meta", "Content", "--metadata", "{\"tag\":\"unit\",\"priority\":1}"],
    )
    .unwrap();
    let expected: serde_json::Value = serde_json::from_str("{\"priority\":1,\"tag\":\"unit\"}").unwrap();
    assert_eq!(store.notes[0].metadata, expected);
}

#[test]
fn create_command_rejects_metadata_that_is_not_json() {
    let mut store = Store::default();
    let out = run(&mut store, &["graph-notes-cli", "create", "T", "C", "--metadata", "{tags: rust"]);
    assert!(matches!(out, Err(AppError::AppSerializationError(_))));
    assert!(store.notes.is_empty());
    assert_eq!(store.requests, 1, "nothing is asked of the store");
}

#[test]
fn create_command_reports_validation_errors() {
    let mut store = Store::default();
    let out = run(&mut store, &["graph-notes-cli", "create", " ", "C"]);
    assert!(matches!(
        out,
        Err(AppError::AppNoteError(NoteServiceError::Validation(ref m))) if m == "Title cannot be empty"
    ));
}

#[test]
fn update_command_keeps_id_and_time() {
    let mut store = Store::default();
    run(&mut store, &["graph-notes-cli", "create", "Original Title", "Original Content", "--metadata", "[1]"])
        .unwrap();
    let id = store.notes[0].id.to_string();
    let out = run(&mut store, &["graph-notes-cli", "update", &id, "Updated Title", "Updated Content"])
        .unwrap();
    match out {
        Output::Note(n) => {
            assert_eq!(n.id, store.notes[0].id);
            assert_eq!(n.created_at, timestamp());
        }
        other => panic!("unexpected {:?}", other),
    }
    assert_eq!(store.notes[0].title, "Updated Title");
    assert_eq!(store.notes[0].content, "Updated Content");
    assert_eq!(store.notes[0].metadata, serde_json::from_str::<serde_json::Value>("[1]").unwrap());
    run(&mut store, &["graph-notes-cli", "update", &id, "T2", "C2", "--metadata", "{\"a\":true}"]).unwrap();
    assert_eq!(
        store.notes[0].metadata,
        serde_json::from_str::<serde_json::Value>("{\"a\":true}").unwrap()
    );
}

#[test]
fn update_command_reads_before_it_checks_metadata() {
    let mut store = Store::default();
    let out = run(&mut store, &["graph-notes-cli", "update", "999", "T", "C", "--metadata", "not json"]);
    assert!(matches!(out, Err(AppError::AppNoteError(NoteServiceError::NotFound))));
    run(&mut store, &["graph-notes-cli", "create", "A", "B"]).unwrap();
    let id = store.notes[0].id.to_string();
    let out = run(&mut store, &["graph-notes-cli", "update", &id, "T", "C", "--metadata", "not json"]);
    assert!(matches!(out, Err(AppError::AppSerializationError(_))));
    assert_eq!(store.notes[0].title, "A");
}

#[test]
fn read_and_delete_commands() {
    let mut store = Store::default();
    run(&mut store, &["graph-notes-cli", "create", "Read Title", "Read Content"]).unwrap();
    let id = store.notes[0].id;
    let out = run(&mut store, &["graph-notes-cli", "read", &id.to_string()]).unwrap();
    assert!(matches!(out, Output::Note(ref n) if n.title == "Read Title"));
    let out = run(&mut store, &["graph-notes-cli", "delete", &id.to_string()]).unwrap();
    assert!(matches!(out, Output::NoteDeleted(d) if d == id));
    assert!(store.notes.is_empty());
    let out = run(&mut store, &["graph-notes-cli", "delete", &id.to_string()]);
    assert!(matches!(out, Err(AppError::AppNoteError(NoteServiceError::NotFound))));
    let out = run(&mut store, &["graph-notes-cli", "read", &id.to_string()]);
    assert!(matches!(out, Err(AppError::AppNoteError(NoteServiceError::NotFound))));
}

#[test]
fn link_command_for_each_type_and_for_missing_notes() {
    for (name, expected) in [
        ("related", LinkType::Related),
        ("reference", LinkType::Reference),
        ("parent", LinkType::Parent),
        ("child", LinkType::Child),
    ] {
        let mut store = Store::default();
        run(&mut store, &["graph-notes-cli", "create", "From Note", "from content"]).unwrap();
        run(&mut store, &["graph-notes-cli", "create", "To Note", "to content"]).unwrap();
        let (from, to) = (store.notes[0].id, store.notes[1].id);
        let out = run(&mut store, &["graph-notes-cli", "link", &from.to_string(), &to.to_string(), name])
            .unwrap();
        assert!(matches!(out, Output::Link(ref l) if l.from_note_id == from && l.to_note_id == to && l.link_type == expected));
        assert_eq!(store.links.len(), 1);
    }
    let mut store = Store::default();
    run(&mut store, &["graph-notes-cli", "create", "Only Note", "content"]).unwrap();
    let valid = store.notes[0].id.to_string();
    let out = run(&mut store, &["graph-notes-cli", "link", &valid, "9999", "reference"]);
    assert!(matches!(out, Err(AppError::AppLinkError(_))));
    assert!(store.links.is_empty());
}

#[test]
fn init_config_writes_the_default_once() {
    let mut store = Store::default();
    let out = run(&mut store, &["graph-notes-cli", "init-config"]).unwrap();
    assert!(matches!(out, Output::ConfigCreated));
    assert_eq!(
        store.written_config.as_deref(),
        Some("\ndb_url = \"sqlite://notes.db\"\nlog_level = \"info\"\n")
    );
    let out = run(&mut store, &["graph-notes-cli", "init-config"]).unwrap();
    assert!(matches!(out, Output::ConfigAlreadyExists));
}

#[test]
fn unavailable_store_ends_the_command() {
    let (session, action) = AppSession::start(command_of(&["graph-notes-cli", "read", "1"]).command);
    assert!(matches!(action, AppAction::GetNote(1)));
    let (_, action) = session.service_unavailable(PoolError::ConnectionNotInitialized());
    assert!(matches!(
        action,
        AppAction::Finish(Err(AppError::AppPoolError(PoolError::ConnectionNotInitialized())))
    ));
}

#[test]
fn update_command_rejects_a_blank_title() {
    let mut store = Store::default();
    run(&mut store, &["graph-notes-cli", "create", "Kept", "Body"]).unwrap();
    let id = store.notes[0].id.to_string();
    let requests_before = store.requests;
    let out = run(&mut store, &["graph-notes-cli", "update", &id, "   ", "New body"]);
    assert!(matches!(
        out,
        Err(AppError::AppNoteError(NoteServiceError::Validation(ref m))) if m == "Title cannot be empty"
    ));
    assert_eq!(store.notes[0].title, "Kept");
    assert_eq!(store.notes[0].content, "Body");
    assert_eq!(store.requests - requests_before, 2, "the note is read, nothing is stored");
}

#[test]
fn update_command_stores_a_blank_content() {
    let mut store = Store::default();
    run(&mut store, &["graph-notes-cli", "create", "Kept", "Body"]).unwrap();
    let id = store.notes[0].id.to_string();
    run(&mut store, &["graph-notes-cli", "update", &id, "New title", " "]).unwrap();
    assert_eq!(store.notes[0].title, "New title");
    assert_eq!(store.notes[0].content, " ");
}
