use graph_notes::db::connection::DatabaseError;
use graph_notes::db::links::{
    created_link, deleted_link, listed_links, updated_link, BatchAction, Link, LinkServiceError,
    LinkType, NewLink, NotesWithLinkType, RelationshipBatch,
};
use graph_notes::db::notes::{NewNote, Note, NoteServiceError};

fn timestamp() -> chrono::NaiveDateTime {
    chrono::NaiveDate::from_ymd_opt(2024, 5, 17).unwrap().and_hms_opt(9, 30, 0).unwrap()
}

fn new_note(title: &str, content: &str) -> NewNote {
    NewNote {
        title: title.to_string(),
        content: content.to_string(),
        metadata: serde_json::Value::Object(serde_json::Map::new()),
    }
}

fn stored(id: i64, n: &NewNote) -> Note {
    Note {
        id,
        title: n.title.clone(),
        content: n.content.clone(),
        metadata: n.metadata.clone(),
        created_at: timestamp(),
    }
}

fn stored_link(l: &NewLink) -> Link {
    Link {
        from_note_id: l.from_note_id,
        to_note_id: l.to_note_id,
        link_type: l.link_type,
        created_at: timestamp(),
    }
}

#[test]
fn link_type_names_round_trip() {
    for (t, name) in [
        (LinkType::Reference, "reference"),
        (LinkType::Related, "related"),
        (LinkType::Parent, "parent"),
        (LinkType::Child, "child"),
    ] {
        assert_eq!(t.as_str(), name);
        assert_eq!(LinkType::parse(name), Some(t));
    }
    assert_eq!(LinkType::parse("Reference"), None);
    assert_eq!(LinkType::parse(""), None);
    assert_eq!(LinkType::parse("children"), None);
}

#[test]
fn link_outcomes() {
    let new_link = NewLink { from_note_id: 1, to_note_id: 2, link_type: LinkType::Reference };
    let created = created_link(Ok(stored_link(&new_link))).unwrap();
    assert_eq!(created.from_note_id, 1);
    assert_eq!(created.to_note_id, 2);
    assert_eq!(created.link_type, LinkType::Reference);
    assert!(matches!(
        created_link(Err(DatabaseError { message: "FOREIGN KEY constraint failed".into() })),
        Err(LinkServiceError::Database(_))
    ));
    assert!(matches!(updated_link(Ok(None)), Err(LinkServiceError::NotFound)));
    let related = NewLink { link_type: LinkType::Related, ..new_link };
    assert_eq!(updated_link(Ok(Some(stored_link(&related)))).unwrap().link_type, LinkType::Related);
    assert!(matches!(deleted_link(Ok(0)), Err(LinkServiceError::NotFound)));
    assert!(deleted_link(Ok(1)).is_ok());
    assert_eq!(listed_links(Ok(vec![stored_link(&new_link)])).unwrap().len(), 1);
    assert!(matches!(
        listed_links(Err(DatabaseError { message: "locked".into() })),
        Err(LinkServiceError::Database(_))
    ));
}

/// Runs the creation of linked pairs against a store that numbers notes from
/// `first_id` and fails the `fail_at`-th request (counting from 0), if any.
/// Returns the requests made and the final outcome.
fn run_batch(
    items: Vec<NotesWithLinkType>,
    first_id: i64,
    fail_at: Option<usize>,
) -> (Vec<String>, Result<Vec<Link>, LinkServiceError>) {
    let mut requests = Vec::new();
    let mut next_id = first_id;
    let (mut batch, mut action) = RelationshipBatch::start(items);
    loop {
        let failing = fail_at == Some(requests.len());
        match action {
            BatchAction::CreateNote(n) => {
                requests.push(format!("note {}", n.title));
                let outcome = if failing {
                    Err(NoteServiceError::Validation("Title cannot be empty".into()))
                } else {
                    next_id += 1;
                    Ok(stored(next_id - 1, &n))
                };
                (batch, action) = batch.note_created(outcome);
            }
            BatchAction::CreateLink(l) => {
                requests.push(format!(
                    "link {} {} {}",
                    l.from_note_id,
                    l.to_note_id,
                    l.link_type.as_str()
                ));
                let outcome = if failing {
                    Err(LinkServiceError::Database(DatabaseError { message: "UNIQUE".into() }))
                } else {
                    Ok(stored_link(&l))
                };
                (batch, action) = batch.link_created(outcome);
            }
            BatchAction::Commit => {
                requests.push("commit".to_string());
                let outcome = if failing {
                    Err(DatabaseError { message: "busy".into() })
                } else {
                    Ok(())
                };
                (batch, action) = batch.committed(outcome);
            }
            BatchAction::Finish(result) => return (requests, result),
        }
    }
}

#[test]
fn batch_creates_notes_then_link_per_pair_in_order() {
    let items = vec![
        NotesWithLinkType::create(new_note("A1", "C1"), new_note("A2", "C2"), LinkType::Reference),
        NotesWithLinkType::create(new_note("B1", "D1"), new_note("B2", "D2"), LinkType::Related),
    ];
    let (requests, result) = run_batch(items, 1, None);
    assert_eq!(
        requests,
        vec![
            "note A1",
            "note A2",
            "link 1 2 reference",
            "note B1",
            "note B2",
            "link 3 4 related",
            "commit"
        ]
    );
    let links = result.unwrap();
    assert_eq!(links.len(), 2);
    assert_eq!(links[0].link_type, LinkType::Reference);
    assert_eq!(links[1].link_type, LinkType::Related);
    assert_eq!((links[1].from_note_id, links[1].to_note_id), (3, 4));
}

#[test]
fn batch_of_nothing_only_commits() {
    let (requests, result) = run_batch(vec![], 1, None);
    assert_eq!(requests, vec!["commit"]);
    assert!(result.unwrap().is_empty());
}

#[test]
fn batch_stops_at_first_failing_note() {
    let items = vec![
        NotesWithLinkType::create(new_note("ok1", "ok1"), new_note("ok2", "ok2"), LinkType::Reference),
        NotesWithLinkType::create(new_note("", "fail"), new_note("fail2", "fail2"), LinkType::Related),
    ];
    let (requests, result) = run_batch(items, 1, Some(3));
    assert_eq!(requests, vec!["note ok1", "note ok2", "link 1 2 reference", "note "]);
    assert!(matches!(
        result,
        Err(LinkServiceError::NoteError(NoteServiceError::Validation(_)))
    ));
}

#[test]
fn batch_stops_at_failing_link_or_commit() {
    let items = || {
        vec![NotesWithLinkType::create(
            new_note("Title A", "Content A"),
            new_note("Title B", "Content B"),
            LinkType::Parent,
        )]
    };
    let (requests, result) = run_batch(items(), 10, Some(2));
    assert_eq!(requests, vec!["note Title A", "note Title B", "link 10 11 parent"]);
    assert!(matches!(result, Err(LinkServiceError::Database(_))));
    let (requests, result) = run_batch(items(), 10, Some(3));
    assert_eq!(requests.len(), 4);
    assert!(matches!(result, Err(LinkServiceError::Database(e)) if e.message == "busy"));
}

#[test]
fn link_rows_are_read_by_type_name() {
    let link = Link::from_row(4, 5, "parent", timestamp()).unwrap();
    assert_eq!((link.from_note_id, link.to_note_id, link.link_type), (4, 5, LinkType::Parent));
    assert_eq!(link.created_at, timestamp());
    let err = Link::from_row(4, 5, "sibling", timestamp()).unwrap_err();
    assert_eq!(err.message, "unknown link type: sibling");
}
