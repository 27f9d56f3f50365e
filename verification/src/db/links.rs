//! Typed links between notes, and the all-or-nothing creation of linked note pairs.
use vstd::prelude::*;

use std::collections::VecDeque;

use crate::db::connection::{pool_error_text, DatabaseError, PoolError};
use crate::db::notes::{describes_note_error, NewNote, Note, NoteServiceError};
use crate::text::same_text;

verus! {

/// Errors that can occur when working with links.
#[derive(Debug)]
pub enum LinkServiceError {
    /// Error from the database layer.
    Database(DatabaseError),
    /// Returned when a link is not found in the database.
    NotFound,
    /// Error from migration or pool setup.
    Migrations(PoolError),
    /// Error from creating one of the linked notes.
    NoteError(NoteServiceError),
}

/// Whether `text` is `prefix` followed by the message shown for the note error `e`.
pub open spec fn prefixes_note_error(prefix: Seq<char>, e: NoteServiceError, text: Seq<char>) -> bool {
    &&& prefix.len() <= text.len()
    &&& text.take(prefix.len() as int) == prefix
    &&& describes_note_error(e, text.skip(prefix.len() as int))
}

/// Whether `text` is the message shown for the link error `e`.
pub open spec fn describes_link_error(e: LinkServiceError, text: Seq<char>) -> bool {
    match e {
        LinkServiceError::Database(d) => text == "Database error: "@ + d.message@,
        LinkServiceError::NotFound => text == "Link not found"@,
        LinkServiceError::Migrations(p) => text == "Migration error: "@ + pool_error_text(p),
        LinkServiceError::NoteError(n) => prefixes_note_error("Note service error: "@, n, text),
    }
}

impl LinkServiceError {
    /// The message shown for this error.
    pub fn message(&self) -> (res: String)
        ensures
            describes_link_error(*self, res@),
    {
        match self {
            LinkServiceError::Database(d) => String::from_str("Database error: ").concat(
                d.message.as_str(),
            ),
            LinkServiceError::NotFound => String::from_str("Link not found"),
            LinkServiceError::Migrations(p) => String::from_str("Migration error: ").concat(
                p.message().as_str(),
            ),
            LinkServiceError::NoteError(n) => {
                let prefix = String::from_str("Note service error: ");
                let inner = n.message();
                let res = prefix.concat(inner.as_str());
                assert(res@.take("Note service error: "@.len() as int) =~= "Note service error: "@);
                assert(res@.skip("Note service error: "@.len() as int) =~= inner@);
                res
            },
        }
    }
}

/// The kind of relationship a link expresses.
#[derive(Debug, Clone, Copy, PartialEq, Eq, Structural)]
pub enum LinkType {
    /// `reference`
    Reference,
    /// `related`
    Related,
    /// `parent`
    Parent,
    /// `child`
    Child,
}

/// The name under which a link type is stored, serialized and given on the command line.
pub open spec fn link_type_name(t: LinkType) -> Seq<char> {
    match t {
        LinkType::Reference => seq!['r', 'e', 'f', 'e', 'r', 'e', 'n', 'c', 'e'],
        LinkType::Related => seq!['r', 'e', 'l', 'a', 't', 'e', 'd'],
        LinkType::Parent => seq!['p', 'a', 'r', 'e', 'n', 't'],
        LinkType::Child => seq!['c', 'h', 'i', 'l', 'd'],
    }
}

/// The link type whose name is `name`, if any.
pub open spec fn link_type_named(name: Seq<char>) -> Option<LinkType> {
    if name == link_type_name(LinkType::Reference) {
        Some(LinkType::Reference)
    } else if name == link_type_name(LinkType::Related) {
        Some(LinkType::Related)
    } else if name == link_type_name(LinkType::Parent) {
        Some(LinkType::Parent)
    } else if name == link_type_name(LinkType::Child) {
        Some(LinkType::Child)
    } else {
        None
    }
}

impl LinkType {
    /// The name of this link type: `reference`, `related`, `parent` or `child`.
    pub fn as_str(&self) -> (res: &'static str)
        ensures
            res@ == link_type_name(*self),
    {
        match self {
            LinkType::Reference => {
                let s = "reference";
                proof {
                    reveal_strlit("reference");
                    assert(s@ =~= link_type_name(*self));
                }
                s
            },
            LinkType::Related => {
                let s = "related";
                proof {
                    reveal_strlit("related");
                    assert(s@ =~= link_type_name(*self));
                }
                s
            },
            LinkType::Parent => {
                let s = "parent";
                proof {
                    reveal_strlit("parent");
                    assert(s@ =~= link_type_name(*self));
                }
                s
            },
            LinkType::Child => {
                let s = "child";
                proof {
                    reveal_strlit("child");
                    assert(s@ =~= link_type_name(*self));
                }
                s
            },
        }
    }

    /// The link type with the given name; `None` for any other text.
    pub fn parse(name: &str) -> (res: Option<LinkType>)
        ensures
            res == link_type_named(name@),
    {
        if same_text(name, LinkType::Reference.as_str()) {
            Some(LinkType::Reference)
        } else if same_text(name, LinkType::Related.as_str()) {
            Some(LinkType::Related)
        } else if same_text(name, LinkType::Parent.as_str()) {
            Some(LinkType::Parent)
        } else if same_text(name, LinkType::Child.as_str()) {
            Some(LinkType::Child)
        } else {
            None
        }
    }
}

/// Each link type is read back from its own name.
pub proof fn lemma_link_type_name_round_trip(t: LinkType)
    ensures
        link_type_named(link_type_name(t)) == Some(t),
{
    // The four names have four different lengths.
    assert(link_type_name(LinkType::Reference).len() == 9);
    assert(link_type_name(LinkType::Related).len() == 7);
    assert(link_type_name(LinkType::Parent).len() == 6);
    assert(link_type_name(LinkType::Child).len() == 5);
}

/// Distinct link types have distinct names.
pub proof fn lemma_link_type_names_distinct(a: LinkType, b: LinkType)
    ensures
        a != b ==> link_type_name(a) != link_type_name(b),
{
    lemma_link_type_name_round_trip(a);
    lemma_link_type_name_round_trip(b);
}

/// A link between two notes.
#[derive(Debug, PartialEq)]
pub struct Link {
    /// The note the link starts from.
    pub from_note_id: i64,
    /// The note the link points to.
    pub to_note_id: i64,
    /// The kind of relationship.
    pub link_type: LinkType,
    /// Timestamp when the link was created.
    pub created_at: chrono::NaiveDateTime,
}

impl Link {
    /// A link as stored in a row, whose link type is kept by its name: an
    /// unknown name is reported as a database error.
    pub fn from_row(
        from_note_id: i64,
        to_note_id: i64,
        link_type: &str,
        created_at: chrono::NaiveDateTime,
    ) -> (res: Result<Link, DatabaseError>)
        ensures
            match link_type_named(link_type@) {
                Some(t) => res == Ok::<Link, DatabaseError>(
                    Link { from_note_id, to_note_id, link_type: t, created_at },
                ),
                None => res is Err,
            },
    {
        match LinkType::parse(link_type) {
            Some(t) => Ok(Link { from_note_id, to_note_id, link_type: t, created_at }),
            None => Err(
                DatabaseError { message: String::from_str("unknown link type: ").concat(link_type) },
            ),
        }
    }
}

/// Data required to create a new link.
#[derive(Debug, PartialEq, Eq, Clone, Copy, Structural)]
pub struct NewLink {
    /// The note the link starts from.
    pub from_note_id: i64,
    /// The note the link points to.
    pub to_note_id: i64,
    /// The kind of relationship.
    pub link_type: LinkType,
}

/// Represents a pair of new notes and the type of link to create between them.
#[derive(Debug)]
pub struct NotesWithLinkType {
    from_note: NewNote,
    to_note: NewNote,
    link_type: LinkType,
}

impl NotesWithLinkType {
    /// The source note to be created.
    pub closed spec fn source(self) -> NewNote {
        self.from_note
    }

    /// The target note to be created.
    pub closed spec fn target(self) -> NewNote {
        self.to_note
    }

    /// The type of link to establish between the notes.
    pub closed spec fn kind(self) -> LinkType {
        self.link_type
    }

    /// Constructs a new `NotesWithLinkType` value.
    ///
    /// # Arguments
    ///
    /// * `from_note` - The source note to be created.
    /// * `to_note` - The target note to be created.
    /// * `link_type` - The type of link to establish between the notes.
    pub fn create(from_note: NewNote, to_note: NewNote, link_type: LinkType) -> (res: Self)
        ensures
            res.source() == from_note,
            res.target() == to_note,
            res.kind() == link_type,
    {
        NotesWithLinkType { from_note, to_note, link_type }
    }
}

/// The outcome of inserting a link: the stored row, or the database's error
/// (a duplicate link, or a note that does not exist).
pub fn created_link(inserted: Result<Link, DatabaseError>) -> (res: Result<Link, LinkServiceError>)
    ensures
        match inserted {
            Ok(l) => res == Ok::<Link, LinkServiceError>(l),
            Err(e) => res matches Err(LinkServiceError::Database(d)) && d == e,
        },
{
    match inserted {
        Ok(l) => Ok(l),
        Err(e) => Err(LinkServiceError::Database(e)),
    }
}

/// The outcome of a listing of links.
pub fn listed_links(listed: Result<Vec<Link>, DatabaseError>) -> (res: Result<Vec<Link>, LinkServiceError>)
    ensures
        match listed {
            Ok(v) => res matches Ok(w) && w@ == v@,
            Err(e) => res matches Err(LinkServiceError::Database(d)) && d == e,
        },
{
    match listed {
        Ok(v) => Ok(v),
        Err(e) => Err(LinkServiceError::Database(e)),
    }
}

/// The outcome of changing the type of the link between two notes: the changed
/// row, or `NotFound` when there is no link between them.
pub fn updated_link(updated: Result<Option<Link>, DatabaseError>) -> (res: Result<Link, LinkServiceError>)
    ensures
        match updated {
            Ok(Some(l)) => res == Ok::<Link, LinkServiceError>(l),
            Ok(None) => res matches Err(LinkServiceError::NotFound),
            Err(e) => res matches Err(LinkServiceError::Database(d)) && d == e,
        },
{
    match updated {
        Ok(Some(l)) => Ok(l),
        Ok(None) => Err(LinkServiceError::NotFound),
        Err(e) => Err(LinkServiceError::Database(e)),
    }
}

/// The outcome of deleting the link between two notes, from the number of rows
/// deleted: `NotFound` when no row was deleted.
pub fn deleted_link(affected: Result<u64, DatabaseError>) -> (res: Result<(), LinkServiceError>)
    ensures
        match affected {
            Ok(n) => (n == 0 ==> res matches Err(LinkServiceError::NotFound)) && (n != 0 ==> res is Ok),
            Err(e) => res matches Err(LinkServiceError::Database(d)) && d == e,
        },
{
    match affected {
        Ok(n) => if n == 0 {
            Err(LinkServiceError::NotFound)
        } else {
            Ok(())
        },
        Err(e) => Err(LinkServiceError::Database(e)),
    }
}

/// What the creation of linked note pairs asks of the database next.
#[derive(Debug)]
pub enum BatchAction {
    /// Insert this note inside the transaction and report the stored row.
    CreateNote(NewNote),
    /// Insert this link inside the transaction and report the stored row.
    CreateLink(NewLink),
    /// Commit the transaction and report whether that succeeded.
    Commit,
    /// The work is over: on `Ok`, the transaction was committed and these are
    /// the created links; on `Err`, the transaction is rolled back.
    Finish(Result<Vec<Link>, LinkServiceError>),
}

/// Where the creation of linked note pairs stands, as the contracts see it.
pub enum BatchStage {
    /// Waiting for the source note of the current pair.
    AwaitSource,
    /// Waiting for the target note of the current pair; the source note got this id.
    AwaitTarget(i64),
    /// Waiting for the link of the current pair.
    AwaitLink,
    /// Every pair is linked; waiting for the commit.
    AwaitCommit,
    /// Finished, successfully or not.
    Finished,
}

enum Phase {
    AwaitSource { to_note: NewNote, link_type: LinkType },
    AwaitTarget { from_note_id: i64, link_type: LinkType },
    AwaitLink,
    AwaitCommit,
    Finished,
}

/// The creation of several pairs of new notes, each pair linked, inside one
/// transaction: for each pair in order, its source note, its target note, then
/// the link from the one to the other; then the commit. The first failure ends
/// the work and the transaction is rolled back, so either every note and link
/// is stored or none is.
pub struct RelationshipBatch {
    items: Ghost<Seq<NotesWithLinkType>>,
    position: usize,
    queue: VecDeque<NotesWithLinkType>,
    phase: Phase,
    links: Vec<Link>,
}

impl RelationshipBatch {
    /// The pairs to create, in the order given.
    pub closed spec fn items(self) -> Seq<NotesWithLinkType> {
        self.items@
    }

    /// The index of the pair being created (the number of pairs done, once all are).
    pub closed spec fn position(self) -> int {
        self.position as int
    }

    /// The links created so far, in the order of their pairs.
    pub closed spec fn links(self) -> Seq<Link> {
        self.links@
    }

    /// Where the work stands.
    pub closed spec fn stage(self) -> BatchStage {
        match self.phase {
            Phase::AwaitSource { .. } => BatchStage::AwaitSource,
            Phase::AwaitTarget { from_note_id, .. } => BatchStage::AwaitTarget(from_note_id),
            Phase::AwaitLink => BatchStage::AwaitLink,
            Phase::AwaitCommit => BatchStage::AwaitCommit,
            Phase::Finished => BatchStage::Finished,
        }
    }

    /// How many notes have been created: two per finished pair, and those of
    /// the pair under way.
    pub open spec fn notes_created(self) -> int {
        match self.stage() {
            BatchStage::AwaitTarget(_) => 2 * self.position() + 1,
            BatchStage::AwaitLink => 2 * self.position() + 2,
            _ => 2 * self.position(),
        }
    }

    /// The invariant of the work: one link per finished pair, the pairs still to
    /// start queued in order, and the current pair's remaining data kept.
    pub closed spec fn wf(self) -> bool {
        let n = self.items@.len();
        &&& n <= usize::MAX
        &&& match self.phase {
            Phase::AwaitCommit => {
                &&& self.position == n
                &&& self.links@.len() == n
                &&& self.queue@.len() == 0
            },
            Phase::Finished => true,
            _ => {
                &&& self.position < n
                &&& self.links@.len() == self.position
                &&& self.queue@ =~= self.items@.subrange(self.position + 1, n as int)
                &&& match self.phase {
                    Phase::AwaitSource { to_note, link_type } => {
                        &&& to_note == self.items@[self.position as int].target()
                        &&& link_type == self.items@[self.position as int].kind()
                    },
                    Phase::AwaitTarget { link_type, .. } => link_type
                        == self.items@[self.position as int].kind(),
                    _ => true,
                }
            },
        }
    }

    /// Starts the creation of the given pairs: the first request is the source
    /// note of the first pair, or the commit when there is no pair.
    pub fn start(items: Vec<NotesWithLinkType>) -> (res: (RelationshipBatch, BatchAction))
        ensures
            res.0.wf(),
            res.0.items() == items@,
            res.0.links() == Seq::<Link>::empty(),
            res.0.position() == 0,
            items@.len() == 0 ==> res.0.stage() is AwaitCommit && res.1 is Commit,
            items@.len() > 0 ==> res.0.stage() is AwaitSource && res.1 == BatchAction::CreateNote(
                items@[0].source(),
            ),
    {
        let ghost all = items@;
        let total: usize = items.len();
        assert(all.len() == total);
        let mut items = items;
        let mut queue: VecDeque<NotesWithLinkType> = VecDeque::new();
        while items.len() > 0
            invariant
                all.len() <= usize::MAX,
                items@.len() <= all.len(),
                items@ =~= all.subrange(0, items@.len() as int),
                queue@ =~= all.subrange(items@.len() as int, all.len() as int),
            decreases items@.len(),
        {
            let item = items.pop().unwrap();
            queue.push_front(item);
        }
        match queue.pop_front() {
            None => {
                let batch = RelationshipBatch {
                    items: Ghost(all),
                    position: 0,
                    queue,
                    phase: Phase::AwaitCommit,
                    links: Vec::new(),
                };
                (batch, BatchAction::Commit)
            },
            Some(first) => {
                let NotesWithLinkType { from_note, to_note, link_type } = first;
                let batch = RelationshipBatch {
                    items: Ghost(all),
                    position: 0,
                    queue,
                    phase: Phase::AwaitSource { to_note, link_type },
                    links: Vec::new(),
                };
                (batch, BatchAction::CreateNote(from_note))
            },
        }
    }

    /// Takes in the outcome of a note insertion. After the source note, the
    /// target note is requested; after the target note, the link between the
    /// ids the two notes got, with the pair's link type. A failure ends the work
    /// with that error.
    pub fn note_created(self, created: Result<Note, NoteServiceError>) -> (res: (
        RelationshipBatch,
        BatchAction,
    ))
        requires
            self.wf(),
            self.stage() is AwaitSource || self.stage() is AwaitTarget,
        ensures
            res.0.wf(),
            res.0.items() == self.items(),
            res.0.links() == self.links(),
            res.0.position() == self.position(),
            created is Ok ==> res.0.notes_created() == self.notes_created() + 1,
            match created {
                Err(e) => res.0.stage() is Finished && res.1 == BatchAction::Finish(
                    Err(LinkServiceError::NoteError(e)),
                ),
                Ok(n) => match self.stage() {
                    BatchStage::AwaitSource => res.0.stage() == BatchStage::AwaitTarget(n.id)
                        && res.1 == BatchAction::CreateNote(
                        self.items()[self.position()].target(),
                    ),
                    BatchStage::AwaitTarget(from_note_id) => res.0.stage() is AwaitLink && res.1
                        == BatchAction::CreateLink(
                        NewLink {
                            from_note_id,
                            to_note_id: n.id,
                            link_type: self.items()[self.position()].kind(),
                        },
                    ),
                    _ => false,
                },
            },
    {
        let RelationshipBatch { items, position, queue, phase, links } = self;
        match created {
            Err(e) => {
                let batch = RelationshipBatch { items, position, queue, phase: Phase::Finished, links };
                (batch, BatchAction::Finish(Err(LinkServiceError::NoteError(e))))
            },
            Ok(note) => match phase {
                Phase::AwaitSource { to_note, link_type } => {
                    let batch = RelationshipBatch {
                        items,
                        position,
                        queue,
                        phase: Phase::AwaitTarget { from_note_id: note.id, link_type },
                        links,
                    };
                    (batch, BatchAction::CreateNote(to_note))
                },
                Phase::AwaitTarget { from_note_id, link_type } => {
                    let new_link = NewLink { from_note_id, to_note_id: note.id, link_type };
                    let batch = RelationshipBatch { items, position, queue, phase: Phase::AwaitLink, links };
                    (batch, BatchAction::CreateLink(new_link))
                },
                _ => {
                    let batch = RelationshipBatch { items, position, queue, phase: Phase::Finished, links };
                    (batch, BatchAction::Commit)
                },
            },
        }
    }

    /// Takes in the outcome of a link insertion. The link joins the created
    /// links; the next pair's source note is requested, or the commit after the
    /// last pair. A failure ends the work with that error.
    pub fn link_created(self, created: Result<Link, LinkServiceError>) -> (res: (
        RelationshipBatch,
        BatchAction,
    ))
        requires
            self.wf(),
            self.stage() is AwaitLink,
        ensures
            res.0.wf(),
            res.0.items() == self.items(),
            match created {
                Err(e) => res.0.stage() is Finished && res.0.links() == self.links() && res.1
                    == BatchAction::Finish(Err(e)),
                Ok(l) => {
                    &&& res.0.notes_created() == self.notes_created()
                    &&& res.0.links() == self.links().push(l)
                    &&& res.0.position() == self.position() + 1
                    &&& if self.position() + 1 < self.items().len() {
                        res.0.stage() is AwaitSource && res.1 == BatchAction::CreateNote(
                            self.items()[self.position() + 1].source(),
                        )
                    } else {
                        res.0.stage() is AwaitCommit && res.1 is Commit
                    }
                },
            },
    {
        let RelationshipBatch { items, position, queue, phase, links } = self;
        let mut queue = queue;
        let mut links = links;
        match created {
            Err(e) => {
                let batch = RelationshipBatch { items, position, queue, phase: Phase::Finished, links };
                (batch, BatchAction::Finish(Err(e)))
            },
            Ok(link) => {
                links.push(link);
                match queue.pop_front() {
                    None => {
                        let batch = RelationshipBatch {
                            items,
                            position: position + 1,
                            queue,
                            phase: Phase::AwaitCommit,
                            links,
                        };
                        (batch, BatchAction::Commit)
                    },
                    Some(next) => {
                        let NotesWithLinkType { from_note, to_note, link_type } = next;
                        let batch = RelationshipBatch {
                            items,
                            position: position + 1,
                            queue,
                            phase: Phase::AwaitSource { to_note, link_type },
                            links,
                        };
                        (batch, BatchAction::CreateNote(from_note))
                    },
                }
            },
        }
    }

    /// Takes in the outcome of the commit: the created links on success, the
    /// database's error otherwise.
    pub fn committed(self, committed: Result<(), DatabaseError>) -> (res: (
        RelationshipBatch,
        BatchAction,
    ))
        requires
            self.wf(),
            self.stage() is AwaitCommit,
        ensures
            res.0.wf(),
            res.0.items() == self.items(),
            res.0.stage() is Finished,
            match committed {
                Ok(()) => res.1 matches BatchAction::Finish(Ok(v)) && v@ == self.links() && v@.len()
                    == self.items().len(),
                Err(e) => res.1 matches BatchAction::Finish(Err(LinkServiceError::Database(d))) && d
                    == e,
            },
    {
        let RelationshipBatch { items, position, queue, phase, links } = self;
        match committed {
            Ok(()) => {
                let batch = RelationshipBatch {
                    items,
                    position,
                    queue,
                    phase: Phase::Finished,
                    links: Vec::new(),
                };
                (batch, BatchAction::Finish(Ok(links)))
            },
            Err(e) => {
                let batch = RelationshipBatch { items, position, queue, phase: Phase::Finished, links };
                (batch, BatchAction::Finish(Err(LinkServiceError::Database(e))))
            },
        }
    }
}

/// A commit is asked for only once every pair is done: two notes have been
/// created per pair, and the links to commit are one per pair.
pub proof fn lemma_commit_after_every_pair(batch: RelationshipBatch)
    requires
        batch.wf(),
        batch.stage() is AwaitCommit,
    ensures
        batch.links().len() == batch.items().len(),
        batch.position() == batch.items().len(),
        batch.notes_created() == 2 * batch.items().len(),
{
}

/// While the pairs are being created, the links made so far are one per
/// finished pair, and the pair being created is one of the pairs given.
pub proof fn lemma_one_link_per_finished_pair(batch: RelationshipBatch)
    requires
        batch.wf(),
        batch.stage() is AwaitSource || batch.stage() is AwaitTarget || batch.stage() is AwaitLink,
    ensures
        batch.links().len() == batch.position(),
        0 <= batch.position() < batch.items().len(),
{
}

} // verus!
