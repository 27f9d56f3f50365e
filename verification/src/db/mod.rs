//! The note store: notes, links between them, and the connection settings.
pub mod connection;
pub mod links;
pub mod notes;
