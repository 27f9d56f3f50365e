//! Graph notes: notes, typed links between them, layered configuration and
//! the command-line workflow, with their decision logic verified by Verus.
pub mod cli;
pub mod config;
pub mod db;
pub mod json;
pub mod outside;
pub mod text;
