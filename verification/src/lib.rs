//! Verified core of a personal document indexer.
//!
//! A build walks a directory tree, digests each file into an [`Entry`], hands
//! the entries over a bounded queue to a single writer, and commits them to a
//! full-text index. A search reads a request out of a query string and shapes
//! the matched documents into results. This crate holds the rules of both,
//! with their proofs. Touching the file system, running the converter for
//! PDFs, running the index engine and serving HTTP are left to the caller,
//! who is told what to do next and reports back how it went.

pub mod engine;
pub mod entry;
pub mod extract;
pub mod handoff;
pub mod kind;
pub mod path;
pub mod queue;
pub mod request;
pub mod results;
pub mod schema;
pub mod service;
pub mod text;
pub mod walk;
pub mod writer;

pub use entry::{Entry, Record};
