//! A read-only media catalog shown as a directory tree.
//!
//! The catalog holds photos, videos, tags and events, each with a small
//! unsigned identity. This library is the mapping between that catalog and
//! the four requests of a filesystem transport: resolving a name, reading
//! attributes, listing a directory, and reading bytes. It performs no I/O.
//! Every request is answered in two steps: a planning function says which
//! catalog rows are needed, and a finishing function turns the rows into
//! the reply.

pub mod inode;
pub mod text;
pub mod name;
pub mod failure;
pub mod attr;
pub mod record;
pub mod catalog;
pub mod clock;
pub mod listing;
pub mod members;
pub mod dispatch;
