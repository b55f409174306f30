//! The schema of a record type and what is derived from it.

pub mod ast;
pub mod attr;
pub mod bson;
pub mod laws;
pub mod mongo;
pub mod record;
