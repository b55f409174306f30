//! Extensions of the wire model.

pub mod bson;
