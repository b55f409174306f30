//! The query operations that can be performed on a MongoDB.
//!
//! A querier is built step by step. What it asks of the database is its
//! request; what it returns is decided from the answer of the database.

use vstd::prelude::*;
use crate::collection::Collection;
use crate::error::ErrorView;
use crate::error::Kind;

pub mod delete;
pub mod find;
pub mod insert;
pub mod replace;
pub mod update;

pub use self::delete::Delete;
pub use self::find::Find;
pub use self::insert::Insert;
pub use self::replace::Replace;
pub use self::update::Update;

verus! {

/// The value of the error for an answer to another kind of request than the
/// one that was made.
pub open spec fn wrong_response() -> ErrorView {
    ErrorView { kind: Kind::Runtime, source: Some("incorrect response from blocking client"@) }
}

/// A convenience wrapper for easy access to queriers.
pub struct Query;

impl Query {
    /// Returns a `Delete` querier.
    pub fn delete<C: Collection>() -> (r: Delete<C>)
        ensures
            r.filter_spec() is None,
            r.many_spec(),
            r.options_spec() == (crate::options::DeleteOptions {
                collation: None,
                write_concern: None,
                hint: None,
            }),
    {
        Delete::new()
    }

    /// Returns a `Find` querier.
    pub fn find<C: Collection>() -> (r: Find<C>)
        ensures
            r.filter_spec() is None,
            r.options_spec() == crate::options::FindOptions::none(),
    {
        Find::new()
    }

    /// Returns an `Insert` querier.
    pub fn insert<C: Collection>() -> (r: Insert<C>)
        ensures
            r.options_spec() == (crate::options::InsertManyOptions {
                bypass_document_validation: None,
                ordered: None,
                write_concern: None,
            }),
    {
        Insert::new()
    }

    /// Returns a `Replace` querier.
    pub fn replace<C: Collection>() -> (r: Replace<C>)
        ensures
            r.filter_spec() is None,
            r.options_spec() == (crate::options::ReplaceOptions {
                bypass_document_validation: None,
                upsert: None,
                collation: None,
                hint: None,
                write_concern: None,
            }),
    {
        Replace::new()
    }

    /// Returns an `Update` querier.
    pub fn update<C: Collection>() -> (r: Update<C>)
        ensures
            r.filter_spec() is None,
            r.many_spec(),
            r.options_spec() == (crate::options::UpdateOptions {
                array_filters: None,
                bypass_document_validation: None,
                upsert: None,
                collation: None,
                hint: None,
                write_concern: None,
            }),
    {
        Update::new()
    }
}

} // verus!
