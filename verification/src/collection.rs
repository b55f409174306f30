//! Record types that are stored in a collection.

use vstd::prelude::*;
use crate::bson::Document;
use crate::error::Error;

verus! {

/// A record type together with the name of the collection that holds its
/// documents and the conversion between its values and documents.
///
/// The library promises nothing of an implementation: what it states of a
/// query is stated in terms of what these methods return.
pub trait Collection: Sized {
    /// The name of the collection to store the documents in.
    const COLLECTION: &'static str;

    /// Convert from a BSON `Document` into the `Collection`s type.
    fn from_document(document: Document) -> Result<Self, Error>;

    /// Convert the `Collection`s type into a BSON `Document`.
    fn into_document(self) -> Result<Document, Error>;
}

/// Whether `name` is a name that the record type `C` gives for its
/// collection.
pub open spec fn named<C: Collection>(name: &'static str) -> bool {
    name == C::COLLECTION
}

/// Whether `r` is something that writing `record` as a document returns.
pub open spec fn written<C: Collection>(record: C, r: Result<Document, Error>) -> bool {
    call_ensures(C::into_document, (record,), r)
}

} // verus!
