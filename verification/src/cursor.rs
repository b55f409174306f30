//! What a cursor hands out: the documents of the database read as records.

use vstd::prelude::*;
use vstd::string::StringExecFns;
use crate::bson::Bson;
use crate::bson::BsonView;
use crate::bson::Document;
use crate::bson::ObjectId;
use crate::bson::lookup;
use crate::collection::Collection;
use crate::error::Error;
use crate::error::ErrorView;
use crate::error::Kind;
use crate::error::wraps;

verus! {

/// The key of the object identifier of a document.
pub const ID_KEY: &'static str = "_id";

/// Whether `r` is something that reading `document` as a record of `C`
/// returns.
pub open spec fn read<C: Collection>(document: Document, r: Result<C, Error>) -> bool {
    call_ensures(C::from_document, (document,), r)
}

/// The value of the error for a document without object identifier.
pub open spec fn no_identifier() -> ErrorView {
    ErrorView { kind: Kind::Bson, source: Some("field is not present"@) }
}

/// The value of the error for a document whose identifier is no object
/// identifier.
pub open spec fn other_identifier() -> ErrorView {
    ErrorView { kind: Kind::Bson, source: Some("field does not have the expected type"@) }
}

/// Whether `r` is the record of a document with its object identifier: for
/// a document that holds an object identifier under `_id`, the identifier
/// and what the document is read as, or the error of that reading; for
/// every other document an error of kind [`Kind::Bson`].
pub open spec fn typed_spec<C: Collection>(document: Document, r: Result<(ObjectId, C), Error>)
    -> bool {
    match lookup(document@, ID_KEY@) {
        Some(BsonView::ObjectId(id)) => if r is Ok {
            r->Ok_0.0 == id && read(document, Ok::<C, Error>(r->Ok_0.1))
        } else {
            read(document, Err::<C, Error>(r->Err_0))
        },
        Some(_) => r is Err && r->Err_0@ == other_identifier(),
        None => r is Err && r->Err_0@ == no_identifier(),
    }
}

/// Reads a document as a record, together with its object identifier.
///
/// # Errors
///
/// A document without `_id`, or with something else than an object
/// identifier under it, is an error of kind [`Kind::Bson`]; the record is not
/// read then. Otherwise the error is that of reading the record.
pub fn typed<C: Collection>(document: Document) -> (r: Result<(ObjectId, C), Error>)
    ensures
        typed_spec(document, r),
{
    let oid = match document.get(ID_KEY) {
        Some(Bson::ObjectId(id)) => *id,
        Some(_) => {
            return Err(
                crate::error::bson(String::from_str("field does not have the expected type")),
            );
        },
        None => {
            return Err(crate::error::bson(String::from_str("field is not present")));
        },
    };
    match C::from_document(document) {
        Ok(record) => Ok((oid, record)),
        Err(e) => Err(e),
    }
}

/// Whether `r` is what reading `inner` as the one record found gives: the
/// record, or an error of kind [`Kind::Bson`] whose source is the error of
/// the reading.
pub open spec fn found_from<C: Collection>(inner: Result<C, Error>, r: Result<C, Error>) -> bool {
    if inner is Ok {
        r is Ok && r->Ok_0 == inner->Ok_0
    } else {
        r is Err && wraps(r->Err_0, Kind::Bson, inner->Err_0)
    }
}

/// Whether `r` is the record of the one document found.
pub open spec fn found_spec<C: Collection>(document: Document, r: Result<C, Error>) -> bool {
    exists|inner: Result<C, Error>| #[trigger] read(document, inner) && found_from(inner, r)
}

/// Reads the one document that a query found as a record.
///
/// # Errors
///
/// A document that cannot be read is an error of kind [`Kind::Bson`] whose
/// source is the error of the reading.
pub fn found<C: Collection>(document: Document) -> (r: Result<C, Error>)
    ensures
        found_spec(document, r),
{
    let inner = C::from_document(document);
    let r = match inner {
        Ok(record) => Ok(record),
        Err(e) => Err(crate::error::wrapped(Kind::Bson, &e)),
    };
    assert(read(document, inner) && found_from(inner, r));
    r
}

} // verus!
