//! Updates: the changes that are made to documents.

use vstd::prelude::*;
use vstd::string::StringExecFns;
use crate::bson::Bson;
use crate::bson::BsonView;
use crate::bson::Document;
use crate::bson::DocumentView;
use crate::bson::inserted;
use crate::error::Error;

verus! {

/// Used to tie a type implementing [`Collection`](crate::Collection) to its
/// companion `Update` type.
pub trait AsUpdate<U: Update> {
    /// Returns the `Collection`s update.
    fn update() -> U;

    /// Converts the `Collection` instance into its update.
    fn into_update(self) -> U;
}

/// Used to mark a type as an update for use in queries.
///
/// The library promises nothing of an implementation: what it states of a
/// query is stated in terms of what these methods return.
pub trait Update: Sized {
    /// Constructs a new `Update`.
    fn new() -> Self;

    /// Converts an `Update` into a BSON `Document`.
    fn into_document(self) -> Result<Document, Error>;
}

/// Whether `r` is something that writing `update` as a document returns.
pub open spec fn update_written<U: Update>(update: U, r: Result<Document, Error>) -> bool {
    call_ensures(U::into_document, (update,), r)
}

/// Used for complex updates using MongoDB's update operators.
///
/// A field that is present in `set` gets the value given for it; a field that
/// is present in `unset` is removed from the document.
pub struct Updates<U: Update> {
    /// Sets the value of a field in a document.
    pub set: Option<U>,
    /// Removes the specified field from a document.
    pub unset: Option<U>,
}

/// Whether `r` is the document `d` with one part of a set of updates under
/// its operator: `d` itself where the part is absent; else `d` with what the
/// part is written as, or the error of writing the part.
pub open spec fn with_part<U: Update>(
    d: DocumentView,
    operator: Seq<char>,
    part: Option<U>,
    r: Result<DocumentView, Error>,
) -> bool {
    match part {
        None => r == Ok::<DocumentView, Error>(d),
        Some(u) => exists|written: Result<Document, Error>|
            {
                &&& #[trigger] update_written(u, written)
                &&& match written {
                    Ok(inner) => r == Ok::<DocumentView, Error>(
                        inserted(d, operator, BsonView::Document(inner@)),
                    ),
                    Err(e) => r == Err::<DocumentView, Error>(e),
                }
            },
    }
}

/// Whether `r` is what follows the `set` part `first` of a set of updates:
/// its error, or the document with the `unset` part of the updates.
pub open spec fn after_set<U: Update>(
    updates: Updates<U>,
    first: Result<DocumentView, Error>,
    r: Result<Document, Error>,
) -> bool {
    if first is Err {
        r == Err::<Document, Error>(first->Err_0)
    } else {
        exists|second: Result<DocumentView, Error>|
            {
                &&& #[trigger] with_part(first->Ok_0, "$unset"@, updates.unset, second)
                &&& if second is Err {
                    r == Err::<Document, Error>(second->Err_0)
                } else {
                    r is Ok && r->Ok_0@ == second->Ok_0
                }
            }
    }
}

/// Whether `r` is what a set of updates is written as: the document of its
/// `set` part under `$set`, then that of its `unset` part under `$unset`,
/// each only where the part is present. The first part that cannot be written
/// gives the error.
pub open spec fn updates_written<U: Update>(updates: Updates<U>, r: Result<Document, Error>)
    -> bool {
    exists|first: Result<DocumentView, Error>|
        {
            &&& #[trigger] with_part(Seq::empty(), "$set"@, updates.set, first)
            &&& after_set(updates, first, r)
        }
}

/// What follows a `set` part that was written is what the `unset` part
/// gives.
proof fn lemma_after_set<U: Update>(
    updates: Updates<U>,
    d: DocumentView,
    second: Result<DocumentView, Error>,
    r: Result<Document, Error>,
)
    requires
        with_part(d, "$unset"@, updates.unset, second),
        match second {
            Err(e) => r == Err::<Document, Error>(e),
            Ok(all) => r is Ok && r->Ok_0@ == all,
        },
    ensures
        after_set(updates, Ok::<DocumentView, Error>(d), r),
{
    // The witness has to be named in the very words of the definition.
    let first = Ok::<DocumentView, Error>(d);
    assert(with_part(first->Ok_0, "$unset"@, updates.unset, second));
    assert(exists|second: Result<DocumentView, Error>|
        {
            &&& #[trigger] with_part(first->Ok_0, "$unset"@, updates.unset, second)
            &&& if second is Err {
                r == Err::<Document, Error>(second->Err_0)
            } else {
                r is Ok && r->Ok_0@ == second->Ok_0
            }
        });
}

impl<U: Update> Updates<U> {
    /// Convert `Updates` into a BSON `Document`.
    pub fn into_document(self) -> (r: Result<Document, Error>)
        ensures
            updates_written(self, r),
    {
        let mut document = Document::new();
        let ghost first: Result<DocumentView, Error> = Ok(Seq::empty());
        match self.set {
            Some(set) => {
                let written = set.into_document();
                assert(update_written(set, written));
                match written {
                    Ok(d) => {
                        let _ = document.insert(String::from_str("$set"), Bson::Document(d));
                        proof {
                            first = Ok(document@);
                        }
                    },
                    Err(e) => {
                        proof {
                            first = Err(e);
                            assert(with_part(Seq::empty(), "$set"@, self.set, first));
                            assert(after_set(self, first, Err::<Document, Error>(e)));
                        }
                        return Err(e);
                    },
                }
            },
            None => {},
        }
        assert(with_part(Seq::empty(), "$set"@, self.set, first));
        let ghost middle = document@;
        let ghost second: Result<DocumentView, Error> = Ok(middle);
        match self.unset {
            Some(unset) => {
                let written = unset.into_document();
                assert(update_written(unset, written));
                match written {
                    Ok(d) => {
                        let _ = document.insert(String::from_str("$unset"), Bson::Document(d));
                        proof {
                            second = Ok(document@);
                        }
                    },
                    Err(e) => {
                        proof {
                            second = Err(e);
                            assert(with_part(middle, "$unset"@, self.unset, second));
                            lemma_after_set(self, middle, second, Err::<Document, Error>(e));
                        }
                        return Err(e);
                    },
                }
            },
            None => {},
        }
        assert(with_part(middle, "$unset"@, self.unset, second));
        proof {
            lemma_after_set(self, middle, second, Ok::<Document, Error>(document));
        }
        Ok(document)
    }
}

impl<U: Update> Default for Updates<U> {
    fn default() -> (r: Updates<U>)
        ensures
            r.set is None,
            r.unset is None,
    {
        Updates { set: None, unset: None }
    }
}

impl<U: Update> Update for Updates<U> {
    fn new() -> (r: Updates<U>)
        ensures
            r.set is None,
            r.unset is None,
    {
        Updates { set: None, unset: None }
    }

    fn into_document(self) -> (r: Result<Document, Error>)
        ensures
            updates_written(self, r),
    {
        Updates::into_document(self)
    }
}

} // verus!
