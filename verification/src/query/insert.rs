//! Inserting documents.

use vstd::prelude::*;
use std::collections::HashMap;
use vstd::string::StringExecFns;
use std::marker::PhantomData;
use crate::blocking::Request;
use crate::blocking::Response;
use crate::bson::Bson;
use crate::bson::Document;
use crate::collection::Collection;
use crate::collection::named;
use crate::collection::written;
use crate::error::Error;
use crate::error::Kind;
use crate::error::wraps;
use crate::options::InsertManyOptions;
use crate::options::WriteConcern;
use crate::query::wrong_response;

verus! {

/// A querier to insert documents into a MongoDB collection.
pub struct Insert<C: Collection> {
    options: InsertManyOptions,
    query_type: PhantomData<C>,
}

/// Whether `r` is what writing the records `records` gives: the documents
/// that they are written as, one per record and in order, or the error of
/// the first record that cannot be written.
pub open spec fn all_written<C: Collection>(records: Seq<C>, r: Result<Seq<Document>, Error>)
    -> bool {
    if r is Ok {
        all_before(records, records.len() as int, r->Ok_0)
    } else {
        exists|i: int, before: Seq<Document>| #[trigger] first_failure(records, i, before, r->Err_0)
    }
}

/// Whether the record at position `i` is the first that cannot be written,
/// with the error `e`: the records before it are written as the documents
/// `before`.
pub open spec fn first_failure<C: Collection>(
    records: Seq<C>,
    i: int,
    before: Seq<Document>,
    e: Error,
) -> bool {
    &&& 0 <= i < records.len()
    &&& written(records[i], Err::<Document, Error>(e))
    &&& all_before(records, i, before)
}

/// Whether the records before position `i` are written as the documents
/// `before`.
pub open spec fn all_before<C: Collection>(records: Seq<C>, i: int, before: Seq<Document>) -> bool {
    &&& before.len() == i
    &&& forall|j: int|
        0 <= j < i ==> written(records[j], Ok::<Document, Error>(#[trigger] before[j]))
}

impl<C: Collection> Insert<C> {
    /// The options set so far.
    pub closed spec fn options_spec(self) -> InsertManyOptions {
        self.options
    }

    /// Constructs an `Insert` querier with no option set.
    pub fn new() -> (r: Self)
        ensures
            r.options_spec() == (InsertManyOptions {
                bypass_document_validation: None,
                ordered: None,
                write_concern: None,
            }),
    {
        Insert { options: InsertManyOptions::new(), query_type: PhantomData }
    }

    /// Opt out of document-level validation.
    pub fn bypass_document_validation(self, enable: bool) -> (r: Self)
        ensures
            r.options_spec() == (InsertManyOptions { bypass_document_validation: Some(enable), ..self.options_spec() }),
    {
        let mut q = self;
        q.options.bypass_document_validation = Some(enable);
        q
    }

    /// If true, when an insert fails, return without performing the remaining
    /// writes. If false, when a write fails, continue with the remaining
    /// writes, if any.
    pub fn ordered(self, enable: bool) -> (r: Self)
        ensures
            r.options_spec() == (InsertManyOptions { ordered: Some(enable), ..self.options_spec() }),
    {
        let mut q = self;
        q.options.ordered = Some(enable);
        q
    }

    /// The write concern for the operation.
    pub fn write_concern(self, write_concern: WriteConcern) -> (r: Self)
        ensures
            r.options_spec() == (InsertManyOptions { write_concern: Some(write_concern), ..self.options_spec() }),
    {
        let mut q = self;
        q.options.write_concern = Some(write_concern);
        q
    }

    /// What is asked of the database: to insert into the collection of `C`
    /// the documents that the records are written as, in order.
    ///
    /// # Errors
    ///
    /// This method fails with the error of the first record that cannot be
    /// written as a document.
    pub fn request(self, documents: Vec<C>) -> (r: crate::error::Result<Request>)
        ensures
            match r {
                Ok(request) => {
                    &&& request is Insert
                    &&& named::<C>(request->Insert_0)
                    &&& all_written(documents@, Ok::<Seq<Document>, Error>(request->Insert_1@))
                    &&& request->Insert_2 == self.options_spec()
                },
                Err(e) => all_written(documents@, Err::<Seq<Document>, Error>(e)),
            },
    {
        let ghost all = documents@;
        let mut list: Vec<Document> = Vec::new();
        for record in it: documents
            invariant
                all == it.seq(),
                all == documents@,
                all_before(all, it.index() as int, list@),
        {
            let r = record.into_document();
            assert(written(record, r));
            match r {
                Ok(d) => {
                    list.push(d);
                },
                Err(e) => {
                    assert(0 <= it.index() < all.len());
                    assert(written(all[it.index() as int], Err::<Document, Error>(e)));
                    assert(first_failure(all, it.index() as int, list@, e));
                    assert(exists|i: int, before: Seq<Document>| #[trigger]
                        first_failure(all, i, before, e));
                    let ghost r0 = Err::<Seq<Document>, Error>(e);
                    assert(r0 is Err);
                    assert(r0->Err_0 == e);
                    assert(exists|i: int, before: Seq<Document>| #[trigger]
                        first_failure(all, i, before, r0->Err_0));
                    assert(all_written(all, r0));
                    return Err(e);
                },
            }
        }
        let name = C::COLLECTION;
        Ok(Request::Insert(name, list, self.options))
    }

    /// What a blocking client asks of the database: to insert into the
    /// collection of `C` the documents that the records are written as, in
    /// order.
    ///
    /// # Errors
    ///
    /// Where a record cannot be written as a document, this method fails
    /// with an error of kind [`Kind::Bson`] whose source is the error of the
    /// first such record. Nothing is asked of the database then.
    pub fn blocking_request(self, documents: Vec<C>) -> (r: crate::error::Result<Request>)
        ensures
            match r {
                Ok(request) => {
                    &&& request is Insert
                    &&& named::<C>(request->Insert_0)
                    &&& all_written(documents@, Ok::<Seq<Document>, Error>(request->Insert_1@))
                    &&& request->Insert_2 == self.options_spec()
                },
                Err(e) => e.kind_spec() == Kind::Bson && exists|
                    i: int,
                    before: Seq<Document>,
                    inner: Error,
                | #[trigger]
                    first_failure(documents@, i, before, inner) && e.source_spec() == Some(
                        inner.text_spec(),
                    ),
            },
    {
        match self.request(documents) {
            Ok(request) => Ok(request),
            Err(inner) => {
                let e = crate::error::wrapped(Kind::Bson, &inner);
                proof {
                    let r0 = Err::<Seq<Document>, Error>(inner);
                    assert(all_written(documents@, r0));
                    let (i, before) = choose|i: int, before: Seq<Document>| #[trigger]
                        first_failure(documents@, i, before, r0->Err_0);
                    assert(first_failure(documents@, i, before, inner) && e.source_spec() == Some(
                        inner.text_spec(),
                    ));
                }
                Err(e)
            },
        }
    }

    /// What the query returns for the answer of the database: the identifier
    /// given to each document, by the position of the document. An error of
    /// the database is handed on; an answer to another kind of request is a
    /// runtime error.
    pub fn blocking<K>(response: crate::error::Result<Response<K>>) -> (r: crate::error::Result<
        HashMap<usize, Bson>,
    >)
        ensures
            match response {
                Ok(Response::Insert(result)) => r == Ok::<HashMap<usize, Bson>, Error>(
                    result.inserted_ids,
                ),
                Ok(_) => r is Err && r->Err_0@ == wrong_response(),
                Err(e) => r == Err::<HashMap<usize, Bson>, Error>(e),
            },
    {
        match response {
            Ok(Response::Insert(result)) => Ok(result.inserted_ids),
            Ok(_) => Err(
                crate::error::runtime(String::from_str("incorrect response from blocking client")),
            ),
            Err(e) => Err(e),
        }
    }
}

impl<C: Collection> Default for Insert<C> {
    fn default() -> (r: Self)
        ensures
            r.options_spec() == (InsertManyOptions {
                bypass_document_validation: None,
                ordered: None,
                write_concern: None,
            }),
    {
        Self::new()
    }
}

} // verus!
