//! Deleting documents.

use vstd::prelude::*;
use std::marker::PhantomData;
use crate::blocking::Request;
use crate::blocking::Response;
use crate::bson::Document;
use crate::collection::Collection;
use crate::collection::named;
use crate::error::Error;
use crate::error::Kind;
use crate::filter::AsFilter;
use crate::filter::Filter;
use crate::filter::filter_written;
use crate::options::Collation;
use crate::options::DeleteOptions;
use crate::options::Hint;
use crate::options::WriteConcern;
use crate::query::wrong_response;
use vstd::string::StringExecFns;

verus! {

/// A querier to delete documents from a MongoDB collection.
pub struct Delete<C: Collection> {
    filter: Option<Document>,
    many: bool,
    options: DeleteOptions,
    query_type: PhantomData<C>,
}

impl<C: Collection> Delete<C> {
    /// The options set so far.
    pub closed spec fn options_spec(self) -> DeleteOptions {
        self.options
    }

    /// The filter set so far.
    pub closed spec fn filter_spec(self) -> Option<Document> {
        self.filter
    }

    /// Whether the operation goes to every document that matches.
    pub closed spec fn many_spec(self) -> bool {
        self.many
    }

    /// Constructs a `Delete` querier: without filter, for every document that
    /// matches, and with no option set.
    pub fn new() -> (r: Self)
        ensures
            r.filter_spec() is None,
            r.many_spec(),
            r.options_spec() == (DeleteOptions { collation: None, write_concern: None, hint: None }),
    {
        Delete { filter: None, many: true, options: DeleteOptions::new(), query_type: PhantomData }
    }

    /// The collation to use for the operation.
    ///
    /// Collation allows users to specify language-specific rules for string
    /// comparison, such as rules for lettercase and accent marks.
    pub fn collation(self, collation: Collation) -> (r: Self)
        ensures
            r.options_spec() == (DeleteOptions { collation: Some(collation), ..self.options_spec() }),
            r.filter_spec() == self.filter_spec(),
            r.many_spec() == self.many_spec(),
    {
        let mut q = self;
        q.options.collation = Some(collation);
        q
    }

    /// The filter to use for the operation.
    ///
    /// # Errors
    ///
    /// This method errors if the filter could not be converted into a BSON
    /// `Document`; the error is that of the conversion.
    pub fn filter<F>(self, filter: F) -> (r: crate::error::Result<Self>) where
        C: AsFilter<F>,
        F: Filter,

        ensures
            match r {
                Ok(q) => {
                    &&& q.filter_spec() is Some
                    &&& filter_written(filter, Ok::<Document, Error>(q.filter_spec()->Some_0))
                    &&& q.options_spec() == self.options_spec()
                    &&& q.many_spec() == self.many_spec()
                },
                Err(e) => filter_written(filter, Err::<Document, Error>(e)),
            },
    {
        let mut q = self;
        match filter.into_document() {
            Ok(d) => {
                q.filter = Some(d);
                Ok(q)
            },
            Err(e) => Err(e),
        }
    }

    /// A document or string that specifies the index to use to support the
    /// query predicate.
    pub fn hint(self, hint: Hint) -> (r: Self)
        ensures
            r.options_spec() == (DeleteOptions { hint: Some(hint), ..self.options_spec() }),
            r.filter_spec() == self.filter_spec(),
            r.many_spec() == self.many_spec(),
    {
        let mut q = self;
        q.options.hint = Some(hint);
        q
    }

    /// Enable delete many for this operation.
    ///
    /// Removes all documents that match the filter from a collection.
    pub fn many(self, many: bool) -> (r: Self)
        ensures
            r.many_spec() == many,
            r.options_spec() == self.options_spec(),
            r.filter_spec() == self.filter_spec(),
    {
        let mut q = self;
        q.many = many;
        q
    }

    /// The write concern for the operation.
    pub fn write_concern(self, write_concern: WriteConcern) -> (r: Self)
        ensures
            r.options_spec() == (DeleteOptions { write_concern: Some(write_concern), ..self.options_spec() }),
            r.filter_spec() == self.filter_spec(),
            r.many_spec() == self.many_spec(),
    {
        let mut q = self;
        q.options.write_concern = Some(write_concern);
        q
    }

    /// What is asked of the database: to delete from the collection of `C`
    /// the documents that match the filter, or every document where no filter
    /// was set.
    pub fn request(self) -> (r: Request)
        ensures
            r is Delete,
            r->Delete_0 == self.many_spec(),
            named::<C>(r->Delete_1),
            match self.filter_spec() {
                Some(f) => r->Delete_2 == f,
                None => r->Delete_2@ == Seq::<(Seq<char>, crate::bson::BsonView)>::empty(),
            },
            r->Delete_3 == self.options_spec(),
    {
        let filter = match self.filter {
            Some(f) => f,
            None => Document::new(),
        };
        Request::Delete(self.many, C::COLLECTION, filter, self.options)
    }

    /// What the query returns for the answer of the database: the number of
    /// documents deleted. An error of the database is handed on; an answer to
    /// another kind of request is a runtime error.
    pub fn blocking<K>(response: crate::error::Result<Response<K>>) -> (r: crate::error::Result<
        u64,
    >)
        ensures
            match response {
                Ok(Response::Delete(result)) => r == Ok::<u64, Error>(result.deleted_count),
                Ok(_) => r is Err && r->Err_0@ == wrong_response(),
                Err(e) => r == Err::<u64, Error>(e),
            },
    {
        match response {
            Ok(Response::Delete(result)) => Ok(result.deleted_count),
            Ok(_) => Err(crate::error::runtime(String::from_str("incorrect response from blocking client"))),
            Err(e) => Err(e),
        }
    }
}

impl<C: Collection> Default for Delete<C> {
    fn default() -> (r: Self)
        ensures
            r.filter_spec() is None,
            r.many_spec(),
            r.options_spec() == (DeleteOptions { collation: None, write_concern: None, hint: None }),
    {
        Self::new()
    }
}

} // verus!
