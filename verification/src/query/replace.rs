//! Replacing documents.

use vstd::prelude::*;
use vstd::string::StringExecFns;
use std::marker::PhantomData;
use crate::blocking::Request;
use crate::blocking::Response;
use crate::bson::Document;
use crate::collection::Collection;
use crate::collection::named;
use crate::collection::written;
use crate::error::Error;
use crate::filter::AsFilter;
use crate::filter::Filter;
use crate::filter::filter_written;
use crate::options::Collation;
use crate::options::Hint;
use crate::options::ReplaceOptions;
use crate::options::WriteConcern;
use crate::query::wrong_response;

verus! {

/// A querier to replace a document in a MongoDB collection.
pub struct Replace<C: Collection> {
    filter: Option<Document>,
    options: ReplaceOptions,
    query_type: PhantomData<C>,
}

impl<C: Collection> Replace<C> {
    /// The options set so far.
    pub closed spec fn options_spec(self) -> ReplaceOptions {
        self.options
    }

    /// The filter set so far.
    pub closed spec fn filter_spec(self) -> Option<Document> {
        self.filter
    }

    /// Constructs a `Replace` querier: without filter and with no option set.
    pub fn new() -> (r: Self)
        ensures
            r.filter_spec() is None,
            r.options_spec() == (ReplaceOptions {
                bypass_document_validation: None,
                upsert: None,
                collation: None,
                hint: None,
                write_concern: None,
            }),
    {
        Replace { filter: None, options: ReplaceOptions::new(), query_type: PhantomData }
    }

    /// Opt out of document-level validation.
    pub fn bypass_document_validation(self, enable: bool) -> (r: Self)
        ensures
            r.options_spec() == (ReplaceOptions { bypass_document_validation: Some(enable), ..self.options_spec() }),
            r.filter_spec() == self.filter_spec(),
    {
        let mut q = self;
        q.options.bypass_document_validation = Some(enable);
        q
    }

    /// The collation to use for the operation.
    ///
    /// Collation allows users to specify language-specific rules for string
    /// comparison, such as rules for lettercase and accent marks.
    pub fn collation(self, collation: Collation) -> (r: Self)
        ensures
            r.options_spec() == (ReplaceOptions { collation: Some(collation), ..self.options_spec() }),
            r.filter_spec() == self.filter_spec(),
    {
        let mut q = self;
        q.options.collation = Some(collation);
        q
    }

    /// The filter to use for the operation.
    ///
    /// # Errors
    ///
    /// This method errors if the filter could not be converted into a BSON
    /// `Document`; the error is that of the conversion.
    pub fn filter<F>(self, filter: F) -> (r: crate::error::Result<Self>) where
        C: AsFilter<F>,
        F: Filter,

        ensures
            match r {
                Ok(q) => {
                    &&& q.filter_spec() is Some
                    &&& filter_written(filter, Ok::<Document, Error>(q.filter_spec()->Some_0))
                    &&& q.options_spec() == self.options_spec()
                },
                Err(e) => filter_written(filter, Err::<Document, Error>(e)),
            },
    {
        let mut q = self;
        match filter.into_document() {
            Ok(d) => {
                q.filter = Some(d);
                Ok(q)
            },
            Err(e) => Err(e),
        }
    }

    /// A document or string that specifies the index to use to support the
    /// query predicate.
    pub fn hint(self, value: Hint) -> (r: Self)
        ensures
            r.options_spec() == (ReplaceOptions { hint: Some(value), ..self.options_spec() }),
            r.filter_spec() == self.filter_spec(),
    {
        let mut q = self;
        q.options.hint = Some(value);
        q
    }

    /// Insert a document if no matching document is found.
    pub fn upsert(self, enable: bool) -> (r: Self)
        ensures
            r.options_spec() == (ReplaceOptions { upsert: Some(enable), ..self.options_spec() }),
            r.filter_spec() == self.filter_spec(),
    {
        let mut q = self;
        q.options.upsert = Some(enable);
        q
    }

    /// The write concern for the operation.
    pub fn write_concern(self, concern: WriteConcern) -> (r: Self)
        ensures
            r.options_spec() == (ReplaceOptions { write_concern: Some(concern), ..self.options_spec() }),
            r.filter_spec() == self.filter_spec(),
    {
        let mut q = self;
        q.options.write_concern = Some(concern);
        q
    }

    /// What is asked of the database: to replace in the collection of `C` a
    /// document that matches the filter (any document where no filter was
    /// set) by the document that the record is written as.
    ///
    /// # Errors
    ///
    /// This method fails with the error of the record where it cannot be
    /// written as a document.
    pub fn request(self, document: C) -> (r: crate::error::Result<Request>)
        ensures
            match r {
                Ok(request) => {
                    &&& request is Replace
                    &&& named::<C>(request->Replace_0)
                    &&& match self.filter_spec() {
                        Some(f) => request->Replace_1 == f,
                        None => request->Replace_1@ == Seq::<
                            (Seq<char>, crate::bson::BsonView),
                        >::empty(),
                    }
                    &&& written(document, Ok::<Document, Error>(request->Replace_2))
                    &&& request->Replace_3 == self.options_spec()
                },
                Err(e) => written(document, Err::<Document, Error>(e)),
            },
    {
        let filter = match self.filter {
            Some(f) => f,
            None => Document::new(),
        };
        match document.into_document() {
            Ok(d) => Ok(Request::Replace(C::COLLECTION, filter, d, self.options)),
            Err(e) => Err(e),
        }
    }

    /// What the query returns for the answer of the database: whether a
    /// document was modified. An error of the database is handed on; an answer
    /// to another kind of request is a runtime error.
    pub fn blocking<K>(response: crate::error::Result<Response<K>>) -> (r: crate::error::Result<
        bool,
    >)
        ensures
            match response {
                Ok(Response::Replace(result)) => r == Ok::<bool, Error>(result.modified_count > 0),
                Ok(_) => r is Err && r->Err_0@ == wrong_response(),
                Err(e) => r == Err::<bool, Error>(e),
            },
    {
        match response {
            Ok(Response::Replace(result)) => Ok(result.modified_count > 0),
            Ok(_) => Err(
                crate::error::runtime(String::from_str("incorrect response from blocking client")),
            ),
            Err(e) => Err(e),
        }
    }
}

impl<C: Collection> Default for Replace<C> {
    fn default() -> (r: Self)
        ensures
            r.filter_spec() is None,
            r.options_spec() == (ReplaceOptions {
                bypass_document_validation: None,
                upsert: None,
                collation: None,
                hint: None,
                write_concern: None,
            }),
    {
        Self::new()
    }
}

} // verus!
