//! Updating documents.

use vstd::prelude::*;
use vstd::string::StringExecFns;
use std::marker::PhantomData;
use crate::blocking::Request;
use crate::blocking::Response;
use crate::bson::Document;
use crate::collection::Collection;
use crate::collection::named;
use crate::error::Error;
use crate::filter::AsFilter;
use crate::filter::Filter;
use crate::filter::filter_written;
use crate::options::Collation;
use crate::options::Hint;
use crate::options::UpdateOptions;
use crate::options::WriteConcern;
use crate::query::wrong_response;
use crate::update::AsUpdate;
use crate::update::Updates;
use crate::update::updates_written;

verus! {

/// A querier to update documents in a MongoDB collection.
pub struct Update<C: Collection> {
    filter: Option<Document>,
    many: bool,
    options: UpdateOptions,
    query_type: PhantomData<C>,
}

impl<C: Collection> Update<C> {
    /// The options set so far.
    pub closed spec fn options_spec(self) -> UpdateOptions {
        self.options
    }

    /// The filter set so far.
    pub closed spec fn filter_spec(self) -> Option<Document> {
        self.filter
    }

    /// Whether the operation goes to every document that matches.
    pub closed spec fn many_spec(self) -> bool {
        self.many
    }

    /// Constructs an `Update` querier: without filter, for every document
    /// that matches, and with no option set.
    pub fn new() -> (r: Self)
        ensures
            r.filter_spec() is None,
            r.many_spec(),
            r.options_spec() == (UpdateOptions {
                array_filters: None,
                bypass_document_validation: None,
                upsert: None,
                collation: None,
                hint: None,
                write_concern: None,
            }),
    {
        Update { filter: None, many: true, options: UpdateOptions::new(), query_type: PhantomData }
    }

    /// An array of filters specifying to which array elements an update should
    /// apply.
    pub fn array_filters(self, filters: Vec<Document>) -> (r: Self)
        ensures
            r.options_spec() == (UpdateOptions { array_filters: Some(filters), ..self.options_spec() }),
            r.filter_spec() == self.filter_spec(),
            r.many_spec() == self.many_spec(),
    {
        let mut q = self;
        q.options.array_filters = Some(filters);
        q
    }

    /// Opt out of document-level validation.
    pub fn bypass_document_validation(self, enable: bool) -> (r: Self)
        ensures
            r.options_spec() == (UpdateOptions { bypass_document_validation: Some(enable), ..self.options_spec() }),
            r.filter_spec() == self.filter_spec(),
            r.many_spec() == self.many_spec(),
    {
        let mut q = self;
        q.options.bypass_document_validation = Some(enable);
        q
    }

    /// The collation to use for the operation.
    ///
    /// Collation allows users to specify language-specific rules for string
    /// comparison, such as rules for lettercase and accent marks.
    pub fn collation(self, collation: Collation) -> (r: Self)
        ensures
            r.options_spec() == (UpdateOptions { collation: Some(collation), ..self.options_spec() }),
            r.filter_spec() == self.filter_spec(),
            r.many_spec() == self.many_spec(),
    {
        let mut q = self;
        q.options.collation = Some(collation);
        q
    }

    /// The filter to use for the operation.
    ///
    /// # Errors
    ///
    /// This method errors if the filter could not be converted into a BSON
    /// `Document`; the error is that of the conversion.
    pub fn filter<F>(self, filter: F) -> (r: crate::error::Result<Self>) where
        C: AsFilter<F>,
        F: Filter,

        ensures
            match r {
                Ok(q) => {
                    &&& q.filter_spec() is Some
                    &&& filter_written(filter, Ok::<Document, Error>(q.filter_spec()->Some_0))
                    &&& q.options_spec() == self.options_spec()
                    &&& q.many_spec() == self.many_spec()
                },
                Err(e) => filter_written(filter, Err::<Document, Error>(e)),
            },
    {
        let mut q = self;
        match filter.into_document() {
            Ok(d) => {
                q.filter = Some(d);
                Ok(q)
            },
            Err(e) => Err(e),
        }
    }

    /// A document or string that specifies the index to use to support the
    /// query predicate.
    pub fn hint(self, value: Hint) -> (r: Self)
        ensures
            r.options_spec() == (UpdateOptions { hint: Some(value), ..self.options_spec() }),
            r.filter_spec() == self.filter_spec(),
            r.many_spec() == self.many_spec(),
    {
        let mut q = self;
        q.options.hint = Some(value);
        q
    }

    /// Enable update many for this operation.
    ///
    /// Updates all documents that match the filter.
    pub fn many(self, enable: bool) -> (r: Self)
        ensures
            r.many_spec() == enable,
            r.options_spec() == self.options_spec(),
            r.filter_spec() == self.filter_spec(),
    {
        let mut q = self;
        q.many = enable;
        q
    }

    /// Insert a document if no matching document is found.
    pub fn upsert(self, enable: bool) -> (r: Self)
        ensures
            r.options_spec() == (UpdateOptions { upsert: Some(enable), ..self.options_spec() }),
            r.filter_spec() == self.filter_spec(),
            r.many_spec() == self.many_spec(),
    {
        let mut q = self;
        q.options.upsert = Some(enable);
        q
    }

    /// The write concern for the operation.
    pub fn write_concern(self, concern: WriteConcern) -> (r: Self)
        ensures
            r.options_spec() == (UpdateOptions { write_concern: Some(concern), ..self.options_spec() }),
            r.filter_spec() == self.filter_spec(),
            r.many_spec() == self.many_spec(),
    {
        let mut q = self;
        q.options.write_concern = Some(concern);
        q
    }

    /// What is asked of the database: to apply the updates in the collection
    /// of `C` to the documents that match the filter, or to every document
    /// where no filter was set.
    ///
    /// # Errors
    ///
    /// This method fails with the error of the updates where they cannot be
    /// written as a document.
    pub fn request<U>(self, updates: Updates<U>) -> (r: crate::error::Result<Request>) where
        C: AsUpdate<U>,
        U: crate::update::Update,

        ensures
            match r {
                Ok(request) => {
                    &&& request is Update
                    &&& request->Update_0 == self.many_spec()
                    &&& named::<C>(request->Update_1)
                    &&& match self.filter_spec() {
                        Some(f) => request->Update_2 == f,
                        None => request->Update_2@ == Seq::<
                            (Seq<char>, crate::bson::BsonView),
                        >::empty(),
                    }
                    &&& updates_written(updates, Ok::<Document, Error>(request->Update_3))
                    &&& request->Update_4 == self.options_spec()
                },
                Err(e) => updates_written(updates, Err::<Document, Error>(e)),
            },
    {
        let filter = match self.filter {
            Some(f) => f,
            None => Document::new(),
        };
        match updates.into_document() {
            Ok(d) => Ok(Request::Update(self.many, C::COLLECTION, filter, d, self.options)),
            Err(e) => Err(e),
        }
    }

    /// What the query returns for the answer of the database: the number of
    /// documents that matched. An error of the database is handed on; an
    /// answer to another kind of request is a runtime error.
    pub fn blocking<K>(response: crate::error::Result<Response<K>>) -> (r: crate::error::Result<
        u64,
    >)
        ensures
            match response {
                Ok(Response::Update(result)) => r == Ok::<u64, Error>(result.matched_count),
                Ok(_) => r is Err && r->Err_0@ == wrong_response(),
                Err(e) => r == Err::<u64, Error>(e),
            },
    {
        match response {
            Ok(Response::Update(result)) => Ok(result.matched_count),
            Ok(_) => Err(
                crate::error::runtime(String::from_str("incorrect response from blocking client")),
            ),
            Err(e) => Err(e),
        }
    }
}

impl<C: Collection> Default for Update<C> {
    fn default() -> (r: Self)
        ensures
            r.filter_spec() is None,
            r.many_spec(),
            r.options_spec() == (UpdateOptions {
                array_filters: None,
                bypass_document_validation: None,
                upsert: None,
                collation: None,
                hint: None,
                write_concern: None,
            }),
    {
        Self::new()
    }
}

} // verus!
