//! Finding documents.

use vstd::prelude::*;
use vstd::string::StringExecFns;
use std::marker::PhantomData;
use std::time::Duration;
use crate::blocking::Request;
use crate::blocking::Response;
use crate::bson::Document;
use crate::collection::Collection;
use crate::collection::named;
use crate::error::Error;
use crate::field::AsField;
use crate::field::Field;
use crate::filter::AsFilter;
use crate::filter::Filter;
use crate::filter::filter_written;
use crate::options::Collation;
use crate::options::CursorType;
use crate::options::FindOptions;
use crate::options::Hint;
use crate::options::ReadConcern;
use crate::options::SelectionCriteria;
use crate::query::wrong_response;
use crate::sort::Sort;
use crate::sort::sort_written;
use vstd::std_specs::convert::IntoSpec;

verus! {

/// A querier to find documents in a MongoDB collection.
pub struct Find<C: Collection> {
    filter: Option<Document>,
    options: FindOptions,
    query_type: PhantomData<C>,
}

impl<C: Collection> Find<C> {
    /// The options set so far.
    pub closed spec fn options_spec(self) -> FindOptions {
        self.options
    }

    /// The filter set so far.
    pub closed spec fn filter_spec(self) -> Option<Document> {
        self.filter
    }

    /// Constructs a `Find` querier: without filter and with no option set.
    pub fn new() -> (r: Self)
        ensures
            r.filter_spec() is None,
            r.options_spec() == FindOptions::none(),
    {
        Find { filter: None, options: FindOptions::new(), query_type: PhantomData }
    }

    /// Enables writing to temporary files by the server.
    ///
    /// When set to true, the find operation can write data to the `_tmp`
    /// subdirectory in the `dbPath` directory. No other option changes.
    pub fn allow_disk_use(self, enable: bool) -> (r: Self)
        ensures
            r.options_spec() == (FindOptions { allow_disk_use: Some(enable), ..self.options_spec() }),
            r.filter_spec() == self.filter_spec(),
    {
        let mut q = self;
        q.options.allow_disk_use = Some(enable);
        q
    }

    /// Enables partial results.
    ///
    /// If true, partial results will be returned from a mongodb rather than an
    /// error being returned if one or more shards is down.
    pub fn allow_partial_results(self, enable: bool) -> (r: Self)
        ensures
            r.options_spec() == (FindOptions { allow_partial_results: Some(enable), ..self.options_spec() }),
            r.filter_spec() == self.filter_spec(),
    {
        let mut q = self;
        q.options.allow_partial_results = Some(enable);
        q
    }

    /// The number of documents the server should return per cursor batch.
    pub fn batch_size(self, size: u32) -> (r: Self)
        ensures
            r.options_spec() == (FindOptions { batch_size: Some(size), ..self.options_spec() }),
            r.filter_spec() == self.filter_spec(),
    {
        let mut q = self;
        q.options.batch_size = Some(size);
        q
    }

    /// The collation to use for the operation.
    ///
    /// Collation allows users to specify language-specific rules for string
    /// comparison, such as rules for lettercase and accent marks.
    pub fn collation(self, value: Collation) -> (r: Self)
        ensures
            r.options_spec() == (FindOptions { collation: Some(value), ..self.options_spec() }),
            r.filter_spec() == self.filter_spec(),
    {
        let mut q = self;
        q.options.collation = Some(value);
        q
    }

    /// Tags the query with an arbitrary string.
    ///
    /// Used to help trace the operation through the database profiler,
    /// currentOp and logs.
    pub fn comment(self, value: String) -> (r: Self)
        ensures
            r.options_spec() == (FindOptions { comment: Some(value), ..self.options_spec() }),
            r.filter_spec() == self.filter_spec(),
    {
        let mut q = self;
        q.options.comment = Some(value);
        q
    }

    /// The type of cursor to return.
    pub fn cursor_type(self, cursor_type: CursorType) -> (r: Self)
        ensures
            r.options_spec() == (FindOptions { cursor_type: Some(cursor_type), ..self.options_spec() }),
            r.filter_spec() == self.filter_spec(),
    {
        let mut q = self;
        q.options.cursor_type = Some(cursor_type);
        q
    }

    /// The filter to use for the operation.
    ///
    /// # Errors
    ///
    /// This method errors if the filter could not be converted into a BSON
    /// `Document`; the error is that of the conversion.
    pub fn filter<F>(self, filter: F) -> (r: crate::error::Result<Self>) where
        C: AsFilter<F>,
        F: Filter,

        ensures
            match r {
                Ok(q) => {
                    &&& q.filter_spec() is Some
                    &&& filter_written(filter, Ok::<Document, Error>(q.filter_spec()->Some_0))
                    &&& q.options_spec() == self.options_spec()
                },
                Err(e) => filter_written(filter, Err::<Document, Error>(e)),
            },
    {
        let mut q = self;
        match filter.into_document() {
            Ok(d) => {
                q.filter = Some(d);
                Ok(q)
            },
            Err(e) => Err(e),
        }
    }

    /// A document or string that specifies the index to use to support the
    /// query predicate.
    pub fn hint(self, value: Hint) -> (r: Self)
        ensures
            r.options_spec() == (FindOptions { hint: Some(value), ..self.options_spec() }),
            r.filter_spec() == self.filter_spec(),
    {
        let mut q = self;
        q.options.hint = Some(value);
        q
    }

    /// The maximum number of documents to query.
    ///
    /// If a negative number is specified, the documents will be returned in a
    /// single batch limited in number by the positive value of the specified
    /// limit.
    pub fn limit(self, value: i64) -> (r: Self)
        ensures
            r.options_spec() == (FindOptions { limit: Some(value), ..self.options_spec() }),
            r.filter_spec() == self.filter_spec(),
    {
        let mut q = self;
        q.options.limit = Some(value);
        q
    }

    /// The exclusive upper bound for a specific index.
    pub fn max(self, document: Document) -> (r: Self)
        ensures
            r.options_spec() == (FindOptions { max: Some(document), ..self.options_spec() }),
            r.filter_spec() == self.filter_spec(),
    {
        let mut q = self;
        q.options.max = Some(document);
        q
    }

    /// The maximum amount of time for the server to wait on new documents to
    /// satisfy a tailable cursor query.
    ///
    /// If the cursor is not tailable, this option is ignored.
    pub fn max_await_time(self, duration: Duration) -> (r: Self)
        ensures
            r.options_spec() == (FindOptions { max_await_time: Some(duration), ..self.options_spec() }),
            r.filter_spec() == self.filter_spec(),
    {
        let mut q = self;
        q.options.max_await_time = Some(duration);
        q
    }

    /// Maximum number of documents or index keys to scan when executing the
    /// query.
    pub fn max_scan(self, value: i64) -> (r: Self)
        ensures
            r.options_spec() == (FindOptions { max_scan: Some(value), ..self.options_spec() }),
            r.filter_spec() == self.filter_spec(),
    {
        let mut q = self;
        q.options.max_scan = Some(value);
        q
    }

    /// The maximum amount of time to allow the query to run.
    pub fn max_time(self, duration: Duration) -> (r: Self)
        ensures
            r.options_spec() == (FindOptions { max_time: Some(duration), ..self.options_spec() }),
            r.filter_spec() == self.filter_spec(),
    {
        let mut q = self;
        q.options.max_time = Some(duration);
        q
    }

    /// The inclusive lower bound for a specific index.
    pub fn min(self, document: Document) -> (r: Self)
        ensures
            r.options_spec() == (FindOptions { min: Some(document), ..self.options_spec() }),
            r.filter_spec() == self.filter_spec(),
    {
        let mut q = self;
        q.options.min = Some(document);
        q
    }

    /// Whether the server should close the cursor after a period of
    /// inactivity.
    pub fn no_cursor_timeout(self, enable: bool) -> (r: Self)
        ensures
            r.options_spec() == (FindOptions { no_cursor_timeout: Some(enable), ..self.options_spec() }),
            r.filter_spec() == self.filter_spec(),
    {
        let mut q = self;
        q.options.no_cursor_timeout = Some(enable);
        q
    }

    /// Limits the fields of the document being returned.
    pub fn projection(self, document: Document) -> (r: Self)
        ensures
            r.options_spec() == (FindOptions { projection: Some(document), ..self.options_spec() }),
            r.filter_spec() == self.filter_spec(),
    {
        let mut q = self;
        q.options.projection = Some(document);
        q
    }

    /// The read concern to use for this find query.
    ///
    /// If none specified, the default set on the collection will be used.
    pub fn read_concern(self, concern: ReadConcern) -> (r: Self)
        ensures
            r.options_spec() == (FindOptions { read_concern: Some(concern), ..self.options_spec() }),
            r.filter_spec() == self.filter_spec(),
    {
        let mut q = self;
        q.options.read_concern = Some(concern);
        q
    }

    /// Whether to return only the index keys in the documents.
    pub fn return_key(self, enable: bool) -> (r: Self)
        ensures
            r.options_spec() == (FindOptions { return_key: Some(enable), ..self.options_spec() }),
            r.filter_spec() == self.filter_spec(),
    {
        let mut q = self;
        q.options.return_key = Some(enable);
        q
    }

    /// The criteria used to select a server for this find query.
    ///
    /// If none specified, the default set on the collection will be used.
    pub fn selection_criteria(self, criteria: SelectionCriteria) -> (r: Self)
        ensures
            r.options_spec() == (FindOptions { selection_criteria: Some(criteria), ..self.options_spec() }),
            r.filter_spec() == self.filter_spec(),
    {
        let mut q = self;
        q.options.selection_criteria = Some(criteria);
        q
    }

    /// Whether to return the record identifier for each document.
    pub fn show_record_id(self, enable: bool) -> (r: Self)
        ensures
            r.options_spec() == (FindOptions { show_record_id: Some(enable), ..self.options_spec() }),
            r.filter_spec() == self.filter_spec(),
    {
        let mut q = self;
        q.options.show_record_id = Some(enable);
        q
    }

    /// The number of documents to skip before counting.
    pub fn skip(self, value: i64) -> (r: Self)
        ensures
            r.options_spec() == (FindOptions { skip: Some(value), ..self.options_spec() }),
            r.filter_spec() == self.filter_spec(),
    {
        let mut q = self;
        q.options.skip = Some(value);
        q
    }

    /// The order in which to sort the documents of the operation.
    pub fn sort<F>(self, sort: Sort<F>) -> (r: Self) where
        C: AsField<F>,
        F: Field + Into<String>,

        ensures
            r.options_spec().sort is Some,
            sort_written(sort.0@, r.options_spec().sort->Some_0@),
            r.options_spec() == (FindOptions {
                sort: r.options_spec().sort,
                ..self.options_spec()
            }),
            r.filter_spec() == self.filter_spec(),
    {
        let mut q = self;
        q.options.sort = Some(sort.into_document());
        q
    }

    /// What is asked of the database: to find in the collection of `C` the
    /// documents that match the filter, or every document where no filter was
    /// set.
    pub fn request(self) -> (r: Request)
        ensures
            r is Find,
            named::<C>(r->Find_0),
            r->Find_1 == self.filter_spec(),
            r->Find_2 == self.options_spec(),
    {
        Request::Find(C::COLLECTION, self.filter, self.options)
    }

    /// What the query returns for the answer of the database: the cursor over
    /// the documents found. An error of the database is handed on; an answer
    /// to another kind of request is a runtime error.
    pub fn blocking<K>(response: crate::error::Result<Response<K>>) -> (r: crate::error::Result<K>)
        ensures
            match response {
                Ok(Response::Find(cursor)) => r == Ok::<K, Error>(cursor),
                Ok(_) => r is Err && r->Err_0@ == wrong_response(),
                Err(e) => r == Err::<K, Error>(e),
            },
    {
        match response {
            Ok(Response::Find(cursor)) => Ok(cursor),
            Ok(_) => Err(
                crate::error::runtime(String::from_str("incorrect response from blocking client")),
            ),
            Err(e) => Err(e),
        }
    }
}

impl<C: Collection> Default for Find<C> {
    fn default() -> (r: Self)
        ensures
            r.filter_spec() is None,
            r.options_spec() == FindOptions::none(),
    {
        Self::new()
    }
}

} // verus!
