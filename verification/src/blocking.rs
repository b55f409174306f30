//! What a blocking client and its queries say to each other.
//!
//! A blocking client hands each request to the thread that talks to the
//! database and waits for the response.

use vstd::prelude::*;
use crate::bson::Document;
use crate::client;
use crate::client::Client;
use crate::client::Settings;
use crate::options::DeleteOptions;
use crate::options::DeleteResult;
use crate::options::FindOptions;
use crate::options::InsertManyOptions;
use crate::options::InsertManyResult;
use crate::options::ReplaceOptions;
use crate::options::UpdateOptions;
use crate::options::UpdateResult;

verus! {

/// What a query asks of the database.
#[derive(Debug, PartialEq)]
pub enum Request {
    /// Delete from the named collection the documents that match the filter:
    /// all of them where the flag is set, else one.
    Delete(bool, &'static str, Document, DeleteOptions),
    /// Find in the named collection the documents that match the filter.
    Find(&'static str, Option<Document>, FindOptions),
    /// Insert the documents into the named collection.
    Insert(&'static str, Vec<Document>, InsertManyOptions),
    /// Replace in the named collection a document that matches the filter by
    /// the given document.
    Replace(&'static str, Document, Document, ReplaceOptions),
    /// Apply the updates in the named collection to the documents that match
    /// the filter: to all of them where the flag is set, else to one.
    Update(bool, &'static str, Document, Document, UpdateOptions),
}

/// What the database answers. `K` is the type of the cursors that the
/// client hands out.
#[derive(Debug, PartialEq)]
pub enum Response<K> {
    Delete(DeleteResult),
    Find(K),
    Insert(InsertManyResult),
    Replace(UpdateResult),
    Update(UpdateResult),
}

/// A `ClientBuilder` can be used to create a blocking `Client` with custom
/// configuration.
pub struct ClientBuilder {
    builder: client::ClientBuilder,
}

impl ClientBuilder {
    /// The settings made so far.
    pub closed spec fn settings(self) -> Settings {
        self.builder.settings()
    }

    /// The builder of the configuration.
    pub closed spec fn inner(self) -> client::ClientBuilder {
        self.builder
    }

    /// Constructs a new `ClientBuilder`, with nothing set.
    pub fn new() -> (b: ClientBuilder)
        ensures
            b.settings() == (Settings {
                ca: None,
                cert_key: None,
                database: None,
                password: None,
                uri: None,
                username: None,
            }),
    {
        ClientBuilder { builder: client::ClientBuilder::new() }
    }

    /// Returns the configuration of a `Client` built from this
    /// `ClientBuilder`.
    ///
    /// # Errors
    ///
    /// This method fails if the connection string is no URL, or with the
    /// first of its options that cannot be read.
    pub fn build(self) -> (r: crate::error::Result<Client>)
        ensures
            self.inner().builds(r),
    {
        self.builder.build()
    }

    /// Sets the username/password that should be used by this client. An
    /// earlier password stays where none is given.
    pub fn auth(self, username: &str, password: Option<&str>) -> (b: ClientBuilder)
        ensures
            b.settings().username is Some,
            b.settings().username->Some_0@ == username@,
            match password {
                Some(p) => b.settings().password is Some && b.settings().password->Some_0@ == p@,
                None => b.settings().password == self.settings().password,
            },
            b.settings().ca == self.settings().ca,
            b.settings().cert_key == self.settings().cert_key,
            b.settings().database == self.settings().database,
            b.settings().uri == self.settings().uri,
    {
        ClientBuilder { builder: self.builder.auth(username, password) }
    }

    /// Sets the CA file that should be used by this client for TLS.
    pub fn ca(self, path: &str) -> (b: ClientBuilder)
        ensures
            b.settings().ca is Some,
            b.settings().ca->Some_0@ == path@,
            b.settings().cert_key == self.settings().cert_key,
            b.settings().database == self.settings().database,
            b.settings().password == self.settings().password,
            b.settings().uri == self.settings().uri,
            b.settings().username == self.settings().username,
    {
        ClientBuilder { builder: self.builder.ca(path) }
    }

    /// Sets the certificate file that should be used by this client for
    /// identification.
    pub fn cert_key(self, path: &str) -> (b: ClientBuilder)
        ensures
            b.settings().cert_key is Some,
            b.settings().cert_key->Some_0@ == path@,
            b.settings().ca == self.settings().ca,
            b.settings().database == self.settings().database,
            b.settings().password == self.settings().password,
            b.settings().uri == self.settings().uri,
            b.settings().username == self.settings().username,
    {
        ClientBuilder { builder: self.builder.cert_key(path) }
    }

    /// Sets the database that should be used by this client.
    pub fn database(self, database: &str) -> (b: ClientBuilder)
        ensures
            b.settings().database is Some,
            b.settings().database->Some_0@ == database@,
            b.settings().ca == self.settings().ca,
            b.settings().cert_key == self.settings().cert_key,
            b.settings().password == self.settings().password,
            b.settings().uri == self.settings().uri,
            b.settings().username == self.settings().username,
    {
        ClientBuilder { builder: self.builder.database(database) }
    }

    /// Sets the uri that this client should use to connect to a mongo
    /// instance.
    pub fn uri(self, uri: &str) -> (b: ClientBuilder)
        ensures
            b.settings().uri is Some,
            b.settings().uri->Some_0@ == uri@,
            b.settings().ca == self.settings().ca,
            b.settings().cert_key == self.settings().cert_key,
            b.settings().database == self.settings().database,
            b.settings().password == self.settings().password,
            b.settings().username == self.settings().username,
    {
        ClientBuilder { builder: self.builder.uri(uri) }
    }
}

impl Default for ClientBuilder {
    fn default() -> (b: Self)
        ensures
            b.settings() == (Settings {
                ca: None,
                cert_key: None,
                database: None,
                password: None,
                uri: None,
                username: None,
            }),
    {
        Self::new()
    }
}

} // verus!
