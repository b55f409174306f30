//! The options that queries carry to the database driver.

use vstd::prelude::*;
use std::collections::HashMap;
use std::time::Duration;
use crate::bson::Document;

verus! {

/// The level of comparison of a collation.
#[derive(Clone, Copy, Debug, PartialEq, Eq, Structural)]
pub enum CollationStrength {
    Primary,
    Secondary,
    Tertiary,
    Quaternary,
    Identical,
}

/// Which case sorts first under a collation.
#[derive(Clone, Copy, Debug, PartialEq, Eq, Structural)]
pub enum CollationCaseFirst {
    Upper,
    Lower,
    Off,
}

/// Whether a collation considers whitespace and punctuation.
#[derive(Clone, Copy, Debug, PartialEq, Eq, Structural)]
pub enum CollationAlternate {
    NonIgnorable,
    Shifted,
}

/// Which characters a collation may ignore.
#[derive(Clone, Copy, Debug, PartialEq, Eq, Structural)]
pub enum CollationMaxVariable {
    Punct,
    Space,
}

/// Language-specific rules for the comparison of strings.
#[derive(Clone, Debug, PartialEq, Eq)]
pub struct Collation {
    pub locale: String,
    pub strength: Option<CollationStrength>,
    pub case_level: Option<bool>,
    pub case_first: Option<CollationCaseFirst>,
    pub numeric_ordering: Option<bool>,
    pub alternate: Option<CollationAlternate>,
    pub max_variable: Option<CollationMaxVariable>,
    pub normalization: Option<bool>,
    pub backwards: Option<bool>,
}

/// The index that supports a query.
#[derive(Clone, Debug, PartialEq)]
pub enum Hint {
    /// The keys of the index.
    Keys(Document),
    /// The name of the index.
    Name(String),
}

/// How many members of a replica set have to acknowledge a write.
#[derive(Clone, Debug, PartialEq, Eq)]
pub enum Acknowledgment {
    /// That many members.
    Nodes(u32),
    /// The majority of the members.
    Majority,
    /// The members that a custom rule names.
    Custom(String),
}

/// The acknowledgment that a write waits for.
#[derive(Clone, Debug, PartialEq, Eq)]
pub struct WriteConcern {
    pub w: Option<Acknowledgment>,
    /// The time that the write may wait, in milliseconds.
    pub w_timeout: Option<u64>,
    pub journal: Option<bool>,
}

/// The consistency that reads ask for.
#[derive(Clone, Debug, PartialEq, Eq)]
pub enum ReadConcernLevel {
    Local,
    Majority,
    Linearizable,
    Available,
    Custom(String),
}

/// The consistency of a read.
#[derive(Clone, Debug, PartialEq, Eq)]
pub struct ReadConcern {
    pub level: ReadConcernLevel,
}

/// The kind of cursor that a query returns.
#[derive(Clone, Copy, Debug, PartialEq, Eq, Structural)]
pub enum CursorType {
    NonTailable,
    Tailable,
    TailableAwait,
}

/// What narrows the members that a read may go to.
#[derive(Clone, Debug, PartialEq, Eq)]
pub struct ReadPreferenceOptions {
    /// The sets of tags, each a list of names with their values.
    pub tag_sets: Option<Vec<Vec<(String, String)>>>,
    /// How far a member may lag behind, in seconds.
    pub max_staleness: Option<u64>,
}

/// The members of a replica set that a read may go to.
#[derive(Clone, Debug, PartialEq, Eq)]
pub enum ReadPreference {
    Primary,
    Secondary { options: ReadPreferenceOptions },
    PrimaryPreferred { options: ReadPreferenceOptions },
    SecondaryPreferred { options: ReadPreferenceOptions },
    Nearest { options: ReadPreferenceOptions },
}

/// How the server of an operation is selected.
#[derive(Clone, Debug, PartialEq, Eq)]
pub enum SelectionCriteria {
    ReadPreference(ReadPreference),
}

/// The options of a delete.
#[derive(Clone, Debug, PartialEq)]
pub struct DeleteOptions {
    pub collation: Option<Collation>,
    pub write_concern: Option<WriteConcern>,
    pub hint: Option<Hint>,
}

/// The options of a find.
#[derive(Clone, Debug, PartialEq)]
pub struct FindOptions {
    pub allow_disk_use: Option<bool>,
    pub allow_partial_results: Option<bool>,
    pub batch_size: Option<u32>,
    pub comment: Option<String>,
    pub cursor_type: Option<CursorType>,
    pub hint: Option<Hint>,
    pub limit: Option<i64>,
    pub max: Option<Document>,
    pub max_await_time: Option<Duration>,
    pub max_scan: Option<i64>,
    pub max_time: Option<Duration>,
    pub min: Option<Document>,
    pub no_cursor_timeout: Option<bool>,
    pub projection: Option<Document>,
    pub read_concern: Option<ReadConcern>,
    pub return_key: Option<bool>,
    pub selection_criteria: Option<SelectionCriteria>,
    pub show_record_id: Option<bool>,
    pub skip: Option<i64>,
    pub sort: Option<Document>,
    pub collation: Option<Collation>,
}

/// The options of an insert.
#[derive(Clone, Debug, PartialEq, Eq)]
pub struct InsertManyOptions {
    pub bypass_document_validation: Option<bool>,
    pub ordered: Option<bool>,
    pub write_concern: Option<WriteConcern>,
}

/// The options of a replace.
#[derive(Clone, Debug, PartialEq)]
pub struct ReplaceOptions {
    pub bypass_document_validation: Option<bool>,
    pub upsert: Option<bool>,
    pub collation: Option<Collation>,
    pub hint: Option<Hint>,
    pub write_concern: Option<WriteConcern>,
}

/// The options of an update.
#[derive(Clone, Debug, PartialEq)]
pub struct UpdateOptions {
    pub array_filters: Option<Vec<Document>>,
    pub bypass_document_validation: Option<bool>,
    pub upsert: Option<bool>,
    pub collation: Option<Collation>,
    pub hint: Option<Hint>,
    pub write_concern: Option<WriteConcern>,
}

/// What the driver reports after a delete.
#[derive(Clone, Debug, PartialEq, Eq)]
pub struct DeleteResult {
    pub deleted_count: u64,
}

/// What the driver reports after an insert: the identifier given to each
/// document, by the position of the document.
#[derive(Clone, Debug, PartialEq)]
pub struct InsertManyResult {
    pub inserted_ids: HashMap<usize, crate::bson::Bson>,
}

/// What the driver reports after an update or a replace.
#[derive(Clone, Debug, PartialEq)]
pub struct UpdateResult {
    pub matched_count: u64,
    pub modified_count: u64,
    pub upserted_id: Option<crate::bson::Bson>,
}

/// The address of a server.
#[derive(Clone, Debug, PartialEq, Eq)]
pub struct ServerAddress {
    pub host: String,
    pub port: Option<u16>,
}

/// The way a client proves who it is.
#[derive(Clone, Copy, Debug, PartialEq, Eq, Structural)]
pub enum AuthMechanism {
    MongoDbCr,
    ScramSha1,
    ScramSha256,
    MongoDbX509,
    Gssapi,
    Plain,
    MongoDbOidc,
}

/// Who a client says it is.
#[derive(Clone, Debug, PartialEq)]
pub struct Credential {
    pub username: Option<String>,
    pub source: Option<String>,
    pub password: Option<String>,
    pub mechanism: Option<AuthMechanism>,
    pub mechanism_properties: Option<Document>,
}

/// How connections are secured.
#[derive(Clone, Debug, PartialEq, Eq)]
pub struct TlsOptions {
    pub allow_invalid_certificates: Option<bool>,
    pub ca_file_path: Option<String>,
    pub cert_key_file_path: Option<String>,
}

/// Whether connections are secured.
#[derive(Clone, Debug, PartialEq, Eq)]
pub enum Tls {
    Enabled(TlsOptions),
    Disabled,
}

/// The options that a client of the database is made with. Times are in
/// milliseconds.
#[derive(Clone, Debug, PartialEq)]
pub struct ClientOptions {
    pub host: ServerAddress,
    pub app_name: Option<String>,
    pub connect_timeout: Option<u64>,
    pub direct_connection: Option<bool>,
    pub heartbeat_freq: Option<u64>,
    pub local_threshold: Option<u64>,
    pub max_idle_time: Option<u64>,
    pub max_pool_size: Option<u32>,
    pub min_pool_size: Option<u32>,
    pub read_concern: Option<ReadConcern>,
    pub repl_set_name: Option<String>,
    pub retry_reads: Option<bool>,
    pub retry_writes: Option<bool>,
    pub server_selection_timeout: Option<u64>,
    pub write_concern: Option<WriteConcern>,
    pub selection_criteria: Option<SelectionCriteria>,
    pub credential: Option<Credential>,
    pub tls: Option<Tls>,
}

impl DeleteOptions {
    /// No option set.
    pub fn new() -> (o: DeleteOptions)
        ensures
            o == (DeleteOptions { collation: None, write_concern: None, hint: None }),
    {
        DeleteOptions { collation: None, write_concern: None, hint: None }
    }
}

impl FindOptions {
    /// No option set.
    pub open spec fn none() -> FindOptions {
        FindOptions {
            allow_disk_use: None,
            allow_partial_results: None,
            batch_size: None,
            comment: None,
            cursor_type: None,
            hint: None,
            limit: None,
            max: None,
            max_await_time: None,
            max_scan: None,
            max_time: None,
            min: None,
            no_cursor_timeout: None,
            projection: None,
            read_concern: None,
            return_key: None,
            selection_criteria: None,
            show_record_id: None,
            skip: None,
            sort: None,
            collation: None,
        }
    }

    /// No option set.
    pub fn new() -> (o: FindOptions)
        ensures
            o == FindOptions::none(),
    {
        FindOptions {
            allow_disk_use: None,
            allow_partial_results: None,
            batch_size: None,
            comment: None,
            cursor_type: None,
            hint: None,
            limit: None,
            max: None,
            max_await_time: None,
            max_scan: None,
            max_time: None,
            min: None,
            no_cursor_timeout: None,
            projection: None,
            read_concern: None,
            return_key: None,
            selection_criteria: None,
            show_record_id: None,
            skip: None,
            sort: None,
            collation: None,
        }
    }
}

impl InsertManyOptions {
    /// No option set.
    pub fn new() -> (o: InsertManyOptions)
        ensures
            o == (InsertManyOptions {
                bypass_document_validation: None,
                ordered: None,
                write_concern: None,
            }),
    {
        InsertManyOptions { bypass_document_validation: None, ordered: None, write_concern: None }
    }
}

impl ReplaceOptions {
    /// No option set.
    pub fn new() -> (o: ReplaceOptions)
        ensures
            o == (ReplaceOptions {
                bypass_document_validation: None,
                upsert: None,
                collation: None,
                hint: None,
                write_concern: None,
            }),
    {
        ReplaceOptions {
            bypass_document_validation: None,
            upsert: None,
            collation: None,
            hint: None,
            write_concern: None,
        }
    }
}

impl UpdateOptions {
    /// No option set.
    pub fn new() -> (o: UpdateOptions)
        ensures
            o == (UpdateOptions {
                array_filters: None,
                bypass_document_validation: None,
                upsert: None,
                collation: None,
                hint: None,
                write_concern: None,
            }),
    {
        UpdateOptions {
            array_filters: None,
            bypass_document_validation: None,
            upsert: None,
            collation: None,
            hint: None,
            write_concern: None,
        }
    }
}

} // verus!
