//! The configuration of a client of the database.
//!
//! A client is configured from a connection string and from the settings of
//! its builder. The options of the connection string are read in a fixed
//! order, and the first one that cannot be read is reported. The settings of
//! the builder take precedence over the connection string.

use vstd::prelude::*;
use crate::ext::bson::entries_of;
use crate::ext::bson::map_entries;
use std::collections::HashMap;
use vstd::string::StringExecFns;
use crate::blocking::Request;
use crate::blocking::Response;
use crate::bson::Bson;
use crate::bson::BsonView;
use crate::bson::Document;
use crate::bson::ObjectId;
use crate::collection::Collection;
use crate::collection::named;
use crate::collection::written;
use crate::filter::AsFilter;
use crate::filter::Filter;
use crate::filter::filter_written;
use crate::options::DeleteOptions;
use crate::options::FindOptions;
use crate::options::InsertManyOptions;
use crate::options::ReplaceOptions;
use crate::options::UpdateOptions;
use crate::query;
use crate::query::insert::all_written;
use crate::query::wrong_response;
use crate::update::AsUpdate;
use crate::update::Update;
use crate::update::Updates;
use crate::update::updates_written;
use crate::bson::DocumentView;
use crate::bson::inserted;
use crate::error::Error;
use crate::error::ErrorView;
use crate::error::Kind;
use crate::options::Acknowledgment;
use crate::options::AuthMechanism;
use crate::options::ClientOptions;
use crate::options::Credential;
use crate::options::ReadConcern;
use crate::options::ReadConcernLevel;
use crate::options::ReadPreference;
use crate::options::ReadPreferenceOptions;
use crate::options::SelectionCriteria;
use crate::options::ServerAddress;
use crate::options::Tls;
use crate::options::TlsOptions;
use crate::options::WriteConcern;
use crate::parse::IntFailure;
use crate::parse::bool_spec;
use crate::parse::not_bool;
use crate::parse::parse_bool;
use crate::parse::parse_unsigned;
use crate::parse::split;
use crate::parse::split_spec;
use crate::parse::texts;
use crate::parse::unsigned_spec;

verus! {

/// The connection string that is used where none is set.
pub const DEFAULT_URI: &'static str = "mongodb://127.0.0.1:27017";

/// The database that is used where none is set.
pub const DEFAULT_DATABASE: &'static str = "db";

/// The host that is used where the connection string names none.
pub const DEFAULT_HOST: &'static str = "127.0.0.1";

/// The parts of a connection string.
#[derive(Debug, PartialEq, Eq)]
pub struct Uri {
    pub host: Option<String>,
    pub port: Option<u16>,
    /// The user name, which is empty where the string holds none.
    pub username: String,
    pub password: Option<String>,
    /// The options of the query, in the order of the string.
    pub query: Vec<(String, String)>,
}

/// The mathematical value of a [`Uri`].
pub struct UriView {
    pub host: Option<Seq<char>>,
    pub port: Option<u16>,
    pub username: Seq<char>,
    pub password: Option<Seq<char>>,
    pub query: Seq<(Seq<char>, Seq<char>)>,
}

impl View for Uri {
    type V = UriView;

    open spec fn view(&self) -> UriView {
        UriView {
            host: match self.host {
                Some(h) => Some(h@),
                None => None,
            },
            port: self.port,
            username: self.username@,
            password: match self.password {
                Some(p) => Some(p@),
                None => None,
            },
            query: Seq::new(self.query@.len(), |i: int| (self.query@[i].0@, self.query@[i].1@)),
        }
    }
}

/// The parts that the `url` crate reads from a connection string, or the
/// text in which it says why the string is no URL.
pub uninterp spec fn url_parsed(uri: Seq<char>) -> Result<UriView, Seq<char>>;

/// The text in which the database driver refuses a name that is the name of
/// no authentication mechanism.
pub uninterp spec fn mechanism_refused(name: Seq<char>) -> Seq<char>;

/// The authentication mechanism that a name stands for, if it stands for
/// one.
pub open spec fn mechanism_spec(name: Seq<char>) -> Option<AuthMechanism> {
    if name == "SCRAM-SHA-1"@ {
        Some(AuthMechanism::ScramSha1)
    } else if name == "SCRAM-SHA-256"@ {
        Some(AuthMechanism::ScramSha256)
    } else if name == "MONGODB-CR"@ {
        Some(AuthMechanism::MongoDbCr)
    } else if name == "MONGODB-X509"@ {
        Some(AuthMechanism::MongoDbX509)
    } else if name == "GSSAPI"@ {
        Some(AuthMechanism::Gssapi)
    } else if name == "PLAIN"@ {
        Some(AuthMechanism::Plain)
    } else if name == "MONGODB-OIDC"@ {
        Some(AuthMechanism::MongoDbOidc)
    } else {
        None
    }
}

/// The mechanism that the database driver reads from the name of an
/// authentication mechanism, or the text in which it refuses the name.
pub open spec fn mechanism_named(name: Seq<char>) -> Result<AuthMechanism, Seq<char>> {
    match mechanism_spec(name) {
        Some(m) => Ok(m),
        None => Err(mechanism_refused(name)),
    }
}

/// Reads the parts of a connection string.
///
/// Trusted: calls `url::Url::parse` and hands on the host, the port, the user
/// name, the password and the decoded pairs of the query of the URL that it
/// returns, or the text of its error. All of these depend on the string alone.
#[verifier::external_body]
pub(crate) fn parse_uri(uri: &str) -> (r: Result<Uri, String>)
    ensures
        match r {
            Ok(u) => url_parsed(uri@) == Ok::<UriView, Seq<char>>(u@),
            Err(m) => url_parsed(uri@) == Err::<UriView, Seq<char>>(m@),
        },
{
    let url = url::Url::parse(uri).map_err(|e| e.to_string())?;
    Ok(Uri {
        host: url.host_str().map(|h| h.to_owned()),
        port: url.port(),
        username: url.username().to_owned(),
        password: url.password().map(|p| p.to_owned()),
        query: url.query_pairs().map(|(k, v)| (k.into_owned(), v.into_owned())).collect(),
    })
}

/// Reads the name of an authentication mechanism.
///
/// Trusted: calls `AuthMechanism::from_str` of the `mongodb` crate, which
/// knows a mechanism by exactly the seven names of [`mechanism_spec`] and
/// refuses every other name with a text that depends on the name alone. A
/// mechanism that has no counterpart in [`AuthMechanism`] counts as refused.
#[verifier::external_body]
pub(crate) fn auth_mechanism(name: &str) -> (r: Result<AuthMechanism, String>)
    ensures
        match r {
            Ok(m) => mechanism_spec(name@) == Some(m),
            Err(m) => mechanism_spec(name@) is None && m@ == mechanism_refused(name@),
        },
{
    match <mongodb::options::AuthMechanism as std::str::FromStr>::from_str(name) {
        Ok(mongodb::options::AuthMechanism::MongoDbCr) => Ok(AuthMechanism::MongoDbCr),
        Ok(mongodb::options::AuthMechanism::ScramSha1) => Ok(AuthMechanism::ScramSha1),
        Ok(mongodb::options::AuthMechanism::ScramSha256) => Ok(AuthMechanism::ScramSha256),
        Ok(mongodb::options::AuthMechanism::MongoDbX509) => Ok(AuthMechanism::MongoDbX509),
        Ok(mongodb::options::AuthMechanism::Gssapi) => Ok(AuthMechanism::Gssapi),
        Ok(mongodb::options::AuthMechanism::Plain) => Ok(AuthMechanism::Plain),
        Ok(mongodb::options::AuthMechanism::MongoDbOidc) => Ok(AuthMechanism::MongoDbOidc),
        Ok(other) => Err(format!("unsupported mechanism: {:?}", other)),
        Err(e) => Err(e.to_string()),
    }
}

/// The value of the error of kind [`Kind::Builder`] with the given
/// description.
pub open spec fn refused(source: Seq<char>) -> ErrorView {
    ErrorView { kind: Kind::Builder, source: Some(source) }
}

/// The value of the last option of the query that is called `key`.
pub open spec fn last_value(q: Seq<(String, String)>, key: Seq<char>) -> Option<String>
    decreases q.len(),
{
    if q.len() == 0 {
        None
    } else if q.last().0@ == key {
        Some(q.last().1)
    } else {
        last_value(q.drop_last(), key)
    }
}

/// The value of the last option of the query that is called `key`.
pub fn get(q: &Vec<(String, String)>, key: &str) -> (r: Option<String>)
    ensures
        r == last_value(q@, key@),
{
    let name = key.to_owned();
    let mut i: usize = q.len();
    assert(q@.take(i as int) =~= q@);
    while i > 0
        invariant
            i <= q.len(),
            name@ == key@,
            last_value(q@, key@) == last_value(q@.take(i as int), key@),
        decreases i,
    {
        proof {
            assert(q@.take(i as int).drop_last() =~= q@.take(i as int - 1));
            assert(q@.take(i as int).last() == q@[i as int - 1]);
        }
        i -= 1;
        if q[i].0 == name {
            return Some(q[i].1.clone());
        }
    }
    None
}

/// The number that an option of the query holds, where the option is
/// present and holds a number of at most `max`.
pub open spec fn number_of(q: Seq<(String, String)>, key: Seq<char>, max: nat) -> Option<nat> {
    match last_value(q, key) {
        Some(s) => match unsigned_spec(s@, max) {
            Ok(v) => Some(v),
            Err(_) => None,
        },
        None => None,
    }
}

/// The refusal of an option of the query that is present and holds no number
/// of at most `max`.
pub open spec fn number_failure(q: Seq<(String, String)>, key: Seq<char>, max: nat) -> Option<
    ErrorView,
> {
    match last_value(q, key) {
        Some(s) => match unsigned_spec(s@, max) {
            Ok(_) => None,
            Err(f) => Some(refused(f.description_spec())),
        },
        None => None,
    }
}

/// The boolean that an option of the query holds, where the option is
/// present and holds one.
pub open spec fn flag_of(q: Seq<(String, String)>, key: Seq<char>) -> Option<bool> {
    match last_value(q, key) {
        Some(s) => bool_spec(s@),
        None => None,
    }
}

/// The refusal of an option of the query that is present and holds no
/// boolean.
pub open spec fn flag_failure(q: Seq<(String, String)>, key: Seq<char>) -> Option<ErrorView> {
    match last_value(q, key) {
        Some(s) => if bool_spec(s@) is None {
            Some(refused(not_bool()))
        } else {
            None
        },
        None => None,
    }
}

/// The first of two refusals.
pub open spec fn first_of(a: Option<ErrorView>, b: Option<ErrorView>) -> Option<ErrorView> {
    if a is Some {
        a
    } else {
        b
    }
}

/// Reads the number that an option of the query holds.
fn number(q: &Vec<(String, String)>, key: &str, max: u64) -> (r: Result<Option<u64>, Error>)
    ensures
        match r {
            Ok(v) => number_failure(q@, key@, max as nat) is None && match v {
                Some(n) => number_of(q@, key@, max as nat) == Some(n as nat),
                None => number_of(q@, key@, max as nat) is None,
            },
            Err(e) => number_failure(q@, key@, max as nat) == Some(e@),
        },
{
    match get(q, key) {
        Some(s) => match parse_unsigned(s.as_str(), max) {
            Ok(v) => Ok(Some(v)),
            Err(f) => Err(crate::error::builder(String::from_str(f.description()))),
        },
        None => Ok(None),
    }
}

/// Reads a number of at most `u32::MAX` that an option of the query holds.
fn small_number(q: &Vec<(String, String)>, key: &str) -> (r: Result<Option<u32>, Error>)
    ensures
        match r {
            Ok(v) => number_failure(q@, key@, u32::MAX as nat) is None && match v {
                Some(n) => number_of(q@, key@, u32::MAX as nat) == Some(n as nat),
                None => number_of(q@, key@, u32::MAX as nat) is None,
            },
            Err(e) => number_failure(q@, key@, u32::MAX as nat) == Some(e@),
        },
{
    match number(q, key, 0xffff_ffff) {
        Ok(Some(v)) => Ok(Some(v as u32)),
        Ok(None) => Ok(None),
        Err(e) => Err(e),
    }
}

/// Reads the boolean that an option of the query holds.
fn flag(q: &Vec<(String, String)>, key: &str) -> (r: Result<Option<bool>, Error>)
    ensures
        match r {
            Ok(v) => flag_failure(q@, key@) is None && v == flag_of(q@, key@),
            Err(e) => flag_failure(q@, key@) == Some(e@),
        },
{
    match get(q, key) {
        Some(s) => match parse_bool(s.as_str()) {
            Some(b) => Ok(Some(b)),
            None => Err(
                crate::error::builder(
                    String::from_str("provided string was not `true` or `false`"),
                ),
            ),
        },
        None => Ok(None),
    }
}

/// The options that stand for themselves.
#[derive(Debug, PartialEq, Eq)]
pub struct Basics {
    pub app_name: Option<String>,
    pub connect_timeout: Option<u64>,
    pub direct_connection: Option<bool>,
    pub heartbeat_freq: Option<u64>,
    pub local_threshold: Option<u64>,
    pub max_idle_time: Option<u64>,
    pub max_pool_size: Option<u32>,
    pub min_pool_size: Option<u32>,
    pub read_concern: Option<ReadConcern>,
    pub repl_set_name: Option<String>,
    pub retry_reads: Option<bool>,
    pub retry_writes: Option<bool>,
    pub server_selection_timeout: Option<u64>,
}

/// The level of consistency that a word names.
pub open spec fn read_level(s: String) -> ReadConcernLevel {
    if s@ == "local"@ {
        ReadConcernLevel::Local
    } else if s@ == "majority"@ {
        ReadConcernLevel::Majority
    } else if s@ == "linearizable"@ {
        ReadConcernLevel::Linearizable
    } else if s@ == "available"@ {
        ReadConcernLevel::Available
    } else {
        ReadConcernLevel::Custom(s)
    }
}

/// A number as a time in milliseconds.
pub open spec fn as_u64(v: Option<nat>) -> Option<u64> {
    match v {
        Some(n) => Some(n as u64),
        None => None,
    }
}

/// A number as a count.
pub open spec fn as_u32(v: Option<nat>) -> Option<u32> {
    match v {
        Some(n) => Some(n as u32),
        None => None,
    }
}

/// The first option among those that stand for themselves that cannot be
/// read, in the order in which they are read.
pub open spec fn basics_failure(q: Seq<(String, String)>) -> Option<ErrorView> {
    first_of(
        number_failure(q, "connectTimeoutMS"@, u64::MAX as nat),
        first_of(
            flag_failure(q, "directConnection"@),
            first_of(
                number_failure(q, "heartbeatFrequencyMS"@, u64::MAX as nat),
                first_of(
                    number_failure(q, "localThresholdMS"@, u64::MAX as nat),
                    first_of(
                        number_failure(q, "maxIdleTimeMS"@, u64::MAX as nat),
                        first_of(
                            number_failure(q, "maxPoolSize"@, u32::MAX as nat),
                            first_of(
                                number_failure(q, "minPoolSize"@, u32::MAX as nat),
                                first_of(
                                    flag_failure(q, "retryReads"@),
                                    first_of(
                                        flag_failure(q, "retryWrites"@),
                                        number_failure(
                                            q,
                                            "serverSelectionTimeoutMS"@,
                                            u64::MAX as nat,
                                        ),
                                    ),
                                ),
                            ),
                        ),
                    ),
                ),
            ),
        ),
    )
}

/// The options that stand for themselves, as the query gives them.
pub open spec fn basics_spec(q: Seq<(String, String)>) -> Basics {
    Basics {
        app_name: last_value(q, "appName"@),
        connect_timeout: as_u64(number_of(q, "connectTimeoutMS"@, u64::MAX as nat)),
        direct_connection: flag_of(q, "directConnection"@),
        heartbeat_freq: as_u64(number_of(q, "heartbeatFrequencyMS"@, u64::MAX as nat)),
        local_threshold: as_u64(number_of(q, "localThresholdMS"@, u64::MAX as nat)),
        max_idle_time: as_u64(number_of(q, "maxIdleTimeMS"@, u64::MAX as nat)),
        max_pool_size: as_u32(number_of(q, "maxPoolSize"@, u32::MAX as nat)),
        min_pool_size: as_u32(number_of(q, "minPoolSize"@, u32::MAX as nat)),
        read_concern: match last_value(q, "readConcernLevel"@) {
            Some(s) => Some(ReadConcern { level: read_level(s) }),
            None => None,
        },
        repl_set_name: last_value(q, "replicaSet"@),
        retry_reads: flag_of(q, "retryReads"@),
        retry_writes: flag_of(q, "retryWrites"@),
        server_selection_timeout: as_u64(
            number_of(q, "serverSelectionTimeoutMS"@, u64::MAX as nat),
        ),
    }
}

/// Whether two strings hold the same text.
fn same(a: &String, b: &str) -> (r: bool)
    ensures
        r == (a@ == b@),
{
    *a == b.to_owned()
}

/// Reads the options that stand for themselves.
pub fn basics(q: &Vec<(String, String)>) -> (r: Result<Basics, Error>)
    ensures
        match r {
            Ok(b) => basics_failure(q@) is None && b == basics_spec(q@),
            Err(e) => basics_failure(q@) == Some(e@),
        },
{
    let app_name = get(q, "appName");
    let connect_timeout = match number(q, "connectTimeoutMS", u64::MAX) {
        Ok(v) => v,
        Err(e) => {
            return Err(e);
        },
    };
    let direct_connection = match flag(q, "directConnection") {
        Ok(v) => v,
        Err(e) => {
            return Err(e);
        },
    };
    let heartbeat_freq = match number(q, "heartbeatFrequencyMS", u64::MAX) {
        Ok(v) => v,
        Err(e) => {
            return Err(e);
        },
    };
    let local_threshold = match number(q, "localThresholdMS", u64::MAX) {
        Ok(v) => v,
        Err(e) => {
            return Err(e);
        },
    };
    let max_idle_time = match number(q, "maxIdleTimeMS", u64::MAX) {
        Ok(v) => v,
        Err(e) => {
            return Err(e);
        },
    };
    let max_pool_size = match small_number(q, "maxPoolSize") {
        Ok(v) => v,
        Err(e) => {
            return Err(e);
        },
    };
    let min_pool_size = match small_number(q, "minPoolSize") {
        Ok(v) => v,
        Err(e) => {
            return Err(e);
        },
    };
    let read_concern = match get(q, "readConcernLevel") {
        Some(s) => {
            let level = if same(&s, "local") {
                ReadConcernLevel::Local
            } else if same(&s, "majority") {
                ReadConcernLevel::Majority
            } else if same(&s, "linearizable") {
                ReadConcernLevel::Linearizable
            } else if same(&s, "available") {
                ReadConcernLevel::Available
            } else {
                ReadConcernLevel::Custom(s)
            };
            Some(ReadConcern { level })
        },
        None => None,
    };
    let repl_set_name = get(q, "replicaSet");
    let retry_reads = match flag(q, "retryReads") {
        Ok(v) => v,
        Err(e) => {
            return Err(e);
        },
    };
    let retry_writes = match flag(q, "retryWrites") {
        Ok(v) => v,
        Err(e) => {
            return Err(e);
        },
    };
    let server_selection_timeout = match number(q, "serverSelectionTimeoutMS", u64::MAX) {
        Ok(v) => v,
        Err(e) => {
            return Err(e);
        },
    };
    Ok(
        Basics {
            app_name,
            connect_timeout,
            direct_connection,
            heartbeat_freq,
            local_threshold,
            max_idle_time,
            max_pool_size,
            min_pool_size,
            read_concern,
            repl_set_name,
            retry_reads,
            retry_writes,
            server_selection_timeout,
        },
    )
}

/// The acknowledgment that a word asks for: that of so many members where
/// the word is a number, that of the majority for `majority`, and that of a
/// custom rule otherwise.
pub open spec fn acknowledgment_spec(w: String) -> Acknowledgment {
    match unsigned_spec(w@, u32::MAX as nat) {
        Ok(n) => Acknowledgment::Nodes(n as u32),
        Err(_) => if w@ == "majority"@ {
            Acknowledgment::Majority
        } else {
            Acknowledgment::Custom(w)
        },
    }
}

/// The option of the write concern that cannot be read, if any.
pub open spec fn write_concern_failure(q: Seq<(String, String)>) -> Option<ErrorView> {
    first_of(flag_failure(q, "journal"@), number_failure(q, "wTimeoutMS"@, u64::MAX as nat))
}

/// The write concern that the query asks for: none where the query has
/// none of its options.
pub open spec fn write_concern_spec(q: Seq<(String, String)>) -> Option<WriteConcern> {
    if last_value(q, "journal"@) is None && last_value(q, "w"@) is None && last_value(
        q,
        "wTimeoutMS"@,
    ) is None {
        None
    } else {
        Some(
            WriteConcern {
                w: match last_value(q, "w"@) {
                    Some(w) => Some(acknowledgment_spec(w)),
                    None => None,
                },
                w_timeout: as_u64(number_of(q, "wTimeoutMS"@, u64::MAX as nat)),
                journal: flag_of(q, "journal"@),
            },
        )
    }
}

/// Reads the write concern that the query asks for.
pub fn write_concern(q: &Vec<(String, String)>) -> (r: Result<Option<WriteConcern>, Error>)
    ensures
        match r {
            Ok(w) => write_concern_failure(q@) is None && w == write_concern_spec(q@),
            Err(e) => write_concern_failure(q@) == Some(e@),
        },
{
    let journal_text = get(q, "journal");
    let w_text = get(q, "w");
    let timeout_text = get(q, "wTimeoutMS");
    let journal = match flag(q, "journal") {
        Ok(v) => v,
        Err(e) => {
            return Err(e);
        },
    };
    let w_timeout = match number(q, "wTimeoutMS", u64::MAX) {
        Ok(v) => v,
        Err(e) => {
            return Err(e);
        },
    };
    if journal_text.is_none() && w_text.is_none() && timeout_text.is_none() {
        return Ok(None);
    }
    let w = match w_text {
        Some(w) => Some(
            match parse_unsigned(w.as_str(), 0xffff_ffff) {
                Ok(n) => Acknowledgment::Nodes(n as u32),
                Err(_) => if same(&w, "majority") {
                    Acknowledgment::Majority
                } else {
                    Acknowledgment::Custom(w)
                },
            },
        ),
        None => None,
    };
    Ok(Some(WriteConcern { w, w_timeout, journal }))
}

/// The name and the value that a piece of text holds around a single colon.
pub open spec fn pair_of(piece: Seq<char>) -> Option<(Seq<char>, Seq<char>)> {
    let parts = split_spec(piece, ':');
    if parts.len() == 2 {
        Some((parts[0], parts[1]))
    } else {
        None
    }
}

/// The names and values that pieces of text hold, where each piece holds
/// one.
pub open spec fn pairs_of(pieces: Seq<Seq<char>>) -> Option<Seq<(Seq<char>, Seq<char>)>>
    decreases pieces.len(),
{
    if pieces.len() == 0 {
        Some(Seq::empty())
    } else {
        match pairs_of(pieces.drop_last()) {
            None => None,
            Some(pairs) => match pair_of(pieces.last()) {
                Some(p) => Some(pairs.push(p)),
                None => None,
            },
        }
    }
}

/// The names and values of a list of the form `name:value,name:value`.
pub open spec fn pairs_spec(s: Seq<char>) -> Option<Seq<(Seq<char>, Seq<char>)>> {
    pairs_of(split_spec(s, ','))
}

/// The texts of a list of pairs of strings.
pub open spec fn pairs_view(pairs: Seq<(String, String)>) -> Seq<(Seq<char>, Seq<char>)> {
    Seq::new(pairs.len(), |i: int| (pairs[i].0@, pairs[i].1@))
}

/// Reads a list of the form `name:value,name:value`.
pub fn pairs(s: &str) -> (r: Option<Vec<(String, String)>>)
    ensures
        match r {
            Some(list) => pairs_spec(s@) == Some(pairs_view(list@)),
            None => pairs_spec(s@) is None,
        },
{
    let pieces = split(s, ',');
    let ghost all = texts(pieces@);
    let mut list: Vec<(String, String)> = Vec::new();
    let mut good = true;
    let mut i: usize = 0;
    assert(all.take(0) =~= Seq::empty());
    assert(pairs_view(list@) =~= Seq::empty());
    while i < pieces.len()
        invariant
            i <= pieces.len(),
            all == texts(pieces@),
            if good {
                pairs_of(all.take(i as int)) == Some(pairs_view(list@))
            } else {
                pairs_of(all.take(i as int)) is None
            },
        decreases pieces.len() - i,
    {
        proof {
            assert(all.take(i as int + 1).drop_last() =~= all.take(i as int));
            assert(all.take(i as int + 1).last() == pieces@[i as int]@);
        }
        if good {
            let parts = split(pieces[i].as_str(), ':');
            assert(texts(parts@).len() == parts@.len());
            if parts.len() == 2 {
                let ghost before = pairs_view(list@);
                assert(texts(parts@)[0] == parts@[0]@);
                assert(texts(parts@)[1] == parts@[1]@);
                list.push((parts[0].clone(), parts[1].clone()));
                assert(pairs_view(list@) =~= before.push((parts@[0]@, parts@[1]@)));
            } else {
                good = false;
            }
        }
        i += 1;
    }
    assert(all.take(all.len() as int) =~= all);
    if good {
        Some(list)
    } else {
        None
    }
}

/// The members that a word lets reads go to.
#[derive(Clone, Copy, Debug, PartialEq, Eq, Structural)]
pub enum ReadMode {
    Primary,
    Secondary,
    PrimaryPreferred,
    SecondaryPreferred,
    Nearest,
}

/// The read mode that a word names, if it names one.
pub open spec fn mode_spec(s: Seq<char>) -> Option<ReadMode> {
    if s == "primary"@ {
        Some(ReadMode::Primary)
    } else if s == "secondary"@ {
        Some(ReadMode::Secondary)
    } else if s == "primary_preferred"@ {
        Some(ReadMode::PrimaryPreferred)
    } else if s == "secondary_preferred"@ {
        Some(ReadMode::SecondaryPreferred)
    } else if s == "nearest"@ {
        Some(ReadMode::Nearest)
    } else {
        None
    }
}

/// Whether the query has an option of the read preference.
pub open spec fn wants_selection(q: Seq<(String, String)>) -> bool {
    ||| last_value(q, "maxStalenessSeconds"@) is Some
    ||| last_value(q, "readPreference"@) is Some
    ||| last_value(q, "readPreferenceTags"@) is Some
}

/// The refusal of tags that are no list of names with values.
pub open spec fn tags_failure(q: Seq<(String, String)>) -> Option<ErrorView> {
    match last_value(q, "readPreferenceTags"@) {
        Some(s) => if pairs_spec(s@) is None {
            Some(refused("tags must be kv pairs"@))
        } else {
            None
        },
        None => None,
    }
}

/// The refusal of a read preference that is not known.
pub open spec fn preference_failure(q: Seq<(String, String)>) -> Option<ErrorView> {
    match last_value(q, "readPreference"@) {
        Some(s) => if mode_spec(s@) is None {
            Some(refused("unknown read preference '"@ + s@ + "'"@))
        } else {
            None
        },
        None => None,
    }
}

/// The option of the read preference that cannot be read, if any.
pub open spec fn selection_failure(q: Seq<(String, String)>) -> Option<ErrorView> {
    first_of(
        number_failure(q, "maxStalenessSeconds"@, u64::MAX as nat),
        first_of(tags_failure(q), preference_failure(q)),
    )
}

/// Whether `o` holds what the query says of staleness and tags: the
/// staleness in seconds, and a single set of tags in the order of the query.
pub open spec fn read_options_match(q: Seq<(String, String)>, o: ReadPreferenceOptions) -> bool {
    &&& o.max_staleness == as_u64(number_of(q, "maxStalenessSeconds"@, u64::MAX as nat))
    &&& match last_value(q, "readPreferenceTags"@) {
        Some(s) => {
            &&& o.tag_sets is Some
            &&& o.tag_sets->Some_0@.len() == 1
            &&& pairs_spec(s@) == Some(pairs_view(o.tag_sets->Some_0@[0]@))
        },
        None => o.tag_sets is None,
    }
}

/// The mode of a read preference.
pub open spec fn mode_of(p: ReadPreference) -> ReadMode {
    match p {
        ReadPreference::Primary => ReadMode::Primary,
        ReadPreference::Secondary { options } => ReadMode::Secondary,
        ReadPreference::PrimaryPreferred { options } => ReadMode::PrimaryPreferred,
        ReadPreference::SecondaryPreferred { options } => ReadMode::SecondaryPreferred,
        ReadPreference::Nearest { options } => ReadMode::Nearest,
    }
}

/// Whether a read preference says what the query says of staleness and
/// tags. The primary alone takes neither.
pub open spec fn preference_options_match(q: Seq<(String, String)>, p: ReadPreference) -> bool {
    match p {
        ReadPreference::Primary => true,
        ReadPreference::Secondary { options } => read_options_match(q, options),
        ReadPreference::PrimaryPreferred { options } => read_options_match(q, options),
        ReadPreference::SecondaryPreferred { options } => read_options_match(q, options),
        ReadPreference::Nearest { options } => read_options_match(q, options),
    }
}

/// Whether `r` is the selection of servers that the query asks for: none
/// without a read preference, else the members that the preference names,
/// with the staleness and the tags of the query.
pub open spec fn selected(q: Seq<(String, String)>, r: Option<SelectionCriteria>) -> bool {
    match last_value(q, "readPreference"@) {
        Some(s) => {
            &&& r is Some
            &&& r->Some_0 is ReadPreference
            &&& mode_spec(s@) == Some(mode_of(r->Some_0->ReadPreference_0))
            &&& preference_options_match(q, r->Some_0->ReadPreference_0)
        },
        None => r is None,
    }
}

/// Reads the selection of servers that the query asks for.
pub fn selection(q: &Vec<(String, String)>) -> (r: Result<Option<SelectionCriteria>, Error>)
    ensures
        match r {
            Ok(s) => selection_failure(q@) is None && selected(q@, s),
            Err(e) => selection_failure(q@) == Some(e@),
        },
{
    let max_staleness = match number(q, "maxStalenessSeconds", u64::MAX) {
        Ok(v) => v,
        Err(e) => {
            return Err(e);
        },
    };
    let tag_sets = match get(q, "readPreferenceTags") {
        Some(s) => match pairs(s.as_str()) {
            Some(tags) => {
                let mut sets: Vec<Vec<(String, String)>> = Vec::new();
                sets.push(tags);
                Some(sets)
            },
            None => {
                return Err(crate::error::builder(String::from_str("tags must be kv pairs")));
            },
        },
        None => None,
    };
    let options = ReadPreferenceOptions { tag_sets, max_staleness };
    assert(read_options_match(q@, options));
    match get(q, "readPreference") {
        Some(s) => {
            let read = if same(&s, "primary") {
                ReadPreference::Primary
            } else if same(&s, "secondary") {
                ReadPreference::Secondary { options }
            } else if same(&s, "primary_preferred") {
                ReadPreference::PrimaryPreferred { options }
            } else if same(&s, "secondary_preferred") {
                ReadPreference::SecondaryPreferred { options }
            } else if same(&s, "nearest") {
                ReadPreference::Nearest { options }
            } else {
                return Err(
                    crate::error::builder(
                        String::from_str("unknown read preference '").concat(s.as_str()).concat(
                            "'",
                        ),
                    ),
                );
            };
            Ok(Some(SelectionCriteria::ReadPreference(read)))
        },
        None => Ok(None),
    }
}

/// The document of the properties of a mechanism: each value as a string
/// under its name, in order.
pub open spec fn document_of(pairs: Seq<(Seq<char>, Seq<char>)>) -> DocumentView
    decreases pairs.len(),
{
    if pairs.len() == 0 {
        Seq::empty()
    } else {
        inserted(document_of(pairs.drop_last()), pairs.last().0, BsonView::String(pairs.last().1))
    }
}

/// Writes the properties of a mechanism as a document.
fn properties(pairs: &Vec<(String, String)>) -> (d: Document)
    ensures
        d@ == document_of(pairs_view(pairs@)),
{
    let mut d = Document::new();
    let ghost all = pairs_view(pairs@);
    let mut i: usize = 0;
    assert(all.take(0) =~= Seq::empty());
    while i < pairs.len()
        invariant
            i <= pairs.len(),
            all == pairs_view(pairs@),
            d@ == document_of(all.take(i as int)),
        decreases pairs.len() - i,
    {
        proof {
            assert(all.take(i as int + 1).drop_last() =~= all.take(i as int));
            assert(all.take(i as int + 1).last() == (pairs@[i as int].0@, pairs@[i as int].1@));
        }
        let _ = d.insert(pairs[i].0.clone(), crate::bson::Bson::String(pairs[i].1.clone()));
        i += 1;
    }
    assert(all.take(all.len() as int) =~= all);
    d
}

/// Whether a credential is made: whether the builder or the connection
/// string names a user, or the query has an option of authentication.
pub open spec fn wants_credential(username: Option<String>, uri: Uri) -> bool {
    ||| uri.username@.len() != 0
    ||| username is Some
    ||| last_value(uri.query@, "authSource"@) is Some
    ||| last_value(uri.query@, "authMechanism"@) is Some
    ||| last_value(uri.query@, "authMechanismProperties"@) is Some
}

/// The refusal of a mechanism that the driver does not know.
pub open spec fn mechanism_failure(q: Seq<(String, String)>) -> Option<ErrorView> {
    match last_value(q, "authMechanism"@) {
        Some(s) => match mechanism_named(s@) {
            Ok(_) => None,
            Err(m) => Some(refused(m)),
        },
        None => None,
    }
}

/// The refusal of properties that are no list of names with values.
pub open spec fn properties_failure(q: Seq<(String, String)>) -> Option<ErrorView> {
    match last_value(q, "authMechanismProperties"@) {
        Some(s) => if pairs_spec(s@) is None {
            Some(refused("properties must be kv pairs"@))
        } else {
            None
        },
        None => None,
    }
}

/// The option of authentication that cannot be read, if any.
pub open spec fn credential_failure(q: Seq<(String, String)>) -> Option<ErrorView> {
    first_of(mechanism_failure(q), properties_failure(q))
}

/// The first of two optional strings.
pub open spec fn or(a: Option<String>, b: Option<String>) -> Option<String> {
    if a is Some {
        a
    } else {
        b
    }
}

/// Whether `r` is the credential that the builder and the connection string
/// ask for. The user and the password of the builder take precedence over
/// those of the connection string; a password counts only where there is a
/// user.
pub open spec fn credential_matches(
    username: Option<String>,
    password: Option<String>,
    uri: Uri,
    r: Option<Credential>,
) -> bool {
    let q = uri.query@;
    if !wants_credential(username, uri) {
        r is None
    } else {
        let named = username is Some || uri.username@.len() != 0;
        &&& r is Some
        &&& r->Some_0.username == if named {
            or(username, Some(uri.username))
        } else {
            None
        }
        &&& r->Some_0.password == if named {
            or(password, uri.password)
        } else {
            None
        }
        &&& r->Some_0.source == last_value(q, "authSource"@)
        &&& match last_value(q, "authMechanism"@) {
            Some(s) => mechanism_named(s@) == Ok::<AuthMechanism, Seq<char>>(
                r->Some_0.mechanism->Some_0,
            ) && r->Some_0.mechanism is Some,
            None => r->Some_0.mechanism is None,
        }
        &&& match last_value(q, "authMechanismProperties"@) {
            Some(s) => {
                &&& r->Some_0.mechanism_properties is Some
                &&& pairs_spec(s@) is Some
                &&& r->Some_0.mechanism_properties->Some_0@ == document_of(pairs_spec(s@)->Some_0)
            },
            None => r->Some_0.mechanism_properties is None,
        }
    }
}

/// Makes the credential that the builder and the connection string ask for.
pub fn credential(username: Option<String>, password: Option<String>, uri: &Uri) -> (r: Result<
    Option<Credential>,
    Error,
>)
    ensures
        match r {
            Ok(c) => (wants_credential(username, *uri) ==> credential_failure(uri.query@)
                is None) && credential_matches(username, password, *uri, c),
            Err(e) => wants_credential(username, *uri) && credential_failure(uri.query@) == Some(
                e@,
            ),
        },
{
    let q = &uri.query;
    let auth_source = get(q, "authSource");
    let mechanism_text = get(q, "authMechanism");
    let properties_text = get(q, "authMechanismProperties");
    let in_uri = uri.username.as_str().unicode_len() != 0;
    if !(in_uri || username.is_some() || auth_source.is_some() || mechanism_text.is_some()
        || properties_text.is_some()) {
        return Ok(None);
    }
    let mut c = Credential {
        username: None,
        source: None,
        password: None,
        mechanism: None,
        mechanism_properties: None,
    };
    if username.is_some() || in_uri {
        c.username = match username {
            Some(u) => Some(u),
            None => Some(uri.username.clone()),
        };
        c.password = match password {
            Some(p) => Some(p),
            None => match &uri.password {
                Some(p) => Some(p.clone()),
                None => None,
            },
        };
    }
    c.source = auth_source;
    match mechanism_text {
        Some(m) => match auth_mechanism(m.as_str()) {
            Ok(mechanism) => {
                c.mechanism = Some(mechanism);
            },
            Err(text) => {
                return Err(crate::error::builder(text));
            },
        },
        None => {},
    }
    match properties_text {
        Some(p) => match pairs(p.as_str()) {
            Some(list) => {
                c.mechanism_properties = Some(properties(&list));
            },
            None => {
                return Err(crate::error::builder(String::from_str("properties must be kv pairs")));
            },
        },
        None => {},
    }
    Ok(Some(c))
}

/// Whether connections are configured: whether the builder names a
/// certificate file, or the query has an option of TLS.
pub open spec fn wants_tls(ca: Option<String>, cert_key: Option<String>, q: Seq<(String, String)>)
    -> bool {
    ||| ca is Some
    ||| cert_key is Some
    ||| last_value(q, "tls"@) is Some
    ||| last_value(q, "tlsInsecure"@) is Some
    ||| last_value(q, "tlsCAFile"@) is Some
    ||| last_value(q, "tlsCertificateKeyFile"@) is Some
    ||| last_value(q, "tlsAllowInvalidCertificates"@) is Some
}

/// Whether TLS is on: it is, unless the query turns it off.
pub open spec fn tls_enabled(q: Seq<(String, String)>) -> bool {
    match flag_of(q, "tls"@) {
        Some(b) => b,
        None => true,
    }
}

/// The option that says whether invalid certificates are let through:
/// `tlsAllowInvalidCertificates` where the query has it, else `tlsInsecure`.
pub open spec fn invalid_key(q: Seq<(String, String)>) -> Seq<char> {
    if last_value(q, "tlsAllowInvalidCertificates"@) is Some {
        "tlsAllowInvalidCertificates"@
    } else {
        "tlsInsecure"@
    }
}

/// The option of TLS that cannot be read, if any. Where TLS is turned off
/// nothing else is read.
pub open spec fn tls_failure(q: Seq<(String, String)>) -> Option<ErrorView> {
    first_of(
        flag_failure(q, "tls"@),
        if tls_enabled(q) {
            flag_failure(q, invalid_key(q))
        } else {
            None
        },
    )
}

/// How connections are secured, as the builder and the query ask for. The
/// files of the builder take precedence over those of the query.
pub open spec fn tls_spec(ca: Option<String>, cert_key: Option<String>, q: Seq<(String, String)>)
    -> Option<Tls> {
    if !wants_tls(ca, cert_key, q) {
        None
    } else if tls_enabled(q) {
        Some(
            Tls::Enabled(
                TlsOptions {
                    allow_invalid_certificates: flag_of(q, invalid_key(q)),
                    ca_file_path: or(ca, last_value(q, "tlsCAFile"@)),
                    cert_key_file_path: or(cert_key, last_value(q, "tlsCertificateKeyFile"@)),
                },
            ),
        )
    } else {
        Some(Tls::Disabled)
    }
}

/// Decides how connections are secured.
pub fn tls(ca: Option<String>, cert_key: Option<String>, q: &Vec<(String, String)>) -> (r: Result<
    Option<Tls>,
    Error,
>)
    ensures
        match r {
            Ok(t) => (wants_tls(ca, cert_key, q@) ==> tls_failure(q@) is None) && t == tls_spec(
                ca,
                cert_key,
                q@,
            ),
            Err(e) => wants_tls(ca, cert_key, q@) && tls_failure(q@) == Some(e@),
        },
{
    let enabled_text = get(q, "tls");
    let insecure_text = get(q, "tlsInsecure");
    let ca_file = get(q, "tlsCAFile");
    let cert_key_file = get(q, "tlsCertificateKeyFile");
    let allow_text = get(q, "tlsAllowInvalidCertificates");
    if !(ca.is_some() || cert_key.is_some() || enabled_text.is_some() || insecure_text.is_some()
        || ca_file.is_some() || cert_key_file.is_some() || allow_text.is_some()) {
        return Ok(None);
    }
    let enabled = match flag(q, "tls") {
        Ok(Some(b)) => b,
        Ok(None) => true,
        Err(e) => {
            return Err(e);
        },
    };
    if !enabled {
        return Ok(Some(Tls::Disabled));
    }
    let allow_invalid_certificates = if allow_text.is_some() {
        match flag(q, "tlsAllowInvalidCertificates") {
            Ok(v) => v,
            Err(e) => {
                return Err(e);
            },
        }
    } else {
        match flag(q, "tlsInsecure") {
            Ok(v) => v,
            Err(e) => {
                return Err(e);
            },
        }
    };
    let ca_file_path = match ca {
        Some(path) => Some(path),
        None => ca_file,
    };
    let cert_key_file_path = match cert_key {
        Some(path) => Some(path),
        None => cert_key_file,
    };
    Ok(Some(Tls::Enabled(TlsOptions { allow_invalid_certificates, ca_file_path, cert_key_file_path })))
}

/// A `ClientBuilder` can be used to create a `Client` with custom
/// configuration.
#[derive(Debug, PartialEq, Eq)]
pub struct ClientBuilder {
    ca: Option<String>,
    cert_key: Option<String>,
    database: Option<String>,
    password: Option<String>,
    uri: Option<String>,
    username: Option<String>,
}

/// The configuration that a client of the database is made with.
#[derive(Debug, PartialEq)]
pub struct Client {
    options: ClientOptions,
    database: String,
}

/// The settings of a builder.
pub struct Settings {
    pub ca: Option<String>,
    pub cert_key: Option<String>,
    pub database: Option<String>,
    pub password: Option<String>,
    pub uri: Option<String>,
    pub username: Option<String>,
}

/// The first option of a connection string that cannot be read, if any. The
/// options are read in this order: those that stand for themselves, the write
/// concern, the read preference, the credential and TLS.
pub open spec fn failure(s: Settings, uri: Uri) -> Option<ErrorView> {
    let q = uri.query@;
    first_of(
        basics_failure(q),
        first_of(
            write_concern_failure(q),
            first_of(
                if wants_selection(q) {
                    selection_failure(q)
                } else {
                    None
                },
                first_of(
                    if wants_credential(s.username, uri) {
                        credential_failure(q)
                    } else {
                        None
                    },
                    if wants_tls(s.ca, s.cert_key, q) {
                        tls_failure(q)
                    } else {
                        None
                    },
                ),
            ),
        ),
    )
}

/// The text of an optional string, or a default.
pub open spec fn text_or(s: Option<String>, default: Seq<char>) -> Seq<char> {
    match s {
        Some(t) => t@,
        None => default,
    }
}

/// Whether `c` is the configuration that the settings and the parts of the
/// connection string give.
pub open spec fn configured(s: Settings, uri: Uri, c: Client) -> bool {
    let q = uri.query@;
    let b = basics_spec(q);
    let o = c.options_spec();
    &&& c.database_spec()@ == text_or(s.database, DEFAULT_DATABASE@)
    &&& o.host.host@ == text_or(uri.host, DEFAULT_HOST@)
    &&& o.host.port == uri.port
    &&& o.app_name == b.app_name
    &&& o.connect_timeout == b.connect_timeout
    &&& o.direct_connection == b.direct_connection
    &&& o.heartbeat_freq == b.heartbeat_freq
    &&& o.local_threshold == b.local_threshold
    &&& o.max_idle_time == b.max_idle_time
    &&& o.max_pool_size == b.max_pool_size
    &&& o.min_pool_size == b.min_pool_size
    &&& o.read_concern == b.read_concern
    &&& o.repl_set_name == b.repl_set_name
    &&& o.retry_reads == b.retry_reads
    &&& o.retry_writes == b.retry_writes
    &&& o.server_selection_timeout == b.server_selection_timeout
    &&& o.write_concern == write_concern_spec(q)
    &&& if wants_selection(q) {
        selected(q, o.selection_criteria)
    } else {
        o.selection_criteria is None
    }
    &&& credential_matches(s.username, s.password, uri, o.credential)
    &&& o.tls == tls_spec(s.ca, s.cert_key, q)
}

/// What configuring a client from the settings and the parts of a connection
/// string gives: the refusal of the first option that cannot be read, or the
/// configuration.
pub open spec fn configures(s: Settings, uri: Uri, r: Result<Client, Error>) -> bool {
    match failure(s, uri) {
        Some(e) => r is Err && r->Err_0@ == e,
        None => r is Ok && configured(s, uri, r->Ok_0),
    }
}

impl Client {
    /// The options of the client.
    pub closed spec fn options_spec(self) -> ClientOptions {
        self.options
    }

    /// The name of the database of the client.
    pub closed spec fn database_spec(self) -> String {
        self.database
    }

    /// Creates a builder to configure a `Client`.
    ///
    /// This is the same as `ClientBuilder::new()`.
    pub fn builder() -> (b: ClientBuilder)
        ensures
            b.settings() == (Settings {
                ca: None,
                cert_key: None,
                database: None,
                password: None,
                uri: None,
                username: None,
            }),
    {
        ClientBuilder::new()
    }

    /// The options of the client.
    pub fn options(&self) -> (o: &ClientOptions)
        ensures
            *o == self.options_spec(),
    {
        &self.options
    }

    /// The name of the database of the client.
    pub fn database(&self) -> (d: &String)
        ensures
            *d == self.database_spec(),
    {
        &self.database
    }
}

impl ClientBuilder {
    /// The settings made so far.
    pub closed spec fn settings(self) -> Settings {
        Settings {
            ca: self.ca,
            cert_key: self.cert_key,
            database: self.database,
            password: self.password,
            uri: self.uri,
            username: self.username,
        }
    }

    /// Constructs a new `ClientBuilder`, with nothing set.
    pub fn new() -> (b: ClientBuilder)
        ensures
            b.settings() == (Settings {
                ca: None,
                cert_key: None,
                database: None,
                password: None,
                uri: None,
                username: None,
            }),
    {
        ClientBuilder {
            ca: None,
            cert_key: None,
            database: None,
            password: None,
            uri: None,
            username: None,
        }
    }

    /// Sets the username/password that should be used by this client. An
    /// earlier password stays where none is given.
    pub fn auth(self, username: &str, password: Option<&str>) -> (b: ClientBuilder)
        ensures
            b.settings().username is Some,
            b.settings().username->Some_0@ == username@,
            match password {
                Some(p) => b.settings().password is Some && b.settings().password->Some_0@ == p@,
                None => b.settings().password == self.settings().password,
            },
            b.settings().ca == self.settings().ca,
            b.settings().cert_key == self.settings().cert_key,
            b.settings().database == self.settings().database,
            b.settings().uri == self.settings().uri,
    {
        let mut b = self;
        b.username = Some(username.to_owned());
        match password {
            Some(p) => {
                b.password = Some(p.to_owned());
            },
            None => {},
        }
        b
    }

    /// Sets the CA file that should be used by this client for TLS.
    pub fn ca(self, path: &str) -> (b: ClientBuilder)
        ensures
            b.settings().ca is Some,
            b.settings().ca->Some_0@ == path@,
            b.settings().cert_key == self.settings().cert_key,
            b.settings().database == self.settings().database,
            b.settings().password == self.settings().password,
            b.settings().uri == self.settings().uri,
            b.settings().username == self.settings().username,
    {
        let mut b = self;
        b.ca = Some(path.to_owned());
        b
    }

    /// Sets the certificate file that should be used by this client for
    /// identification.
    pub fn cert_key(self, path: &str) -> (b: ClientBuilder)
        ensures
            b.settings().cert_key is Some,
            b.settings().cert_key->Some_0@ == path@,
            b.settings().ca == self.settings().ca,
            b.settings().database == self.settings().database,
            b.settings().password == self.settings().password,
            b.settings().uri == self.settings().uri,
            b.settings().username == self.settings().username,
    {
        let mut b = self;
        b.cert_key = Some(path.to_owned());
        b
    }

    /// Sets the database that should be used by this client.
    pub fn database(self, database: &str) -> (b: ClientBuilder)
        ensures
            b.settings().database is Some,
            b.settings().database->Some_0@ == database@,
            b.settings().ca == self.settings().ca,
            b.settings().cert_key == self.settings().cert_key,
            b.settings().password == self.settings().password,
            b.settings().uri == self.settings().uri,
            b.settings().username == self.settings().username,
    {
        let mut b = self;
        b.database = Some(database.to_owned());
        b
    }

    /// Sets the uri that this client should use to connect to a mongo
    /// instance.
    pub fn uri(self, uri: &str) -> (b: ClientBuilder)
        ensures
            b.settings().uri is Some,
            b.settings().uri->Some_0@ == uri@,
            b.settings().ca == self.settings().ca,
            b.settings().cert_key == self.settings().cert_key,
            b.settings().database == self.settings().database,
            b.settings().password == self.settings().password,
            b.settings().username == self.settings().username,
    {
        let mut b = self;
        b.uri = Some(uri.to_owned());
        b
    }

    /// Configures a client from the settings of this builder and the parts
    /// of a connection string.
    ///
    /// # Errors
    ///
    /// This method fails with the first option of the connection string that
    /// cannot be read.
    pub fn configure(self, uri: Uri) -> (r: crate::error::Result<Client>)
        ensures
            configures(self.settings(), uri, r),
    {
        let ClientBuilder { ca, cert_key, database, password, uri: _, username } = self;
        let b = match basics(&uri.query) {
            Ok(b) => b,
            Err(e) => {
                return Err(e);
            },
        };
        let write_concern = match write_concern(&uri.query) {
            Ok(w) => w,
            Err(e) => {
                return Err(e);
            },
        };
        let wanted = get(&uri.query, "maxStalenessSeconds").is_some() || get(
            &uri.query,
            "readPreference",
        ).is_some() || get(&uri.query, "readPreferenceTags").is_some();
        let selection_criteria = if wanted {
            match selection(&uri.query) {
                Ok(s) => s,
                Err(e) => {
                    return Err(e);
                },
            }
        } else {
            None
        };
        let credential = match credential(username, password, &uri) {
            Ok(c) => c,
            Err(e) => {
                return Err(e);
            },
        };
        let tls = match tls(ca, cert_key, &uri.query) {
            Ok(t) => t,
            Err(e) => {
                return Err(e);
            },
        };
        let database = match database {
            Some(d) => d,
            None => String::from_str(DEFAULT_DATABASE),
        };
        let host = match &uri.host {
            Some(h) => h.clone(),
            None => String::from_str(DEFAULT_HOST),
        };
        Ok(
            Client {
                options: ClientOptions {
                    host: ServerAddress { host, port: uri.port },
                    app_name: b.app_name,
                    connect_timeout: b.connect_timeout,
                    direct_connection: b.direct_connection,
                    heartbeat_freq: b.heartbeat_freq,
                    local_threshold: b.local_threshold,
                    max_idle_time: b.max_idle_time,
                    max_pool_size: b.max_pool_size,
                    min_pool_size: b.min_pool_size,
                    read_concern: b.read_concern,
                    repl_set_name: b.repl_set_name,
                    retry_reads: b.retry_reads,
                    retry_writes: b.retry_writes,
                    server_selection_timeout: b.server_selection_timeout,
                    write_concern,
                    selection_criteria,
                    credential,
                    tls,
                },
                database,
            },
        )
    }

    /// What building gives for what the connection string is read as: the
    /// refusal of a string that is no URL, else what configuring from its
    /// parts gives.
    pub open spec fn builds(self, r: crate::error::Result<Client>) -> bool {
        let text = text_or(self.settings().uri, DEFAULT_URI@);
        if url_parsed(text) is Err {
            r is Err && r->Err_0@ == refused(url_parsed(text)->Err_0)
        } else {
            exists|uri: Uri| #[trigger]
                configures(self.settings(), uri, r) && url_parsed(text) == Ok::<
                    UriView,
                    Seq<char>,
                >(uri@)
        }
    }

    /// Returns a `Client` built from this `ClientBuilder` configuration.
    ///
    /// The connection string is the one that was set, or
    /// `mongodb://127.0.0.1:27017`; the database is the one that was set, or
    /// `db`.
    ///
    /// # Errors
    ///
    /// This method fails if the connection string is no URL, or with the
    /// first of its options that cannot be read.
    pub fn build(self) -> (r: crate::error::Result<Client>)
        ensures
            self.builds(r),
    {
        let parsed = match &self.uri {
            Some(u) => parse_uri(u.as_str()),
            None => parse_uri(DEFAULT_URI),
        };
        match parsed {
            Ok(uri) => {
                let ghost parts = uri;
                let r = self.configure(uri);
                proof {
                    let text = text_or(self.settings().uri, DEFAULT_URI@);
                    assert(configures(self.settings(), parts, r) && url_parsed(text) == Ok::<
                        UriView,
                        Seq<char>,
                    >(parts@));
                }
                r
            },
            Err(text) => Err(crate::error::builder(text)),
        }
    }
}

/// Whether `d` is the filter document of a request: what the given filter
/// is written as, or the empty document where no filter is given.
pub open spec fn filter_of<F: Filter>(filter: Option<F>, d: Document) -> bool {
    match filter {
        Some(f) => filter_written(f, Ok::<Document, Error>(d)),
        None => d@ == Seq::<(Seq<char>, BsonView)>::empty(),
    }
}

/// Whether the error `e` is that of writing the given filter.
pub open spec fn filter_failed<F: Filter>(filter: Option<F>, e: Error) -> bool {
    filter is Some && filter_written(filter->Some_0, Err::<Document, Error>(e))
}

/// The options of an update with only `upsert` set, where it is asked for.
pub open spec fn update_options(upsert: bool) -> UpdateOptions {
    UpdateOptions {
        array_filters: None,
        bypass_document_validation: None,
        upsert: if upsert {
            Some(true)
        } else {
            None
        },
        collation: None,
        hint: None,
        write_concern: None,
    }
}

/// Whether `r` is the request to update documents: the filter and the
/// updates as they are written, for every match or for one, with `upsert`
/// set where it is asked for. The filter is written first; the first of the
/// two that cannot be written gives the error.
pub open spec fn update_request<C: Collection, F: Filter, U: Update>(
    filter: F,
    updates: Updates<U>,
    many: bool,
    upsert: bool,
    r: crate::error::Result<Request>,
) -> bool {
    if r is Ok {
        &&& r->Ok_0 is Update
        &&& r->Ok_0->Update_0 == many
        &&& named::<C>(r->Ok_0->Update_1)
        &&& filter_written(filter, Ok::<Document, Error>(r->Ok_0->Update_2))
        &&& updates_written(updates, Ok::<Document, Error>(r->Ok_0->Update_3))
        &&& r->Ok_0->Update_4 == update_options(upsert)
    } else {
        ||| filter_written(filter, Err::<Document, Error>(r->Err_0))
        ||| exists|d: Document| #[trigger]
            filter_written(filter, Ok::<Document, Error>(d)) && updates_written(
                updates,
                Err::<Document, Error>(r->Err_0),
            )
    }
}

/// The object identifiers among what an insert reports, by the position of
/// the document. Identifiers of another kind are left out.
pub open spec fn object_ids(ids: Map<usize, Bson>) -> Map<usize, ObjectId> {
    Map::new(
        |k: usize| ids.contains_key(k) && ids[k] is ObjectId,
        |k: usize| ids[k]->ObjectId_0,
    )
}

/// Whether a map holds the object identifiers among the first `n` of the
/// entries `pairs`, and nothing else.
pub open spec fn collected(out: Map<usize, ObjectId>, pairs: Seq<(usize, Bson)>, n: int) -> bool {
    &&& forall|j: int|
        0 <= j < n && (#[trigger] pairs[j]).1 is ObjectId ==> out.contains_key(pairs[j].0)
            && out[pairs[j].0] == pairs[j].1->ObjectId_0
    &&& forall|k: usize| #[trigger]
        out.contains_key(k) ==> exists|j: int|
            0 <= j < n && (#[trigger] pairs[j]).0 == k && pairs[j].1 is ObjectId
}

/// What the first entry that a map of identifiers hands out gives: its
/// object identifier, or the error of an insert that reports none where the
/// map is empty or the entry holds something else.
pub open spec fn first_entry(pairs: Seq<(usize, Bson)>, r: Result<ObjectId, Error>) -> bool {
    if pairs.len() > 0 && pairs[0].1 is ObjectId {
        r == Ok::<ObjectId, Error>(pairs[0].1->ObjectId_0)
    } else {
        r is Err && r->Err_0@ == not_inserted()
    }
}

/// Whether `r` is what the first entry gives that the map of identifiers
/// hands out, in whatever order it hands out its entries.
pub open spec fn first_reported(ids: HashMap<usize, Bson>, r: Result<ObjectId, Error>) -> bool {
    exists|pairs: Seq<(usize, Bson)>| #[trigger] entries_of(ids, pairs) && first_entry(pairs, r)
}

/// Where an insert reports exactly one identifier, the outcome is that
/// identifier if it is an object identifier, and the error else.
pub proof fn lemma_one_reported(ids: HashMap<usize, Bson>, r: Result<ObjectId, Error>, k: usize)
    requires
        first_reported(ids, r),
        ids@.len() == 1,
        ids@.contains_key(k),
    ensures
        ids@[k] is ObjectId ==> r == Ok::<ObjectId, Error>(ids@[k]->ObjectId_0),
        !(ids@[k] is ObjectId) ==> r is Err && r->Err_0@ == not_inserted(),
{
    broadcast use vstd::std_specs::hash::group_hash_axioms;

    let pairs = choose|pairs: Seq<(usize, Bson)>| #[trigger]
        entries_of(ids, pairs) && first_entry(pairs, r);
    assert(pairs.len() == 1);
    let i = choose|i: int| 0 <= i < pairs.len() && (#[trigger] pairs[i]).0 == k;
    assert(i == 0);
    assert(ids@[pairs[0].0] == pairs[0].1);
}

/// The value of the error for an insert that reports no object identifier.
pub open spec fn not_inserted() -> ErrorView {
    ErrorView { kind: Kind::Mongodb, source: Some("failed to insert document into mongo"@) }
}

impl Client {
    /// What is asked of the database to delete the documents of `C` that
    /// match a filter, or all of them without a filter.
    ///
    /// # Errors
    ///
    /// This method fails if the filter cannot be written as a document.
    pub fn delete<C, F>(&self, filter: Option<F>) -> (r: crate::error::Result<Request>) where
        C: AsFilter<F> + Collection,
        F: Filter,

        ensures
            match r {
                Ok(request) => {
                    &&& request is Delete
                    &&& request->Delete_0
                    &&& named::<C>(request->Delete_1)
                    &&& filter_of(filter, request->Delete_2)
                    &&& request->Delete_3 == (DeleteOptions {
                        collation: None,
                        write_concern: None,
                        hint: None,
                    })
                },
                Err(e) => filter_failed(filter, e),
            },
    {
        let mut delete = query::Delete::<C>::new().many(true);
        match filter {
            Some(f) => match delete.filter(f) {
                Ok(d) => {
                    delete = d;
                },
                Err(e) => {
                    return Err(e);
                },
            },
            None => {},
        }
        Ok(delete.request())
    }

    /// What is asked of the database to delete one document of `C` that
    /// matches a filter.
    ///
    /// # Errors
    ///
    /// This method fails if the filter cannot be written as a document.
    pub fn delete_one<C, F>(&self, filter: F) -> (r: crate::error::Result<Request>) where
        C: AsFilter<F> + Collection,
        F: Filter,

        ensures
            match r {
                Ok(request) => {
                    &&& request is Delete
                    &&& !request->Delete_0
                    &&& named::<C>(request->Delete_1)
                    &&& filter_written(filter, Ok::<Document, Error>(request->Delete_2))
                    &&& request->Delete_3 == (DeleteOptions {
                        collation: None,
                        write_concern: None,
                        hint: None,
                    })
                },
                Err(e) => filter_written(filter, Err::<Document, Error>(e)),
            },
    {
        match query::Delete::<C>::new().many(false).filter(filter) {
            Ok(d) => Ok(d.request()),
            Err(e) => Err(e),
        }
    }

    /// Whether a document was deleted, for the answer of the database to a
    /// request to delete one.
    pub fn delete_one_outcome<C: Collection, K>(response: crate::error::Result<Response<K>>) -> (r:
        crate::error::Result<bool>)
        ensures
            match response {
                Ok(Response::Delete(result)) => r == Ok::<bool, Error>(result.deleted_count > 0),
                Ok(_) => r is Err && r->Err_0@ == wrong_response(),
                Err(e) => r == Err::<bool, Error>(e),
            },
    {
        match query::Delete::<C>::blocking(response) {
            Ok(deleted) => Ok(deleted > 0),
            Err(e) => Err(e),
        }
    }

    /// What is asked of the database to find the documents of `C` that match
    /// a filter, or all of them without a filter.
    ///
    /// # Errors
    ///
    /// This method fails if the filter cannot be written as a document.
    pub fn find<C, F>(&self, filter: Option<F>) -> (r: crate::error::Result<Request>) where
        C: AsFilter<F> + Collection,
        F: Filter,

        ensures
            match r {
                Ok(request) => {
                    &&& request is Find
                    &&& named::<C>(request->Find_0)
                    &&& match filter {
                        Some(f) => request->Find_1 is Some && filter_written(
                            f,
                            Ok::<Document, Error>(request->Find_1->Some_0),
                        ),
                        None => request->Find_1 is None,
                    }
                    &&& request->Find_2 == FindOptions::none()
                },
                Err(e) => filter_failed(filter, e),
            },
    {
        let mut find: query::Find<C> = query::Find::new();
        match filter {
            Some(f) => match find.filter(f) {
                Ok(q) => {
                    find = q;
                },
                Err(e) => {
                    return Err(e);
                },
            },
            None => {},
        }
        Ok(find.request())
    }

    /// What is asked of the database to insert records into the collection
    /// of `C`.
    ///
    /// # Errors
    ///
    /// This method fails with the error of the first record that cannot be
    /// written as a document.
    pub fn insert<C: Collection>(&self, documents: Vec<C>) -> (r: crate::error::Result<
        Request,
    >)
        ensures
            match r {
                Ok(request) => {
                    &&& request is Insert
                    &&& named::<C>(request->Insert_0)
                    &&& all_written(documents@, Ok::<Seq<Document>, Error>(request->Insert_1@))
                    &&& request->Insert_2 == (InsertManyOptions {
                        bypass_document_validation: None,
                        ordered: None,
                        write_concern: None,
                    })
                },
                Err(e) => all_written(documents@, Err::<Seq<Document>, Error>(e)),
            },
    {
        query::Insert::<C>::new().request(documents)
    }

    /// The object identifiers given to inserted documents, by the position
    /// of the document, for the answer of the database to an insert.
    /// Identifiers of another kind are left out.
    pub fn insert_outcome<C: Collection, K>(response: crate::error::Result<Response<K>>) -> (r:
        crate::error::Result<HashMap<usize, ObjectId>>)
        ensures
            match response {
                Ok(Response::Insert(result)) => r is Ok && r->Ok_0@ == object_ids(
                    result.inserted_ids@,
                ),
                Ok(_) => r is Err && r->Err_0@ == wrong_response(),
                Err(e) => r == Err::<HashMap<usize, ObjectId>, Error>(e),
            },
    {
        broadcast use vstd::std_specs::hash::group_hash_axioms;

        match query::Insert::<C>::blocking(response) {
            Ok(ids) => {
                let ghost held = ids;
                let pairs = map_entries(ids);
                let mut out: HashMap<usize, ObjectId> = HashMap::new();
                let mut i: usize = 0;
                while i < pairs.len()
                    invariant
                        i <= pairs.len(),
                        entries_of(held, pairs@),
                        collected(out@, pairs@, i as int),
                    decreases pairs.len() - i,
                {
                    let ghost before = out@;
                    match &pairs[i].1 {
                        Bson::ObjectId(id) => {
                            let _ = out.insert(pairs[i].0, *id);
                            proof {
                                let k0 = pairs@[i as int].0;
                                assert(out@ == before.insert(k0, *id));
                                assert forall|j: int|
                                    0 <= j < i + 1 && (#[trigger] pairs@[j]).1 is ObjectId implies out@.contains_key(
                                    pairs@[j].0,
                                ) && out@[pairs@[j].0] == pairs@[j].1->ObjectId_0 by {
                                    if j < i {
                                        assert(pairs@[j].0 != pairs@[i as int].0);
                                    }
                                }
                                assert forall|k: usize| #[trigger] out@.contains_key(k) implies exists|
                                    j: int,
                                |
                                    0 <= j < i + 1 && (#[trigger] pairs@[j]).0 == k
                                        && pairs@[j].1 is ObjectId by {
                                    if k == k0 {
                                        assert(pairs@[i as int].0 == k);
                                    } else {
                                        assert(before.contains_key(k));
                                        let j = choose|j: int|
                                            0 <= j < i && (#[trigger] pairs@[j]).0 == k
                                                && pairs@[j].1 is ObjectId;
                                        assert(pairs@[j].0 == k);
                                    }
                                }
                            }
                        },
                        _ => {
                            proof {
                                assert forall|k: usize| #[trigger] out@.contains_key(k) implies exists|
                                    j: int,
                                |
                                    0 <= j < i + 1 && (#[trigger] pairs@[j]).0 == k
                                        && pairs@[j].1 is ObjectId by {
                                    let j = choose|j: int|
                                        0 <= j < i && (#[trigger] pairs@[j]).0 == k
                                            && pairs@[j].1 is ObjectId;
                                    assert(pairs@[j].0 == k);
                                }
                            }
                        },
                    }
                    i += 1;
                }
                proof {
                    let all = held@;
                    let want = object_ids(all);
                    assert forall|k: usize| out@.contains_key(k) implies want.contains_key(k)
                        && want[k] == out@[k] by {
                        let j = choose|j: int|
                            0 <= j < pairs@.len() && (#[trigger] pairs@[j]).0 == k
                                && pairs@[j].1 is ObjectId;
                        assert(all.contains_key(pairs@[j].0));
                    }
                    assert forall|k: usize| want.contains_key(k) implies out@.contains_key(k) by {
                        let j = choose|j: int| 0 <= j < pairs@.len() && (#[trigger] pairs@[j]).0 == k;
                        assert(all[pairs@[j].0] == pairs@[j].1);
                    }
                    assert(out@ =~= want);
                }
                Ok(out)
            },
            Err(e) => Err(e),
        }
    }

    /// The object identifier given to an inserted document, for the answer
    /// of the database to the insert of one document: the identifier of the
    /// first entry that the map of the reported identifiers hands out. An
    /// answer without identifier, or with an identifier of another kind
    /// first, is an error of the database.
    pub fn insert_one_outcome<C: Collection, K>(response: crate::error::Result<Response<K>>) -> (r:
        crate::error::Result<ObjectId>)
        ensures
            match response {
                Ok(Response::Insert(result)) => first_reported(result.inserted_ids, r),
                Ok(_) => r is Err && r->Err_0@ == wrong_response(),
                Err(e) => r == Err::<ObjectId, Error>(e),
            },
    {
        match query::Insert::<C>::blocking(response) {
            Ok(ids) => {
                let ghost held = ids;
                let pairs = map_entries(ids);
                let r = Self::first_identifier(&pairs);
                assert(entries_of(held, pairs@) && first_entry(pairs@, r));
                r
            },
            Err(e) => Err(e),
        }
    }

    /// The object identifier of the first of the entries, or the error of
    /// an insert that reports none.
    pub fn first_identifier(pairs: &Vec<(usize, Bson)>) -> (r: crate::error::Result<ObjectId>)
        ensures
            first_entry(pairs@, r),
    {
        if pairs.len() > 0 {
            match &pairs[0].1 {
                Bson::ObjectId(id) => {
                    return Ok(*id);
                },
                _ => {},
            }
        }
        Err(crate::error::mongodb(String::from_str("failed to insert document into mongo")))
    }

    /// What is asked of the database to replace a document of `C` that
    /// matches a filter by a record.
    ///
    /// # Errors
    ///
    /// This method fails if the filter or, after it, the record cannot be
    /// written as a document.
    pub fn replace_one<C, F>(&self, filter: F, document: C) -> (r: crate::error::Result<
        Request,
    >) where C: AsFilter<F> + Collection, F: Filter
        ensures
            match r {
                Ok(request) => {
                    &&& request is Replace
                    &&& named::<C>(request->Replace_0)
                    &&& filter_written(filter, Ok::<Document, Error>(request->Replace_1))
                    &&& written(document, Ok::<Document, Error>(request->Replace_2))
                    &&& request->Replace_3 == (ReplaceOptions {
                        bypass_document_validation: None,
                        upsert: None,
                        collation: None,
                        hint: None,
                        write_concern: None,
                    })
                },
                Err(e) => filter_written(filter, Err::<Document, Error>(e)) || written(
                    document,
                    Err::<Document, Error>(e),
                ),
            },
    {
        match query::Replace::<C>::new().filter(filter) {
            Ok(q) => q.request(document),
            Err(e) => Err(e),
        }
    }

    /// Builds the request of an update.
    fn update_with<C, F, U>(filter: F, updates: Updates<U>, many: bool, upsert: bool) -> (r:
        crate::error::Result<Request>) where
        C: AsFilter<F> + AsUpdate<U> + Collection,
        F: Filter,
        U: Update,

        ensures
            update_request::<C, F, U>(filter, updates, many, upsert, r),
    {
        let mut q = query::Update::<C>::new().many(many);
        if upsert {
            q = q.upsert(true);
        }
        match q.filter(filter) {
            Ok(q) => {
                let ghost d = q.filter_spec()->Some_0;
                let r = q.request(updates);
                proof {
                    if r is Err {
                        assert(filter_written(filter, Ok::<Document, Error>(d)) && updates_written(
                            updates,
                            Err::<Document, Error>(r->Err_0),
                        ));
                    }
                }
                r
            },
            Err(e) => Err(e),
        }
    }

    /// What is asked of the database to update the documents of `C` that
    /// match a filter.
    ///
    /// # Errors
    ///
    /// This method fails if the filter or, after it, the updates cannot be
    /// written as a document.
    pub fn update<C, F, U>(&self, filter: F, updates: Updates<U>) -> (r: crate::error::Result<
        Request,
    >) where C: AsFilter<F> + AsUpdate<U> + Collection, F: Filter, U: Update
        ensures
            update_request::<C, F, U>(filter, updates, true, false, r),
    {
        Self::update_with::<C, F, U>(filter, updates, true, false)
    }

    /// What is asked of the database to update one document of `C` that
    /// matches a filter.
    ///
    /// # Errors
    ///
    /// This method fails if the filter or, after it, the updates cannot be
    /// written as a document.
    pub fn update_one<C, F, U>(&self, filter: F, updates: Updates<U>) -> (r:
        crate::error::Result<Request>) where
        C: AsFilter<F> + AsUpdate<U> + Collection,
        F: Filter,
        U: Update,

        ensures
            update_request::<C, F, U>(filter, updates, false, false, r),
    {
        Self::update_with::<C, F, U>(filter, updates, false, false)
    }

    /// What is asked of the database to update the documents of `C` that
    /// match a filter, or to insert one where none matches.
    ///
    /// # Errors
    ///
    /// This method fails if the filter or, after it, the updates cannot be
    /// written as a document.
    pub fn upsert<C, F, U>(&self, filter: F, updates: Updates<U>) -> (r: crate::error::Result<
        Request,
    >) where C: AsFilter<F> + AsUpdate<U> + Collection, F: Filter, U: Update
        ensures
            update_request::<C, F, U>(filter, updates, true, true, r),
    {
        Self::update_with::<C, F, U>(filter, updates, true, true)
    }

    /// What is asked of the database to update one document of `C` that
    /// matches a filter, or to insert one where none matches.
    ///
    /// # Errors
    ///
    /// This method fails if the filter or, after it, the updates cannot be
    /// written as a document.
    pub fn upsert_one<C, F, U>(&self, filter: F, updates: Updates<U>) -> (r:
        crate::error::Result<Request>) where
        C: AsFilter<F> + AsUpdate<U> + Collection,
        F: Filter,
        U: Update,

        ensures
            update_request::<C, F, U>(filter, updates, false, true, r),
    {
        Self::update_with::<C, F, U>(filter, updates, false, true)
    }

    /// Whether a document matched, for the answer of the database to a
    /// request to update or upsert one.
    pub fn update_one_outcome<C: Collection, K>(response: crate::error::Result<Response<K>>) -> (r:
        crate::error::Result<bool>)
        ensures
            match response {
                Ok(Response::Update(result)) => r == Ok::<bool, Error>(result.matched_count > 0),
                Ok(_) => r is Err && r->Err_0@ == wrong_response(),
                Err(e) => r == Err::<bool, Error>(e),
            },
    {
        match query::Update::<C>::blocking(response) {
            Ok(updated) => Ok(updated > 0),
            Err(e) => Err(e),
        }
    }
}

impl Default for ClientBuilder {
    fn default() -> (b: Self)
        ensures
            b.settings() == (Settings {
                ca: None,
                cert_key: None,
                database: None,
                password: None,
                uri: None,
                username: None,
            }),
    {
        Self::new()
    }
}

} // verus!
