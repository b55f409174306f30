//! A typed document-mapping layer over the BSON wire model.
//!
//! Record types are described by a schema ([`derive::ast`]), from which the
//! conversion of records to and from documents is derived ([`derive::bson`],
//! [`derive::record`]), together with the companion types for filters,
//! updates and field names ([`derive::mongo`]). The conversions between native
//! values and wire values are in [`ext::bson`].
//!
//! Queries are built step by step ([`query`]); what a query asks of the
//! database is a [`blocking::Request`], and what it returns is decided from
//! the [`blocking::Response`]. The configuration of a client is read from a
//! connection string ([`client`]).

pub mod blocking;
pub mod bson;
pub mod client;
pub mod collection;
pub mod cursor;
pub mod derive;
pub mod error;
pub mod ext;
pub mod field;
pub mod filter;
pub mod inflect;
pub mod options;
pub mod parse;
pub mod query;
pub mod sort;
pub mod update;

pub use self::client::Client;
pub use self::client::ClientBuilder;
pub use self::collection::Collection;
pub use self::error::Error;
pub use self::error::Kind as ErrorKind;
pub use self::field::AsField;
pub use self::field::Field;
pub use self::filter::AsFilter;
pub use self::filter::Comparator;
pub use self::filter::Filter;
pub use self::query::Query;
pub use self::sort::Order;
pub use self::sort::Sort;
pub use self::update::AsUpdate;
pub use self::update::Update;
pub use self::update::Updates;
