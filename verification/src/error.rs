//! The error type of the library.

use vstd::prelude::*;
use vstd::string::StringExecFns;
use vstd::std_specs::convert::FromSpecImpl;
use crate::ext::bson::de;
use crate::ext::bson::ser;

verus! {

/// The `Kind` of an [`Error`].
#[derive(Clone, Copy, Debug, PartialEq, Eq, Structural)]
pub enum Kind {
    /// Error that originated from the BSON layer.
    Bson,
    /// Error that occurred when building a builder.
    Builder,
    /// Error that originated from the database driver.
    Mongodb,
    /// Error that occurred when creating a runtime.
    Runtime,
    /// Error that occurred when converting to or from a BSON `Document`.
    InvalidDocument,
}

/// The errors that may occur when talking to mongo.
#[derive(Debug, PartialEq, Eq)]
pub struct Error {
    kind: Kind,
    source: Option<String>,
}

/// A `Result` alias where the `Err` case is [`Error`].
pub type Result<T> = std::result::Result<T, Error>;

/// The mathematical value of an [`Error`]: its kind and the description of its
/// source.
pub struct ErrorView {
    pub kind: Kind,
    pub source: Option<Seq<char>>,
}

impl View for Error {
    type V = ErrorView;

    open spec fn view(&self) -> ErrorView {
        ErrorView { kind: self.kind_spec(), source: self.source_spec() }
    }
}

/// The value of the error of kind [`Kind::InvalidDocument`] that describes a
/// failed conversion out of a wire value.
pub open spec fn invalid_read(cause: de::CauseView) -> ErrorView {
    ErrorView { kind: Kind::InvalidDocument, source: Some(de::message_spec(cause)) }
}

/// The value of the error of kind [`Kind::InvalidDocument`] with the given
/// description.
pub open spec fn invalid(source: Seq<char>) -> ErrorView {
    ErrorView { kind: Kind::InvalidDocument, source: Some(source) }
}

impl Kind {
    /// The words that describe the kind in messages.
    pub open spec fn description_spec(self) -> Seq<char> {
        match self {
            Kind::Bson => "bson error"@,
            Kind::Builder => "builder error"@,
            Kind::Mongodb => "mongodb error"@,
            Kind::InvalidDocument => "invalid document"@,
            Kind::Runtime => "runtime error"@,
        }
    }

    /// The words that describe the kind in messages.
    pub fn description(self) -> (s: &'static str)
        ensures
            s@ == self.description_spec(),
    {
        match self {
            Kind::Bson => "bson error",
            Kind::Builder => "builder error",
            Kind::Mongodb => "mongodb error",
            Kind::InvalidDocument => "invalid document",
            Kind::Runtime => "runtime error",
        }
    }
}

impl Error {
    /// The kind of the error.
    pub closed spec fn kind_spec(self) -> Kind {
        self.kind
    }

    /// The description of what caused the error, if one was attached.
    pub closed spec fn source_spec(self) -> Option<Seq<char>> {
        match self.source {
            Some(s) => Some(s@),
            None => None,
        }
    }

    /// The text of the error: the description of its kind, followed by a
    /// colon and its source where it has one.
    pub open spec fn text_spec(self) -> Seq<char> {
        match self.source_spec() {
            Some(s) => self.kind_spec().description_spec() + ": "@ + s,
            None => self.kind_spec().description_spec(),
        }
    }

    /// Creates an error of the given kind without a source.
    pub fn new(kind: Kind) -> (e: Error)
        ensures
            e.kind_spec() == kind,
            e.source_spec().is_none(),
    {
        Error { kind, source: None }
    }

    /// Attaches the description of a source to the error, in place of any
    /// earlier one.
    pub fn with(self, source: String) -> (e: Error)
        ensures
            e.kind_spec() == self.kind_spec(),
            e.source_spec() == Some(source@),
    {
        Error { kind: self.kind, source: Some(source) }
    }

    /// Returns the kind of this error.
    pub fn kind(&self) -> (k: &Kind)
        ensures
            *k == self.kind_spec(),
    {
        &self.kind
    }

    /// The description of what caused the error, if one was attached.
    pub fn source(&self) -> (s: Option<&String>)
        ensures
            match s {
                Some(text) => self.source_spec() == Some(text@),
                None => self.source_spec().is_none(),
            },
    {
        self.source.as_ref()
    }

    /// Creates a custom `Kind::InvalidDocument` error.
    ///
    /// This is useful when implementing the traits of this crate by hand.
    pub fn invalid_document(error: &str) -> (e: Error)
        ensures
            e.kind_spec() == Kind::InvalidDocument,
            e.source_spec() == Some(error@),
    {
        Error::new(Kind::InvalidDocument).with(error.to_owned())
    }

    /// The text of the error.
    pub fn to_string(&self) -> (s: String)
        ensures
            s@ == self.text_spec(),
    {
        let desc = self.kind.description();
        match &self.source {
            Some(source) => String::from_str(desc).concat(": ").concat(source.as_str()),
            None => String::from_str(desc),
        }
    }
}

impl From<de::Error> for Error {
    fn from(de: de::Error) -> (e: Error)
        ensures
            e.kind_spec() == Kind::InvalidDocument,
            e.source_spec() == Some(de::message_spec(de@)),
    {
        Error::new(Kind::InvalidDocument).with(de.message())
    }
}

impl FromSpecImpl<de::Error> for Error {
    open spec fn obeys_from_spec() -> bool {
        false
    }

    open spec fn from_spec(de: de::Error) -> Error {
        arbitrary()
    }
}

impl From<ser::Error> for Error {
    fn from(ser: ser::Error) -> (e: Error)
        ensures
            e.kind_spec() == Kind::InvalidDocument,
            e.source_spec() == Some(ser.0@),
    {
        Error::new(Kind::InvalidDocument).with(ser.message())
    }
}

impl FromSpecImpl<ser::Error> for Error {
    open spec fn obeys_from_spec() -> bool {
        false
    }

    open spec fn from_spec(ser: ser::Error) -> Error {
        arbitrary()
    }
}

/// Whether `e` is the error of the given kind whose source is the text of
/// the error `inner`.
pub open spec fn wraps(e: Error, kind: Kind, inner: Error) -> bool {
    &&& e.kind_spec() == kind
    &&& e.source_spec() == Some(inner.text_spec())
}

/// The error of the given kind that has another error as its source: it is
/// described by the text of that error.
pub fn wrapped(kind: Kind, inner: &Error) -> (e: Error)
    ensures
        wraps(e, kind, *inner),
{
    Error::new(kind).with(inner.to_string())
}

/// An error of kind [`Kind::Bson`] with the given source.
pub fn bson(source: String) -> (e: Error)
    ensures
        e.kind_spec() == Kind::Bson,
        e.source_spec() == Some(source@),
{
    Error::new(Kind::Bson).with(source)
}

/// An error of kind [`Kind::Builder`] with the given source.
pub fn builder(source: String) -> (e: Error)
    ensures
        e.kind_spec() == Kind::Builder,
        e.source_spec() == Some(source@),
{
    Error::new(Kind::Builder).with(source)
}

/// An error of kind [`Kind::Mongodb`] with the given source.
pub fn mongodb(source: String) -> (e: Error)
    ensures
        e.kind_spec() == Kind::Mongodb,
        e.source_spec() == Some(source@),
{
    Error::new(Kind::Mongodb).with(source)
}

/// An error of kind [`Kind::Runtime`] with the given source.
pub fn runtime(source: String) -> (e: Error)
    ensures
        e.kind_spec() == Kind::Runtime,
        e.source_spec() == Some(source@),
{
    Error::new(Kind::Runtime).with(source)
}

} // verus!
