//! The error of conversions out of wire values.

use vstd::prelude::*;
use vstd::string::StringExecFns;
use vstd::std_specs::convert::FromSpecImpl;
use std::convert::Infallible;
use crate::bson;
use crate::bson::BsonView;
use crate::inflect::signed_decimal;
use crate::inflect::signed_decimal_spec;

verus! {

/// The kind of wire value that a conversion asked for.
#[derive(Clone, Copy, Debug, PartialEq, Eq, Structural)]
pub enum Expected {
    Bool,
    String,
    Double,
    Int32,
    Int64,
    Document,
    Array,
    DateTime,
}

/// The native integer type that a wire integer was narrowed to.
#[derive(Clone, Copy, Debug, PartialEq, Eq, Structural)]
pub enum Target {
    I8,
    I16,
    U8,
    U16,
    Isize,
}

/// Why a conversion out of a wire value failed.
#[derive(Debug, PartialEq)]
pub enum Cause {
    /// The wire value is of another kind than the expected one.
    InvalidVariant { expected: Expected, found: bson::Bson },
    /// A character was asked for and the string found is not exactly one
    /// character long.
    InvalidChar(String),
    /// The wire integer does not fit the native integer type.
    OutOfRange { value: i64, target: Target },
    /// The document has no entry for the named field.
    Missing(String),
    /// A document was asked for and another wire value found.
    NotDocument,
    /// A string was asked for and another wire value found.
    NotString,
    /// The document of an enum has no discriminator tag.
    EnumTypeNotFound,
    /// The name read matches no variant of the enum.
    UnknownVariant,
    /// Another reason, described by the message.
    Custom(String),
}

/// A conversion out of a wire value failed.
#[derive(Debug, PartialEq)]
pub struct Error(pub Cause);

/// The mathematical value of a [`Cause`].
pub enum CauseView {
    InvalidVariant { expected: Expected, found: BsonView },
    InvalidChar(Seq<char>),
    OutOfRange { value: i64, target: Target },
    Missing(Seq<char>),
    NotDocument,
    NotString,
    EnumTypeNotFound,
    UnknownVariant,
    Custom(Seq<char>),
}

impl View for Cause {
    type V = CauseView;

    open spec fn view(&self) -> CauseView {
        match self {
            Cause::InvalidVariant { expected, found } => CauseView::InvalidVariant {
                expected: *expected,
                found: found@,
            },
            Cause::InvalidChar(s) => CauseView::InvalidChar(s@),
            Cause::OutOfRange { value, target } => CauseView::OutOfRange {
                value: *value,
                target: *target,
            },
            Cause::Missing(key) => CauseView::Missing(key@),
            Cause::NotDocument => CauseView::NotDocument,
            Cause::NotString => CauseView::NotString,
            Cause::EnumTypeNotFound => CauseView::EnumTypeNotFound,
            Cause::UnknownVariant => CauseView::UnknownVariant,
            Cause::Custom(m) => CauseView::Custom(m@),
        }
    }
}

impl View for Error {
    type V = CauseView;

    open spec fn view(&self) -> CauseView {
        self.0@
    }
}

impl Expected {
    /// The pattern that names the kind in messages.
    pub open spec fn name_spec(self) -> Seq<char> {
        match self {
            Expected::Bool => "Bson::Bool(...)"@,
            Expected::String => "Bson::String(...)"@,
            Expected::Double => "Bson::Double(...)"@,
            Expected::Int32 => "Bson::Int32(...)"@,
            Expected::Int64 => "Bson::Int64(...)"@,
            Expected::Document => "Bson::Document(...)"@,
            Expected::Array => "Bson::Array(...)"@,
            Expected::DateTime => "Bson::DateTime(...)"@,
        }
    }

    /// The pattern that names the kind in messages.
    pub fn name(self) -> (s: &'static str)
        ensures
            s@ == self.name_spec(),
    {
        match self {
            Expected::Bool => "Bson::Bool(...)",
            Expected::String => "Bson::String(...)",
            Expected::Double => "Bson::Double(...)",
            Expected::Int32 => "Bson::Int32(...)",
            Expected::Int64 => "Bson::Int64(...)",
            Expected::Document => "Bson::Document(...)",
            Expected::Array => "Bson::Array(...)",
            Expected::DateTime => "Bson::DateTime(...)",
        }
    }
}

impl Target {
    /// The name of the integer type.
    pub open spec fn name_spec(self) -> Seq<char> {
        match self {
            Target::I8 => "i8"@,
            Target::I16 => "i16"@,
            Target::U8 => "u8"@,
            Target::U16 => "u16"@,
            Target::Isize => "isize"@,
        }
    }

    /// The name of the integer type.
    pub fn name(self) -> (s: &'static str)
        ensures
            s@ == self.name_spec(),
    {
        match self {
            Target::I8 => "i8",
            Target::I16 => "i16",
            Target::U8 => "u8",
            Target::U16 => "u16",
            Target::Isize => "isize",
        }
    }
}

/// The pattern that names the kind of a wire value in messages.
pub open spec fn kind_spec(b: BsonView) -> Seq<char> {
    match b {
        BsonView::Double(_) => "Bson::Double(...)"@,
        BsonView::String(_) => "Bson::String(...)"@,
        BsonView::Array(_) => "Bson::Array(...)"@,
        BsonView::Document(_) => "Bson::Document(...)"@,
        BsonView::Boolean(_) => "Bson::Boolean(...)"@,
        BsonView::Null => "Bson::Null"@,
        BsonView::RegularExpression(_, _) => "Bson::RegularExpression(...)"@,
        BsonView::JavaScriptCode(_) => "Bson::JavaScriptCode(...)"@,
        BsonView::JavaScriptCodeWithScope(_, _) => "Bson::JavaScriptCodeWithScope(...)"@,
        BsonView::Int32(_) => "Bson::Int32(...)"@,
        BsonView::Int64(_) => "Bson::Int64(...)"@,
        BsonView::Timestamp(_) => "Bson::Timestamp(...)"@,
        BsonView::Binary(_, _) => "Bson::Binary(...)"@,
        BsonView::ObjectId(_) => "Bson::ObjectId(...)"@,
        BsonView::DateTime(_) => "Bson::DateTime(...)"@,
        BsonView::Symbol(_) => "Bson::Symbol(...)"@,
        BsonView::Decimal128(_) => "Bson::Decimal128(...)"@,
        BsonView::Undefined => "Bson::Undefined"@,
        BsonView::MaxKey => "Bson::MaxKey"@,
        BsonView::MinKey => "Bson::MinKey"@,
        BsonView::DbPointer(_, _) => "Bson::DbPointer(...)"@,
    }
}

/// The pattern that names the kind of a wire value in messages.
pub fn kind(b: &bson::Bson) -> (s: &'static str)
    ensures
        s@ == kind_spec(b@),
{
    match b {
        bson::Bson::Double(_) => "Bson::Double(...)",
        bson::Bson::String(_) => "Bson::String(...)",
        bson::Bson::Array(_) => "Bson::Array(...)",
        bson::Bson::Document(_) => "Bson::Document(...)",
        bson::Bson::Boolean(_) => "Bson::Boolean(...)",
        bson::Bson::Null => "Bson::Null",
        bson::Bson::RegularExpression(_) => "Bson::RegularExpression(...)",
        bson::Bson::JavaScriptCode(_) => "Bson::JavaScriptCode(...)",
        bson::Bson::JavaScriptCodeWithScope(_) => "Bson::JavaScriptCodeWithScope(...)",
        bson::Bson::Int32(_) => "Bson::Int32(...)",
        bson::Bson::Int64(_) => "Bson::Int64(...)",
        bson::Bson::Timestamp(_) => "Bson::Timestamp(...)",
        bson::Bson::Binary(_) => "Bson::Binary(...)",
        bson::Bson::ObjectId(_) => "Bson::ObjectId(...)",
        bson::Bson::DateTime(_) => "Bson::DateTime(...)",
        bson::Bson::Symbol(_) => "Bson::Symbol(...)",
        bson::Bson::Decimal128(_) => "Bson::Decimal128(...)",
        bson::Bson::Undefined => "Bson::Undefined",
        bson::Bson::MaxKey => "Bson::MaxKey",
        bson::Bson::MinKey => "Bson::MinKey",
        bson::Bson::DbPointer(_) => "Bson::DbPointer(...)",
    }
}

/// The text that describes a cause: what was expected and the kind of the
/// wire value found, the string found, or the integer and the type that it
/// does not fit.
pub open spec fn message_spec(cause: CauseView) -> Seq<char> {
    match cause {
        CauseView::InvalidVariant { expected, found } => "invalid variant, expected `"@
            + expected.name_spec() + "` but found `"@ + kind_spec(found) + "`"@,
        CauseView::InvalidChar(s) => "invalid value, expected a char but found a string `"@ + s
            + "`"@,
        CauseView::OutOfRange { value, target } => "invalid value, could not coerce `"@
            + signed_decimal_spec(value as int) + "` into an "@ + target.name_spec(),
        CauseView::Missing(key) => "'"@ + key + "' is missing"@,
        CauseView::NotDocument => "not a BSON Document"@,
        CauseView::NotString => "not a BSON String"@,
        CauseView::EnumTypeNotFound => "enum type not found"@,
        CauseView::UnknownVariant => "invalid variant"@,
        CauseView::Custom(m) => m,
    }
}

impl Error {
    /// An error with a free message.
    pub fn custom(message: String) -> (e: Error)
        ensures
            e == Error(Cause::Custom(message)),
    {
        Error(Cause::Custom(message))
    }

    /// The error for a document that lacks the entry for `key`.
    pub fn missing(key: String) -> (e: Error)
        ensures
            e == Error(Cause::Missing(key)),
    {
        Error(Cause::Missing(key))
    }

    /// The error for a wire value of an unexpected kind.
    pub fn invalid_variant(expected: Expected, found: bson::Bson) -> (e: Error)
        ensures
            e == Error(Cause::InvalidVariant { expected, found }),
    {
        Error(Cause::InvalidVariant { expected, found })
    }

    /// A human-readable description of the failure.
    pub fn message(&self) -> (m: String)
        ensures
            m@ == message_spec(self@),
    {
        match &self.0 {
            Cause::InvalidVariant { expected, found } => String::from_str(
                "invalid variant, expected `",
            ).concat(expected.name()).concat("` but found `").concat(kind(found)).concat("`"),
            Cause::InvalidChar(s) => String::from_str(
                "invalid value, expected a char but found a string `",
            ).concat(s.as_str()).concat("`"),
            Cause::OutOfRange { value, target } => {
                let digits = signed_decimal(*value);
                String::from_str("invalid value, could not coerce `").concat(
                    digits.as_str(),
                ).concat("` into an ").concat(target.name())
            },
            Cause::Missing(key) => String::from_str("'").concat(key.as_str()).concat(
                "' is missing",
            ),
            Cause::NotDocument => String::from_str("not a BSON Document"),
            Cause::NotString => String::from_str("not a BSON String"),
            Cause::EnumTypeNotFound => String::from_str("enum type not found"),
            Cause::UnknownVariant => String::from_str("invalid variant"),
            Cause::Custom(m) => m.clone(),
        }
    }
}

/// A conversion that cannot fail has no error to carry over: there is no
/// value to call this with.
impl From<Infallible> for Error {
    fn from(_never: Infallible) -> (e: Error) {
        Error(Cause::Custom(String::new()))
    }
}

impl FromSpecImpl<Infallible> for Error {
    open spec fn obeys_from_spec() -> bool {
        false
    }

    open spec fn from_spec(_never: Infallible) -> Error {
        arbitrary()
    }
}

} // verus!
