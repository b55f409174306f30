//! Conversions between native values and wire values.
//!
//! Integers narrower than 32 bits, and `u32`, are written as 32-bit wire
//! integers; `u64` is written as a 64-bit wire integer. Unsigned values that
//! do not fit the signed wire integer keep their bits. Reading a wire integer
//! into a narrower type fails where the value does not fit.

use vstd::prelude::*;
use vstd::std_specs::convert::FromSpec;
use vstd::std_specs::convert::FromSpecImpl;
use vstd::std_specs::convert::IntoSpec;
use vstd::std_specs::convert::TryFromSpec;
use vstd::std_specs::convert::TryFromSpecImpl;
use vstd::std_specs::hash::builds_valid_hashers;
use vstd::std_specs::hash::obeys_key_model;
use vstd::string::StrSliceExecFns;
use std::collections::HashMap;
use std::collections::HashSet;
use std::hash::Hash;
use std::hash::RandomState;
use crate::bson;
use crate::bson::DocumentView;
use crate::bson::inserted;
use crate::bson::BsonView;
use self::de::Cause;
use self::de::Error;
use self::de::Expected;
use self::de::Target;

pub mod de;
pub mod laws;
pub mod ser;

verus! {

/// Wraps a wire value so that conversions to and from native types can be
/// given for it.
#[derive(Debug, PartialEq)]
pub struct Bson(pub bson::Bson);

impl View for Bson {
    type V = BsonView;

    open spec fn view(&self) -> BsonView {
        self.0@
    }
}

impl Clone for Bson {
    fn clone(&self) -> (r: Bson)
        ensures
            r@ == self@,
    {
        Bson(self.0.clone())
    }
}

/// The string that holds exactly the character `c`.
///
/// Trusted: `String::from` of a `char` allocates the string made of that one
/// character.
#[verifier::external_body]
fn char_to_string(c: char) -> (s: String)
    ensures
        s@ == seq![c],
{
    String::from(c)
}

/// Binary data is written as the wire value of its own kind.
impl From<bson::Binary> for Bson {
    fn from(value: bson::Binary) -> (r: Bson) {
        Bson(bson::Bson::Binary(value))
    }
}

impl FromSpecImpl<bson::Binary> for Bson {
    open spec fn obeys_from_spec() -> bool {
        true
    }

    open spec fn from_spec(value: bson::Binary) -> Bson {
        Bson(bson::Bson::Binary(value))
    }
}

/// A pointer is written as the wire value of its own kind.
impl From<bson::DbPointer> for Bson {
    fn from(value: bson::DbPointer) -> (r: Bson) {
        Bson(bson::Bson::DbPointer(value))
    }
}

impl FromSpecImpl<bson::DbPointer> for Bson {
    open spec fn obeys_from_spec() -> bool {
        true
    }

    open spec fn from_spec(value: bson::DbPointer) -> Bson {
        Bson(bson::Bson::DbPointer(value))
    }
}

/// A document is written as the wire value of its own kind.
impl From<bson::Document> for Bson {
    fn from(value: bson::Document) -> (r: Bson) {
        Bson(bson::Bson::Document(value))
    }
}

impl FromSpecImpl<bson::Document> for Bson {
    open spec fn obeys_from_spec() -> bool {
        true
    }

    open spec fn from_spec(value: bson::Document) -> Bson {
        Bson(bson::Bson::Document(value))
    }
}

/// Code with its scope is written as the wire value of its own kind.
impl From<bson::JavaScriptCodeWithScope> for Bson {
    fn from(value: bson::JavaScriptCodeWithScope) -> (r: Bson) {
        Bson(bson::Bson::JavaScriptCodeWithScope(value))
    }
}

impl FromSpecImpl<bson::JavaScriptCodeWithScope> for Bson {
    open spec fn obeys_from_spec() -> bool {
        true
    }

    open spec fn from_spec(value: bson::JavaScriptCodeWithScope) -> Bson {
        Bson(bson::Bson::JavaScriptCodeWithScope(value))
    }
}

/// An object identifier is written as the wire value of its own kind.
impl From<bson::ObjectId> for Bson {
    fn from(value: bson::ObjectId) -> (r: Bson) {
        Bson(bson::Bson::ObjectId(value))
    }
}

impl FromSpecImpl<bson::ObjectId> for Bson {
    open spec fn obeys_from_spec() -> bool {
        true
    }

    open spec fn from_spec(value: bson::ObjectId) -> Bson {
        Bson(bson::Bson::ObjectId(value))
    }
}

/// A regular expression is written as the wire value of its own kind.
impl From<bson::Regex> for Bson {
    fn from(value: bson::Regex) -> (r: Bson) {
        Bson(bson::Bson::RegularExpression(value))
    }
}

impl FromSpecImpl<bson::Regex> for Bson {
    open spec fn obeys_from_spec() -> bool {
        true
    }

    open spec fn from_spec(value: bson::Regex) -> Bson {
        Bson(bson::Bson::RegularExpression(value))
    }
}

/// A timestamp is written as the wire value of its own kind.
impl From<bson::Timestamp> for Bson {
    fn from(value: bson::Timestamp) -> (r: Bson) {
        Bson(bson::Bson::Timestamp(value))
    }
}

impl FromSpecImpl<bson::Timestamp> for Bson {
    open spec fn obeys_from_spec() -> bool {
        true
    }

    open spec fn from_spec(value: bson::Timestamp) -> Bson {
        Bson(bson::Bson::Timestamp(value))
    }
}

/// A boolean is written as the wire value of its own kind.
impl From<bool> for Bson {
    fn from(value: bool) -> (r: Bson) {
        Bson(bson::Bson::Boolean(value))
    }
}

impl FromSpecImpl<bool> for Bson {
    open spec fn obeys_from_spec() -> bool {
        true
    }

    open spec fn from_spec(value: bool) -> Bson {
        Bson(bson::Bson::Boolean(value))
    }
}

/// An `i32` is written as the wire value of its own kind.
impl From<i32> for Bson {
    fn from(value: i32) -> (r: Bson) {
        Bson(bson::Bson::Int32(value))
    }
}

impl FromSpecImpl<i32> for Bson {
    open spec fn obeys_from_spec() -> bool {
        true
    }

    open spec fn from_spec(value: i32) -> Bson {
        Bson(bson::Bson::Int32(value))
    }
}

/// An `i64` is written as the wire value of its own kind.
impl From<i64> for Bson {
    fn from(value: i64) -> (r: Bson) {
        Bson(bson::Bson::Int64(value))
    }
}

impl FromSpecImpl<i64> for Bson {
    open spec fn obeys_from_spec() -> bool {
        true
    }

    open spec fn from_spec(value: i64) -> Bson {
        Bson(bson::Bson::Int64(value))
    }
}

/// A string is written as the wire value of its own kind.
impl From<String> for Bson {
    fn from(value: String) -> (r: Bson) {
        Bson(bson::Bson::String(value))
    }
}

impl FromSpecImpl<String> for Bson {
    open spec fn obeys_from_spec() -> bool {
        true
    }

    open spec fn from_spec(value: String) -> Bson {
        Bson(bson::Bson::String(value))
    }
}

/// A wire value is wrapped as it is.
impl From<bson::Bson> for Bson {
    fn from(value: bson::Bson) -> (r: Bson) {
        Bson(value)
    }
}

impl FromSpecImpl<bson::Bson> for Bson {
    open spec fn obeys_from_spec() -> bool {
        true
    }

    open spec fn from_spec(value: bson::Bson) -> Bson {
        Bson(value)
    }
}

/// Twelve bytes are written as the object identifier that they make up.
impl From<[u8; 12]> for Bson {
    fn from(value: [u8; 12]) -> (r: Bson) {
        Bson(bson::Bson::ObjectId(bson::ObjectId { bytes: value }))
    }
}

impl FromSpecImpl<[u8; 12]> for Bson {
    open spec fn obeys_from_spec() -> bool {
        true
    }

    open spec fn from_spec(value: [u8; 12]) -> Bson {
        Bson(bson::Bson::ObjectId(bson::ObjectId { bytes: value }))
    }
}

/// A `i8` is written as a 32-bit wire integer.
impl From<i8> for Bson {
    fn from(value: i8) -> (r: Bson) {
        Bson(bson::Bson::Int32(value as i32))
    }
}

impl FromSpecImpl<i8> for Bson {
    open spec fn obeys_from_spec() -> bool {
        true
    }

    open spec fn from_spec(value: i8) -> Bson {
        Bson(bson::Bson::Int32(value as i32))
    }
}

/// A `i16` is written as a 32-bit wire integer.
impl From<i16> for Bson {
    fn from(value: i16) -> (r: Bson) {
        Bson(bson::Bson::Int32(value as i32))
    }
}

impl FromSpecImpl<i16> for Bson {
    open spec fn obeys_from_spec() -> bool {
        true
    }

    open spec fn from_spec(value: i16) -> Bson {
        Bson(bson::Bson::Int32(value as i32))
    }
}

/// A `u8` is written as a 32-bit wire integer.
impl From<u8> for Bson {
    fn from(value: u8) -> (r: Bson) {
        Bson(bson::Bson::Int32(value as i32))
    }
}

impl FromSpecImpl<u8> for Bson {
    open spec fn obeys_from_spec() -> bool {
        true
    }

    open spec fn from_spec(value: u8) -> Bson {
        Bson(bson::Bson::Int32(value as i32))
    }
}

/// A `u16` is written as a 32-bit wire integer.
impl From<u16> for Bson {
    fn from(value: u16) -> (r: Bson) {
        Bson(bson::Bson::Int32(value as i32))
    }
}

impl FromSpecImpl<u16> for Bson {
    open spec fn obeys_from_spec() -> bool {
        true
    }

    open spec fn from_spec(value: u16) -> Bson {
        Bson(bson::Bson::Int32(value as i32))
    }
}

/// A `u32` is written as a 32-bit wire integer with the same bits.
impl From<u32> for Bson {
    fn from(value: u32) -> (r: Bson) {
        Bson(bson::Bson::Int32(#[verifier::truncate] (value as i32)))
    }
}

impl FromSpecImpl<u32> for Bson {
    open spec fn obeys_from_spec() -> bool {
        true
    }

    open spec fn from_spec(value: u32) -> Bson {
        Bson(bson::Bson::Int32(value as i32))
    }
}

/// A `u64` is written as a 64-bit wire integer with the same bits.
impl From<u64> for Bson {
    fn from(value: u64) -> (r: Bson) {
        Bson(bson::Bson::Int64(#[verifier::truncate] (value as i64)))
    }
}

impl FromSpecImpl<u64> for Bson {
    open spec fn obeys_from_spec() -> bool {
        true
    }

    open spec fn from_spec(value: u64) -> Bson {
        Bson(bson::Bson::Int64(value as i64))
    }
}

/// A string slice is written as a wire string with the same text.
impl From<&str> for Bson {
    fn from(value: &str) -> (r: Bson)
        ensures
            r@ == BsonView::String(value@),
    {
        Bson(bson::Bson::String(value.to_owned()))
    }
}

impl FromSpecImpl<&str> for Bson {
    open spec fn obeys_from_spec() -> bool {
        false
    }

    open spec fn from_spec(value: &str) -> Bson {
        arbitrary()
    }
}

/// A character is written as the wire string that holds just that character.
impl From<char> for Bson {
    fn from(value: char) -> (r: Bson)
        ensures
            r@ == BsonView::String(seq![value]),
    {
        Bson(bson::Bson::String(char_to_string(value)))
    }
}

impl FromSpecImpl<char> for Bson {
    open spec fn obeys_from_spec() -> bool {
        false
    }

    open spec fn from_spec(value: char) -> Bson {
        arbitrary()
    }
}

/// Whether `b` is something that the value `v` turns into by its own
/// conversion.
pub open spec fn turned<T: Into<Bson>>(v: T, b: Bson) -> bool {
    call_ensures(<T as Into<Bson>>::into, (v,), b)
}

/// A value whose conversion is stated turns into what the conversion
/// states.
pub proof fn lemma_turned<T: Into<Bson>>(v: T, b: Bson)
    requires
        T::obeys_into_spec(),
        turned(v, b),
    ensures
        b == v.into_spec(),
{
}

/// What a list is written as: the wire array of what each value turns
/// into, in the same order.
pub open spec fn array_written<T: Into<Bson>>(v: Seq<T>, r: Bson) -> bool {
    &&& r.0 is Array
    &&& r.0->Array_0@.len() == v.len()
    &&& forall|i: int| 0 <= i < v.len() ==> turned(v[i], Bson(#[trigger] r.0->Array_0@[i]))
}

/// A list is written as a wire array, element by element and in order.
impl<T: Into<Bson>> From<Vec<T>> for Bson {
    fn from(value: Vec<T>) -> (r: Bson)
        ensures
            array_written(value@, r),
    {
        let mut out: Vec<bson::Bson> = Vec::new();
        let ghost all = value@;
        for x in it: value
            invariant
                all == it.seq(),
                out@.len() == it.index(),
                forall|j: int| 0 <= j < it.index() ==> turned(all[j], Bson(#[trigger] out@[j])),
        {
            let b: Bson = x.into();
            assert(turned(x, b));
            out.push(b.0);
        }
        Bson(bson::Bson::Array(out))
    }
}

impl<T: Into<Bson>> FromSpecImpl<Vec<T>> for Bson {
    open spec fn obeys_from_spec() -> bool {
        false
    }

    open spec fn from_spec(value: Vec<T>) -> Bson {
        arbitrary()
    }
}

/// What a borrowed value is written as: what a clone of it turns into.
pub open spec fn clone_written<T: Clone + Into<Bson>>(v: &T, r: Bson) -> bool {
    exists|c: T| #[trigger] cloned(*v, c) && turned(c, r)
}

/// A borrowed value is written as a clone of it is.
impl<T: Clone + Into<Bson>> From<&T> for Bson {
    fn from(value: &T) -> (r: Bson)
        ensures
            clone_written(value, r),
    {
        let c = value.clone();
        let ghost copy = c;
        let r: Bson = c.into();
        assert(cloned(*value, copy) && turned(copy, r));
        r
    }
}

impl<T: Clone + Into<Bson>> FromSpecImpl<&T> for Bson {
    open spec fn obeys_from_spec() -> bool {
        false
    }

    open spec fn from_spec(value: &T) -> Bson {
        arbitrary()
    }
}

/// What a borrowed list of values is written as: the array of what a clone
/// of each value turns into, in the same order.
pub open spec fn clones_written<T: Clone + Into<Bson>>(v: Seq<T>, r: Bson) -> bool {
    &&& r.0 is Array
    &&& r.0->Array_0@.len() == v.len()
    &&& forall|i: int| 0 <= i < v.len() ==> clone_written(&v[i], Bson(#[trigger] r.0->Array_0@[i]))
}

/// A borrowed list is written as a wire array of clones, element by element
/// and in order.
impl<T: Clone + Into<Bson>> From<&[T]> for Bson {
    fn from(value: &[T]) -> (r: Bson)
        ensures
            clones_written(value@, r),
    {
        let mut out: Vec<bson::Bson> = Vec::new();
        let mut i: usize = 0;
        while i < value.len()
            invariant
                i <= value.len(),
                out@.len() == i,
                forall|j: int| 0 <= j < i ==> clone_written(&value@[j], Bson(#[trigger] out@[j])),
            decreases value.len() - i,
        {
            let b = Bson::from(&value[i]);
            out.push(b.0);
            i += 1;
        }
        Bson(bson::Bson::Array(out))
    }
}

impl<T: Clone + Into<Bson>> FromSpecImpl<&[T]> for Bson {
    open spec fn obeys_from_spec() -> bool {
        false
    }

    open spec fn from_spec(value: &[T]) -> Bson {
        arbitrary()
    }
}

/// A wire value is boxed as it is.
impl TryFrom<Bson> for Box<bson::Bson> {
    type Error = core::convert::Infallible;

    fn try_from(value: Bson) -> (r: Result<Box<bson::Bson>, core::convert::Infallible>)
        ensures
            r is Ok,
            *r->Ok_0 == value.0,
    {
        Ok(Box::new(value.0))
    }
}

impl TryFromSpecImpl<Bson> for Box<bson::Bson> {
    open spec fn obeys_try_from_spec() -> bool {
        false
    }

    open spec fn try_from_spec(value: Bson) -> Result<Box<bson::Bson>, core::convert::Infallible> {
        arbitrary()
    }
}

/// Whether `r` carries over what a conversion of an element returned: the
/// wire value, or the error as the error of writing that it turns into.
pub open spec fn carried<E: Into<ser::Error>>(inner: Result<Bson, E>, r: Result<Bson, ser::Error>)
    -> bool {
    if inner is Ok {
        r is Ok && r->Ok_0 == inner->Ok_0
    } else {
        r is Err && call_ensures(<E as Into<ser::Error>>::into, (inner->Err_0,), r->Err_0)
    }
}

/// Whether `r` is something that writing the element `v` gives: what its own
/// conversion returns, with the error carried over.
pub open spec fn element_written<T>(v: T, r: Result<Bson, ser::Error>) -> bool where
    T: TryInto<Bson>,
    T::Error: Into<ser::Error>,
 {
    exists|inner: Result<Bson, T::Error>| #[trigger]
        call_ensures(<T as TryInto<Bson>>::try_into, (v,), inner) && carried(inner, r)
}

/// Writes an element as a wire value by its own conversion.
pub fn write_element<T>(v: T) -> (r: Result<Bson, ser::Error>) where
    T: TryInto<Bson>,
    T::Error: Into<ser::Error>,

    ensures
        element_written(v, r),
{
    let inner = v.try_into();
    let ghost tried = inner;
    let r = match inner {
        Ok(b) => Ok(b),
        Err(e) => Err(e.into()),
    };
    assert(call_ensures(<T as TryInto<Bson>>::try_into, (v,), tried) && carried(tried, r));
    r
}

/// What an optional value is written as: null for `None`, what writing the
/// value gives for `Some`.
pub open spec fn option_written<T>(v: Option<T>, r: Result<Bson, ser::Error>) -> bool where
    T: TryInto<Bson>,
    T::Error: Into<ser::Error>,
 {
    if v is Some {
        element_written(v->Some_0, r)
    } else {
        r == Ok::<Bson, ser::Error>(Bson(bson::Bson::Null))
    }
}

/// An optional value is written as null where it is `None`, and as the value
/// itself where it is `Some`; the error of the value is carried over.
impl<T> TryFrom<Option<T>> for Bson where T: TryInto<Bson>, T::Error: Into<ser::Error> {
    type Error = ser::Error;

    fn try_from(value: Option<T>) -> (r: Result<Bson, ser::Error>)
        ensures
            option_written(value, r),
    {
        match value {
            Some(v) => write_element(v),
            None => Ok(Bson(bson::Bson::Null)),
        }
    }
}

impl<T> TryFromSpecImpl<Option<T>> for Bson where T: TryInto<Bson>, T::Error: Into<ser::Error> {
    open spec fn obeys_try_from_spec() -> bool {
        false
    }

    open spec fn try_from_spec(value: Option<T>) -> Result<Bson, ser::Error> {
        arbitrary()
    }
}

/// Writing an element that converts without fail gives the wire value that
/// its conversion states, and never an error.
pub proof fn lemma_element_written<T>(v: T, r: Result<Bson, ser::Error>) where Bson: From<T>
    requires
        <Bson as FromSpec<T>>::obeys_from_spec(),
        element_written(v, r),
    ensures
        r == Ok::<Bson, ser::Error>(<Bson as FromSpec<T>>::from_spec(v)),
{
}

/// A wire null is read as `None`, every other wire value as `Some` of itself.
impl From<Bson> for Option<bson::Bson> {
    fn from(value: Bson) -> (r: Option<bson::Bson>) {
        match value.0 {
            bson::Bson::Null => None,
            inner => Some(inner),
        }
    }
}

impl FromSpecImpl<Bson> for Option<bson::Bson> {
    open spec fn obeys_from_spec() -> bool {
        true
    }

    open spec fn from_spec(value: Bson) -> Option<bson::Bson> {
        match value.0 {
            bson::Bson::Null => None,
            inner => Some(inner),
        }
    }
}

/// The error for a wire value of another kind than the expected one.
pub open spec fn invalid_variant(expected: Expected, found: bson::Bson) -> Error {
    Error(Cause::InvalidVariant { expected, found })
}

/// The error for a wire integer that does not fit the native type.
pub open spec fn out_of_range(value: int, target: Target) -> Error {
    Error(Cause::OutOfRange { value: value as i64, target })
}

/// A wire boolean is read as a `bool`; every other wire value is refused.
impl TryFrom<Bson> for bool {
    type Error = Error;

    fn try_from(value: Bson) -> (r: Result<bool, Error>) {
        match value.0 {
            bson::Bson::Boolean(b) => Ok(b),
            other => Err(Error(Cause::InvalidVariant { expected: Expected::Bool, found: other })),
        }
    }
}

impl TryFromSpecImpl<Bson> for bool {
    open spec fn obeys_try_from_spec() -> bool {
        true
    }

    open spec fn try_from_spec(value: Bson) -> Result<bool, Error> {
        match value.0 {
            bson::Bson::Boolean(b) => Ok(b),
            other => Err(invalid_variant(Expected::Bool, other)),
        }
    }
}

/// A wire string of exactly one character is read as that character; a string of another length and every other wire value are refused.
impl TryFrom<Bson> for char {
    type Error = Error;

    fn try_from(value: Bson) -> (r: Result<char, Error>) {
        match value.0 {
            bson::Bson::String(s) => {
                if s.as_str().unicode_len() == 1 {
                    Ok(s.as_str().get_char(0))
                } else {
                    Err(Error(Cause::InvalidChar(s)))
                }
            },
            other => Err(Error(Cause::InvalidVariant { expected: Expected::String, found: other })),
        }
    }
}

impl TryFromSpecImpl<Bson> for char {
    open spec fn obeys_try_from_spec() -> bool {
        true
    }

    open spec fn try_from_spec(value: Bson) -> Result<char, Error> {
        match value.0 {
            bson::Bson::String(s) => if s@.len() == 1 {
                Ok(s@[0])
            } else {
                Err(Error(Cause::InvalidChar(s)))
            },
            other => Err(invalid_variant(Expected::String, other)),
        }
    }
}

/// A 32-bit wire integer within the range of `i8` is read as that `i8`; one outside the range and every other wire value are refused.
impl TryFrom<Bson> for i8 {
    type Error = Error;

    fn try_from(value: Bson) -> (r: Result<i8, Error>) {
        match value.0 {
            bson::Bson::Int32(i) => {
                if i < (i8::MIN as i32) || i > (i8::MAX as i32) {
                    Err(Error(Cause::OutOfRange { value: i as i64, target: Target::I8 }))
                } else {
                    Ok(i as i8)
                }
            },
            other => Err(Error(Cause::InvalidVariant { expected: Expected::Int32, found: other })),
        }
    }
}

impl TryFromSpecImpl<Bson> for i8 {
    open spec fn obeys_try_from_spec() -> bool {
        true
    }

    open spec fn try_from_spec(value: Bson) -> Result<i8, Error> {
        match value.0 {
            bson::Bson::Int32(i) => if i8::MIN <= i <= i8::MAX {
                Ok(i as i8)
            } else {
                Err(out_of_range(i as int, Target::I8))
            },
            other => Err(invalid_variant(Expected::Int32, other)),
        }
    }
}

/// A 32-bit wire integer within the range of `i16` is read as that `i16`; one outside the range and every other wire value are refused.
impl TryFrom<Bson> for i16 {
    type Error = Error;

    fn try_from(value: Bson) -> (r: Result<i16, Error>) {
        match value.0 {
            bson::Bson::Int32(i) => {
                if i < (i16::MIN as i32) || i > (i16::MAX as i32) {
                    Err(Error(Cause::OutOfRange { value: i as i64, target: Target::I16 }))
                } else {
                    Ok(i as i16)
                }
            },
            other => Err(Error(Cause::InvalidVariant { expected: Expected::Int32, found: other })),
        }
    }
}

impl TryFromSpecImpl<Bson> for i16 {
    open spec fn obeys_try_from_spec() -> bool {
        true
    }

    open spec fn try_from_spec(value: Bson) -> Result<i16, Error> {
        match value.0 {
            bson::Bson::Int32(i) => if i16::MIN <= i <= i16::MAX {
                Ok(i as i16)
            } else {
                Err(out_of_range(i as int, Target::I16))
            },
            other => Err(invalid_variant(Expected::Int32, other)),
        }
    }
}

/// A 32-bit wire integer within the range of `u8` is read as that `u8`; one outside the range and every other wire value are refused.
impl TryFrom<Bson> for u8 {
    type Error = Error;

    fn try_from(value: Bson) -> (r: Result<u8, Error>) {
        match value.0 {
            bson::Bson::Int32(i) => {
                if i < (u8::MIN as i32) || i > (u8::MAX as i32) {
                    Err(Error(Cause::OutOfRange { value: i as i64, target: Target::U8 }))
                } else {
                    Ok(i as u8)
                }
            },
            other => Err(Error(Cause::InvalidVariant { expected: Expected::Int32, found: other })),
        }
    }
}

impl TryFromSpecImpl<Bson> for u8 {
    open spec fn obeys_try_from_spec() -> bool {
        true
    }

    open spec fn try_from_spec(value: Bson) -> Result<u8, Error> {
        match value.0 {
            bson::Bson::Int32(i) => if u8::MIN <= i <= u8::MAX {
                Ok(i as u8)
            } else {
                Err(out_of_range(i as int, Target::U8))
            },
            other => Err(invalid_variant(Expected::Int32, other)),
        }
    }
}

/// A 32-bit wire integer within the range of `u16` is read as that `u16`; one outside the range and every other wire value are refused.
impl TryFrom<Bson> for u16 {
    type Error = Error;

    fn try_from(value: Bson) -> (r: Result<u16, Error>) {
        match value.0 {
            bson::Bson::Int32(i) => {
                if i < (u16::MIN as i32) || i > (u16::MAX as i32) {
                    Err(Error(Cause::OutOfRange { value: i as i64, target: Target::U16 }))
                } else {
                    Ok(i as u16)
                }
            },
            other => Err(Error(Cause::InvalidVariant { expected: Expected::Int32, found: other })),
        }
    }
}

impl TryFromSpecImpl<Bson> for u16 {
    open spec fn obeys_try_from_spec() -> bool {
        true
    }

    open spec fn try_from_spec(value: Bson) -> Result<u16, Error> {
        match value.0 {
            bson::Bson::Int32(i) => if u16::MIN <= i <= u16::MAX {
                Ok(i as u16)
            } else {
                Err(out_of_range(i as int, Target::U16))
            },
            other => Err(invalid_variant(Expected::Int32, other)),
        }
    }
}

/// A 32-bit wire integer is read as an `i32`; every other wire value is refused.
impl TryFrom<Bson> for i32 {
    type Error = Error;

    fn try_from(value: Bson) -> (r: Result<i32, Error>) {
        match value.0 {
            bson::Bson::Int32(i) => Ok(i),
            other => Err(Error(Cause::InvalidVariant { expected: Expected::Int32, found: other })),
        }
    }
}

impl TryFromSpecImpl<Bson> for i32 {
    open spec fn obeys_try_from_spec() -> bool {
        true
    }

    open spec fn try_from_spec(value: Bson) -> Result<i32, Error> {
        match value.0 {
            bson::Bson::Int32(i) => Ok(i),
            other => Err(invalid_variant(Expected::Int32, other)),
        }
    }
}

/// A 64-bit wire integer is read as an `i64`; every other wire value is refused.
impl TryFrom<Bson> for i64 {
    type Error = Error;

    fn try_from(value: Bson) -> (r: Result<i64, Error>) {
        match value.0 {
            bson::Bson::Int64(i) => Ok(i),
            other => Err(Error(Cause::InvalidVariant { expected: Expected::Int64, found: other })),
        }
    }
}

impl TryFromSpecImpl<Bson> for i64 {
    open spec fn obeys_try_from_spec() -> bool {
        true
    }

    open spec fn try_from_spec(value: Bson) -> Result<i64, Error> {
        match value.0 {
            bson::Bson::Int64(i) => Ok(i),
            other => Err(invalid_variant(Expected::Int64, other)),
        }
    }
}

/// A 64-bit wire integer within the range of `isize` is read as that `isize`; one outside the range and every other wire value are refused.
impl TryFrom<Bson> for isize {
    type Error = Error;

    fn try_from(value: Bson) -> (r: Result<isize, Error>) {
        match value.0 {
            bson::Bson::Int64(i) => {
                if i < (isize::MIN as i64) || i > (isize::MAX as i64) {
                    Err(Error(Cause::OutOfRange { value: i, target: Target::Isize }))
                } else {
                    Ok(i as isize)
                }
            },
            other => Err(Error(Cause::InvalidVariant { expected: Expected::Int64, found: other })),
        }
    }
}

impl TryFromSpecImpl<Bson> for isize {
    open spec fn obeys_try_from_spec() -> bool {
        true
    }

    open spec fn try_from_spec(value: Bson) -> Result<isize, Error> {
        match value.0 {
            bson::Bson::Int64(i) => if isize::MIN <= i <= isize::MAX {
                Ok(i as isize)
            } else {
                Err(out_of_range(i as int, Target::Isize))
            },
            other => Err(invalid_variant(Expected::Int64, other)),
        }
    }
}

/// A 32-bit wire integer is read as the `u32` with the same bits; every other wire value is refused.
impl TryFrom<Bson> for u32 {
    type Error = Error;

    fn try_from(value: Bson) -> (r: Result<u32, Error>) {
        match value.0 {
            bson::Bson::Int32(i) => Ok(#[verifier::truncate] (i as u32)),
            other => Err(Error(Cause::InvalidVariant { expected: Expected::Int32, found: other })),
        }
    }
}

impl TryFromSpecImpl<Bson> for u32 {
    open spec fn obeys_try_from_spec() -> bool {
        true
    }

    open spec fn try_from_spec(value: Bson) -> Result<u32, Error> {
        match value.0 {
            bson::Bson::Int32(i) => Ok(i as u32),
            other => Err(invalid_variant(Expected::Int32, other)),
        }
    }
}

/// A 64-bit wire integer is read as the `u64` with the same bits; every other wire value is refused.
impl TryFrom<Bson> for u64 {
    type Error = Error;

    fn try_from(value: Bson) -> (r: Result<u64, Error>) {
        match value.0 {
            bson::Bson::Int64(i) => Ok(#[verifier::truncate] (i as u64)),
            other => Err(Error(Cause::InvalidVariant { expected: Expected::Int64, found: other })),
        }
    }
}

impl TryFromSpecImpl<Bson> for u64 {
    open spec fn obeys_try_from_spec() -> bool {
        true
    }

    open spec fn try_from_spec(value: Bson) -> Result<u64, Error> {
        match value.0 {
            bson::Bson::Int64(i) => Ok(i as u64),
            other => Err(invalid_variant(Expected::Int64, other)),
        }
    }
}

/// A 64-bit wire integer is read as the `usize` with the same low bits; every other wire value is refused.
impl TryFrom<Bson> for usize {
    type Error = Error;

    fn try_from(value: Bson) -> (r: Result<usize, Error>) {
        match value.0 {
            bson::Bson::Int64(i) => Ok(#[verifier::truncate] (i as usize)),
            other => Err(Error(Cause::InvalidVariant { expected: Expected::Int64, found: other })),
        }
    }
}

impl TryFromSpecImpl<Bson> for usize {
    open spec fn obeys_try_from_spec() -> bool {
        true
    }

    open spec fn try_from_spec(value: Bson) -> Result<usize, Error> {
        match value.0 {
            bson::Bson::Int64(i) => Ok(i as usize),
            other => Err(invalid_variant(Expected::Int64, other)),
        }
    }
}

/// A wire string is read as a `String`; every other wire value is refused.
impl TryFrom<Bson> for String {
    type Error = Error;

    fn try_from(value: Bson) -> (r: Result<String, Error>) {
        match value.0 {
            bson::Bson::String(s) => Ok(s),
            other => Err(Error(Cause::InvalidVariant { expected: Expected::String, found: other })),
        }
    }
}

impl TryFromSpecImpl<Bson> for String {
    open spec fn obeys_try_from_spec() -> bool {
        true
    }

    open spec fn try_from_spec(value: Bson) -> Result<String, Error> {
        match value.0 {
            bson::Bson::String(s) => Ok(s),
            other => Err(invalid_variant(Expected::String, other)),
        }
    }
}

/// Whether `r` brings over what a conversion out of a wire value or a key
/// returned: the value, or the error as the error of reading that it turns
/// into.
pub open spec fn brought<T, E: Into<Error>>(inner: Result<T, E>, r: Result<T, Error>) -> bool {
    if inner is Ok {
        r is Ok && r->Ok_0 == inner->Ok_0
    } else {
        r is Err && call_ensures(<E as Into<Error>>::into, (inner->Err_0,), r->Err_0)
    }
}

/// Whether `r` is something that reading the wire value `b` as a `T` gives:
/// what the conversion of `T` returns, with the error brought over.
pub open spec fn element_read<T>(b: Bson, r: Result<T, Error>) -> bool where
    T: TryFrom<Bson>,
    T::Error: Into<Error>,
 {
    exists|inner: Result<T, T::Error>| #[trigger]
        call_ensures(<T as TryFrom<Bson>>::try_from, (b,), inner) && brought(inner, r)
}

/// Reads a wire value as a `T` by the conversion of `T`.
pub fn read_element<T>(b: Bson) -> (r: Result<T, Error>) where
    T: TryFrom<Bson>,
    T::Error: Into<Error>,

    ensures
        element_read(b, r),
{
    let inner = T::try_from(b);
    let ghost tried = inner;
    let r = match inner {
        Ok(v) => Ok(v),
        Err(e) => Err(e.into()),
    };
    assert(call_ensures(<T as TryFrom<Bson>>::try_from, (b,), tried) && brought(tried, r));
    r
}

/// Reading by a conversion that is stated succeeds exactly where the
/// conversion does, with its value.
pub proof fn lemma_element_read<T: TryFrom<Bson, Error = Error>>(b: Bson, r: Result<T, Error>)
    requires
        T::obeys_try_from_spec(),
        element_read(b, r),
    ensures
        r is Ok <==> T::try_from_spec(b) is Ok,
        r is Ok ==> r == T::try_from_spec(b),
{
}

/// Whether the wire values before position `i` are read as the values
/// `before`.
pub open spec fn items_before<T>(a: Seq<bson::Bson>, i: int, before: Seq<T>) -> bool where
    T: TryFrom<Bson>,
    T::Error: Into<Error>,
 {
    &&& before.len() == i
    &&& forall|j: int|
        0 <= j < i ==> element_read(Bson(a[j]), Ok::<T, Error>(#[trigger] before[j]))
}

/// Whether the wire value at position `i` is the first that cannot be read,
/// with the error `e`: those before it are read as the values `before`.
pub open spec fn item_failure<T>(a: Seq<bson::Bson>, i: int, before: Seq<T>, e: Error) -> bool where
    T: TryFrom<Bson>,
    T::Error: Into<Error>,
 {
    &&& 0 <= i < a.len()
    &&& element_read(Bson(a[i]), Err::<T, Error>(e))
    &&& items_before(a, i, before)
}

/// Whether `r` is what reading a list of wire values gives: the list of what
/// each is read as, in order, or the error of the first that cannot be read.
pub open spec fn items_read<T>(a: Seq<bson::Bson>, r: Result<Vec<T>, Error>) -> bool where
    T: TryFrom<Bson>,
    T::Error: Into<Error>,
 {
    if r is Ok {
        items_before(a, a.len() as int, r->Ok_0@)
    } else {
        exists|i: int, before: Seq<T>| #[trigger] item_failure(a, i, before, r->Err_0)
    }
}

/// What reading a wire value as a list gives: for an array, what reading its
/// elements gives; for every other wire value, a refusal.
pub open spec fn array_read<T>(value: bson::Bson, r: Result<Vec<T>, Error>) -> bool where
    T: TryFrom<Bson>,
    T::Error: Into<Error>,
 {
    match value {
        bson::Bson::Array(a) => items_read(a@, r),
        other => r == Err::<Vec<T>, Error>(invalid_variant(Expected::Array, other)),
    }
}

/// A wire array is read as a list, element by element and in order; the
/// first element that cannot be read ends the reading with its error.
impl<T> TryFrom<Bson> for Vec<T> where T: TryFrom<Bson>, T::Error: Into<Error> {
    type Error = Error;

    fn try_from(value: Bson) -> (r: Result<Vec<T>, Error>)
        ensures
            array_read(value.0, r),
    {
        let ghost whole = value;
        match value.0 {
            bson::Bson::Array(a) => {
                let mut out: Vec<T> = Vec::new();
                let ghost all = a@;
                for x in it: a
                    invariant
                        all == it.seq(),
                        whole == value,
                        whole.0 is Array,
                        whole.0->Array_0@ == all,
                        items_before(all, it.index() as int, out@),
                {
                    let ghost so_far = out@;
                    match read_element::<T>(Bson(x)) {
                        Ok(item) => {
                            out.push(item);
                        },
                        Err(e) => {
                            proof {
                                let r0 = Err::<Vec<T>, Error>(e);
                                assert(item_failure::<T>(all, it.index() as int, so_far, r0->Err_0));
                                assert(items_read::<T>(all, r0));
                            }
                            return Err(e);
                        },
                    }
                }
                Ok(out)
            },
            other => Err(Error(Cause::InvalidVariant { expected: Expected::Array, found: other })),
        }
    }
}

impl<T> TryFromSpecImpl<Bson> for Vec<T> where T: TryFrom<Bson>, T::Error: Into<Error> {
    open spec fn obeys_try_from_spec() -> bool {
        false
    }

    open spec fn try_from_spec(value: Bson) -> Result<Vec<T>, Error> {
        arbitrary()
    }
}

/// What holds of the entries that a map hands out, in whatever order: each
/// entry of the map comes once, and nothing else comes.
pub open spec fn entries_of<K, V>(m: HashMap<K, V>, pairs: Seq<(K, V)>) -> bool {
    obeys_key_model::<K>() && builds_valid_hashers::<RandomState>() ==> {
        &&& pairs.len() == m@.len()
        &&& forall|i: int|
            0 <= i < pairs.len() ==> m@.contains_key((#[trigger] pairs[i]).0) && m@[pairs[i].0]
                == pairs[i].1
        &&& forall|i: int, j: int|
            0 <= i < j < pairs.len() ==> (#[trigger] pairs[i]).0 != (#[trigger] pairs[j]).0
        &&& forall|k: K| #[trigger]
            m@.contains_key(k) ==> exists|i: int|
                0 <= i < pairs.len() && (#[trigger] pairs[i]).0 == k
    }
}

/// What holds of the elements that a set hands out, in whatever order: each
/// element of the set comes once, and nothing else comes.
pub open spec fn elements_of<T>(s: HashSet<T>, items: Seq<T>) -> bool {
    obeys_key_model::<T>() && builds_valid_hashers::<RandomState>() ==> {
        &&& items.len() == s@.len()
        &&& forall|i: int| 0 <= i < items.len() ==> s@.contains(#[trigger] items[i])
        &&& forall|i: int, j: int|
            0 <= i < j < items.len() ==> (#[trigger] items[i]) != (#[trigger] items[j])
        &&& forall|x: T| #[trigger]
            s@.contains(x) ==> exists|i: int| 0 <= i < items.len() && #[trigger] items[i] == x
    }
}

/// The entries of a map, in the order in which the map hands them out.
///
/// Trusted: collecting a `HashMap` into a `Vec` gives each entry of the map
/// exactly once, and leaves none out. The order is that of the map's own
/// iteration and is not specified.
#[verifier::external_body]
pub(crate) fn map_entries<K, V>(m: HashMap<K, V>) -> (r: Vec<(K, V)>)
    ensures
        entries_of(m, r@),
{
    Vec::from_iter(m)
}

/// The elements of a set, in the order in which the set hands them out.
///
/// Trusted: collecting a `HashSet` into a `Vec` gives each element of the set
/// exactly once, and leaves none out. The order is that of the set's own
/// iteration and is not specified.
#[verifier::external_body]
fn set_elements<T>(s: HashSet<T>) -> (r: Vec<T>)
    ensures
        elements_of(s, r@),
{
    Vec::from_iter(s)
}

/// Whether the elements before position `i` are written as the wire values
/// `before`.
pub open spec fn elements_before<T>(items: Seq<T>, i: int, before: Seq<bson::Bson>) -> bool where
    T: TryInto<Bson>,
    T::Error: Into<ser::Error>,
 {
    &&& before.len() == i
    &&& forall|j: int|
        0 <= j < i ==> element_written(items[j], Ok::<Bson, ser::Error>(Bson(#[trigger] before[j])))
}

/// Whether the element at position `i` is the first whose writing fails,
/// with the error `e`: the elements before it are written as the wire values
/// `before`.
pub open spec fn element_failure<T>(items: Seq<T>, i: int, before: Seq<bson::Bson>, e: ser::Error)
    -> bool where T: TryInto<Bson>, T::Error: Into<ser::Error> {
    &&& 0 <= i < items.len()
    &&& element_written(items[i], Err::<Bson, ser::Error>(e))
    &&& elements_before(items, i, before)
}

/// Whether `r` is what writing a list of elements gives: the wire array of
/// what each element is written as, in order, or the error of the first
/// element whose writing fails.
pub open spec fn elements_written<T>(items: Seq<T>, r: Result<Bson, ser::Error>) -> bool where
    T: TryInto<Bson>,
    T::Error: Into<ser::Error>,
 {
    if r is Ok {
        r->Ok_0.0 is Array && elements_before(items, items.len() as int, r->Ok_0.0->Array_0@)
    } else {
        exists|i: int, before: Seq<bson::Bson>| #[trigger]
            element_failure(items, i, before, r->Err_0)
    }
}

/// Writes a list of elements as a wire array, element by element and in
/// order; the first element whose writing fails ends the writing with its
/// error.
pub fn write_elements<T>(items: Vec<T>) -> (r: Result<Bson, ser::Error>) where
    T: TryInto<Bson>,
    T::Error: Into<ser::Error>,

    ensures
        elements_written(items@, r),
{
    let ghost all = items@;
    let mut out: Vec<bson::Bson> = Vec::new();
    for item in it: items
        invariant
            all == it.seq(),
            all == items@,
            elements_before(all, it.index() as int, out@),
    {
        let w = write_element(item);
        match w {
            Ok(b) => {
                out.push(b.0);
            },
            Err(e) => {
                proof {
                    let r0 = Err::<Bson, ser::Error>(e);
                    assert(element_failure(all, it.index() as int, out@, e));
                    assert(exists|i: int, before: Seq<bson::Bson>| #[trigger]
                        element_failure(all, i, before, r0->Err_0));
                }
                return Err(e);
            },
        }
    }
    Ok(Bson(bson::Bson::Array(out)))
}

/// std's conversion of a value into its own type, `From<T> for T`, returns the
/// argument unchanged, as its documentation says.
pub assume_specification<Same>[ <Same as std::convert::From<Same>>::from ](t: Same) -> (r: Same)
    ensures
        r == t,
;

/// A string key is written as itself.
pub proof fn lemma_string_key_written(k: String, key: String)
    requires
        key_written(k, key),
    ensures
        key == k,
{
}

/// Whether `key` is something that the key `k` of a map turns into.
pub open spec fn key_written<K: Into<String>>(k: K, key: String) -> bool {
    call_ensures(<K as Into<String>>::into, (k,), key)
}

/// Whether `entry` is what an entry of a map is written as: the string of
/// its key, with what its value is written as.
pub open spec fn pair_written<K, V>(pair: (K, V), entry: (String, bson::Bson)) -> bool where
    K: Into<String>,
    V: TryInto<Bson>,
    V::Error: Into<ser::Error>,
 {
    &&& key_written(pair.0, entry.0)
    &&& element_written(pair.1, Ok::<Bson, ser::Error>(Bson(entry.1)))
}

/// Whether the entries before position `i` are written as the entries
/// `before`.
pub open spec fn pairs_before<K, V>(pairs: Seq<(K, V)>, i: int, before: Seq<(String, bson::Bson)>)
    -> bool where K: Into<String>, V: TryInto<Bson>, V::Error: Into<ser::Error> {
    &&& before.len() == i
    &&& forall|j: int| 0 <= j < i ==> pair_written(pairs[j], #[trigger] before[j])
}

/// Whether the entry at position `i` is the first whose value cannot be
/// written, with the error `e`: the entries before it are written as the
/// entries `before`.
pub open spec fn pair_failure<K, V>(
    pairs: Seq<(K, V)>,
    i: int,
    before: Seq<(String, bson::Bson)>,
    e: ser::Error,
) -> bool where K: Into<String>, V: TryInto<Bson>, V::Error: Into<ser::Error> {
    &&& 0 <= i < pairs.len()
    &&& element_written(pairs[i].1, Err::<Bson, ser::Error>(e))
    &&& pairs_before(pairs, i, before)
}

/// The document that holds each entry of a list under its key, in order: a
/// key that comes again keeps its first place and gets the later value.
pub open spec fn document_from(entries: Seq<(String, bson::Bson)>) -> DocumentView
    decreases entries.len(),
{
    if entries.len() == 0 {
        Seq::empty()
    } else {
        inserted(document_from(entries.drop_last()), entries.last().0@, entries.last().1@)
    }
}

/// Whether the wire value `b` is the document of the entries that the list
/// `pairs` is written as.
pub open spec fn pairs_document<K, V>(pairs: Seq<(K, V)>, b: Bson) -> bool where
    K: Into<String>,
    V: TryInto<Bson>,
    V::Error: Into<ser::Error>,
 {
    exists|entries: Seq<(String, bson::Bson)>| #[trigger]
        pairs_before(pairs, pairs.len() as int, entries) && b@ == BsonView::Document(
            document_from(entries),
        )
}

/// Whether `r` is what writing a list of entries gives: the document of
/// what each entry is written as, in order, or the error of the first value
/// that cannot be written.
pub open spec fn pairs_written<K, V>(pairs: Seq<(K, V)>, r: Result<Bson, ser::Error>) -> bool where
    K: Into<String>,
    V: TryInto<Bson>,
    V::Error: Into<ser::Error>,
 {
    if r is Ok {
        pairs_document(pairs, r->Ok_0)
    } else {
        exists|i: int, before: Seq<(String, bson::Bson)>| #[trigger]
            pair_failure(pairs, i, before, r->Err_0)
    }
}

/// The document that holds each entry of a list under its key, in order.
pub fn entries_into_document(entries: Vec<(String, bson::Bson)>) -> (d: bson::Document)
    ensures
        d@ == document_from(entries@),
{
    let mut doc = bson::Document::new();
    let ghost all = entries@;
    assert(all.take(0) =~= Seq::empty());
    for entry in it: entries
        invariant
            all == it.seq(),
            doc@ == document_from(all.take(it.index() as int)),
    {
        proof {
            let i = it.index() as int;
            assert(all.take(i + 1).drop_last() =~= all.take(i));
            assert(all.take(i + 1).last() == all[i]);
        }
        let (key, value) = entry;
        let _ = doc.insert(key, value);
    }
    assert(all.take(all.len() as int) =~= all);
    doc
}

/// Writes a list of entries as a document: each value under the string of
/// its key, in order; the first value that cannot be written ends the
/// writing with its error.
pub fn write_pairs<K, V>(pairs: Vec<(K, V)>) -> (r: Result<Bson, ser::Error>) where
    K: Into<String>,
    V: TryInto<Bson>,
    V::Error: Into<ser::Error>,

    ensures
        pairs_written(pairs@, r),
{
    let ghost all = pairs@;
    let mut entries: Vec<(String, bson::Bson)> = Vec::new();
    for pair in it: pairs
        invariant
            all == it.seq(),
            all == pairs@,
            pairs_before(all, it.index() as int, entries@),
    {
        let (k, v) = pair;
        let key: String = k.into();
        assert(key_written(k, key));
        match write_element(v) {
            Ok(b) => {
                entries.push((key, b.0));
            },
            Err(e) => {
                proof {
                    let r0 = Err::<Bson, ser::Error>(e);
                    assert(pair_failure(all, it.index() as int, entries@, e));
                    assert(exists|i: int, before: Seq<(String, bson::Bson)>| #[trigger]
                        pair_failure(all, i, before, r0->Err_0));
                }
                return Err(e);
            },
        }
    }
    let ghost written = entries@;
    let d = entries_into_document(entries);
    let b = Bson(bson::Bson::Document(d));
    proof {
        assert(pairs_before(all, all.len() as int, written) && b@ == BsonView::Document(
            document_from(written),
        ));
    }
    Ok(b)
}

/// Whether `r` is what writing a map gives: what writing its entries gives,
/// in the order in which the map hands them out.
pub open spec fn map_written<K, V>(m: HashMap<K, V>, r: Result<Bson, ser::Error>) -> bool where
    K: Into<String>,
    V: TryInto<Bson>,
    V::Error: Into<ser::Error>,
 {
    exists|pairs: Seq<(K, V)>| #[trigger] entries_of(m, pairs) && pairs_written(pairs, r)
}

/// A map is written as a document, entry by entry, in the order in which the
/// map hands out its entries; the first value that cannot be written gives
/// the error.
impl<K, V> TryFrom<HashMap<K, V>> for Bson where
    K: Into<String>,
    V: TryInto<Bson>,
    V::Error: Into<ser::Error>,
 {
    type Error = ser::Error;

    fn try_from(value: HashMap<K, V>) -> (r: Result<Bson, ser::Error>)
        ensures
            map_written(value, r),
    {
        let pairs = map_entries(value);
        let ghost handed = pairs@;
        let r = write_pairs(pairs);
        assert(entries_of(value, handed) && pairs_written(handed, r));
        r
    }
}

impl<K, V> TryFromSpecImpl<HashMap<K, V>> for Bson where
    K: Into<String>,
    V: TryInto<Bson>,
    V::Error: Into<ser::Error>,
 {
    open spec fn obeys_try_from_spec() -> bool {
        false
    }

    open spec fn try_from_spec(value: HashMap<K, V>) -> Result<Bson, ser::Error> {
        arbitrary()
    }
}

/// Whether `r` is what writing a set gives: what writing its elements
/// gives, in the order in which the set hands them out.
pub open spec fn set_written<T>(s: HashSet<T>, r: Result<Bson, ser::Error>) -> bool where
    T: TryInto<Bson>,
    T::Error: Into<ser::Error>,
 {
    exists|items: Seq<T>| #[trigger] elements_of(s, items) && elements_written(items, r)
}

/// A set is written as a wire array, element by element, in the order in
/// which the set hands out its elements; the first element that cannot be
/// written gives the error.
impl<T> TryFrom<HashSet<T>> for Bson where T: Eq + Hash + TryInto<Bson>, T::Error: Into<ser::Error> {
    type Error = ser::Error;

    fn try_from(value: HashSet<T>) -> (r: Result<Bson, ser::Error>)
        ensures
            set_written(value, r),
    {
        let items = set_elements(value);
        let ghost handed = items@;
        let r = write_elements(items);
        assert(elements_of(value, handed) && elements_written(handed, r));
        r
    }
}

impl<T> TryFromSpecImpl<HashSet<T>> for Bson where T: Eq + Hash + TryInto<Bson>, T::Error: Into<ser::Error> {
    open spec fn obeys_try_from_spec() -> bool {
        false
    }

    open spec fn try_from_spec(value: HashSet<T>) -> Result<Bson, ser::Error> {
        arbitrary()
    }
}

/// Whether `r` is something that reading the key `key` as a `K` gives: what
/// the conversion of `K` returns, with the error brought over.
pub open spec fn key_read<K>(key: String, r: Result<K, Error>) -> bool where
    K: TryFrom<String>,
    K::Error: Into<Error>,
 {
    exists|inner: Result<K, K::Error>| #[trigger]
        call_ensures(<K as TryFrom<String>>::try_from, (key,), inner) && brought(inner, r)
}

/// Reads a key as a `K` by the conversion of `K`.
pub fn read_key<K>(key: String) -> (r: Result<K, Error>) where
    K: TryFrom<String>,
    K::Error: Into<Error>,

    ensures
        key_read(key, r),
{
    let inner = K::try_from(key);
    let ghost tried = inner;
    let r = match inner {
        Ok(k) => Ok(k),
        Err(e) => Err(e.into()),
    };
    assert(call_ensures(<K as TryFrom<String>>::try_from, (key,), tried) && brought(tried, r));
    r
}

/// A string key is read as itself, without fail.
pub proof fn lemma_string_key_read(key: String, r: Result<String, Error>)
    requires
        key_read::<String>(key, r),
    ensures
        r == Ok::<String, Error>(key),
{
}

/// Whether an entry of a document is read as the entry `pair` of a map.
pub open spec fn entry_read<K, V>(entry: (String, bson::Bson), pair: (K, V)) -> bool where
    K: TryFrom<String>,
    K::Error: Into<Error>,
    V: TryFrom<Bson>,
    V::Error: Into<Error>,
 {
    &&& key_read(entry.0, Ok::<K, Error>(pair.0))
    &&& element_read(Bson(entry.1), Ok::<V, Error>(pair.1))
}

/// Whether the entries before position `i` are read as the entries
/// `before`.
pub open spec fn entries_before<K, V>(
    entries: Seq<(String, bson::Bson)>,
    i: int,
    before: Seq<(K, V)>,
) -> bool where K: TryFrom<String>, K::Error: Into<Error>, V: TryFrom<Bson>, V::Error: Into<Error> {
    &&& before.len() == i
    &&& forall|j: int| 0 <= j < i ==> entry_read(entries[j], #[trigger] before[j])
}

/// Whether reading the entry at position `i` fails with the error `e`: its
/// key cannot be read, or its key can and its value cannot.
pub open spec fn entry_refused<K, V>(entry: (String, bson::Bson), e: Error) -> bool where
    K: TryFrom<String>,
    K::Error: Into<Error>,
    V: TryFrom<Bson>,
    V::Error: Into<Error>,
 {
    ||| key_read(entry.0, Err::<K, Error>(e))
    ||| (exists|k: K| #[trigger] key_read(entry.0, Ok::<K, Error>(k))) && element_read(
        Bson(entry.1),
        Err::<V, Error>(e),
    )
}

/// Whether the entry at position `i` is the first that cannot be read, with
/// the error `e`: the entries before it are read as the entries `before`.
pub open spec fn entry_failure<K, V>(
    entries: Seq<(String, bson::Bson)>,
    i: int,
    before: Seq<(K, V)>,
    e: Error,
) -> bool where K: TryFrom<String>, K::Error: Into<Error>, V: TryFrom<Bson>, V::Error: Into<Error> {
    &&& 0 <= i < entries.len()
    &&& entry_refused::<K, V>(entries[i], e)
    &&& entries_before(entries, i, before)
}

/// The map that holds each entry of a list, in order: a key that comes
/// again gets the later value.
pub open spec fn map_of<K, V>(pairs: Seq<(K, V)>) -> Map<K, V>
    decreases pairs.len(),
{
    if pairs.len() == 0 {
        Map::empty()
    } else {
        map_of(pairs.drop_last()).insert(pairs.last().0, pairs.last().1)
    }
}

/// Whether the map `m` holds what the entries of a document are read as.
pub open spec fn entries_mapped<K, V>(entries: Seq<(String, bson::Bson)>, m: HashMap<K, V>) -> bool where
    K: TryFrom<String>,
    K::Error: Into<Error>,
    V: TryFrom<Bson>,
    V::Error: Into<Error>,
 {
    exists|pairs: Seq<(K, V)>| #[trigger]
        entries_before(entries, entries.len() as int, pairs) && (obeys_key_model::<K>()
            && builds_valid_hashers::<RandomState>() ==> m@ == map_of(pairs))
}

/// Whether `r` is what reading the entries of a document as a map gives:
/// the map of what each entry is read as, or the error of the first entry
/// that cannot be read.
pub open spec fn entries_read<K, V>(
    entries: Seq<(String, bson::Bson)>,
    r: Result<HashMap<K, V>, Error>,
) -> bool where K: TryFrom<String>, K::Error: Into<Error>, V: TryFrom<Bson>, V::Error: Into<Error> {
    if r is Ok {
        entries_mapped(entries, r->Ok_0)
    } else {
        exists|i: int, before: Seq<(K, V)>| #[trigger]
            entry_failure(entries, i, before, r->Err_0)
    }
}

/// What reading a wire value as a map gives: for a document, what reading
/// its entries gives, each key and value read by its own conversion. Every
/// other wire value is refused.
pub open spec fn document_read<K, V>(value: bson::Bson, r: Result<HashMap<K, V>, Error>) -> bool where
    K: TryFrom<String>,
    K::Error: Into<Error>,
    V: TryFrom<Bson>,
    V::Error: Into<Error>,
 {
    match value {
        bson::Bson::Document(d) => exists|entries: Seq<(String, bson::Bson)>|
            #![trigger bson::entries_view(entries)]
            bson::entries_view(entries) == d@ && entries_read(entries, r),
        other => r == Err::<HashMap<K, V>, Error>(invalid_variant(Expected::Document, other)),
    }
}

/// Reads the entries of a document as a map, entry by entry: the key first,
/// then the value; the first that cannot be read ends the reading with its
/// error.
pub fn read_entries<K, V>(entries: Vec<(String, bson::Bson)>) -> (r: Result<
    HashMap<K, V>,
    Error,
>) where
    K: Eq + Hash + TryFrom<String>,
    K::Error: Into<Error>,
    V: TryFrom<Bson>,
    V::Error: Into<Error>,

    ensures
        entries_read(entries@, r),
{
    let ghost all = entries@;
    let mut m: HashMap<K, V> = HashMap::with_capacity(entries.len());
    let ghost mut pairs: Seq<(K, V)> = Seq::empty();
    for entry in it: entries
        invariant
            all == it.seq(),
            all == entries@,
            entries_before(all, it.index() as int, pairs),
            obeys_key_model::<K>() && builds_valid_hashers::<RandomState>() ==> m@ == map_of(
                pairs,
            ),
    {
        let ghost i = it.index() as int;
        let (k, v) = entry;
        let key = match read_key::<K>(k) {
            Ok(key) => key,
            Err(e) => {
                proof {
                    let r0 = Err::<HashMap<K, V>, Error>(e);
                    assert(entry_refused::<K, V>(all[i], r0->Err_0));
                    assert(entry_failure::<K, V>(all, i, pairs, r0->Err_0));
                    assert(entries_read::<K, V>(all, r0));
                }
                return Err(e);
            },
        };
        let item = match read_element::<V>(Bson(v)) {
            Ok(item) => item,
            Err(e) => {
                proof {
                    let r0 = Err::<HashMap<K, V>, Error>(e);
                    assert(key_read(all[i].0, Ok::<K, Error>(key)));
                    assert(entry_refused::<K, V>(all[i], r0->Err_0));
                    assert(entry_failure::<K, V>(all, i, pairs, r0->Err_0));
                    assert(entries_read::<K, V>(all, r0));
                }
                return Err(e);
            },
        };
        proof {
            let next = pairs.push((key, item));
            assert(next.drop_last() =~= pairs);
            assert(next.last() == (key, item));
            assert(entry_read(all[i], next[i]));
            assert forall|j: int| 0 <= j < i + 1 implies entry_read(all[j], #[trigger] next[j]) by {
                if j < i {
                    assert(next[j] == pairs[j]);
                }
            }
            pairs = next;
        }
        let _ = m.insert(key, item);
    }
    proof {
        assert(entries_before(all, all.len() as int, pairs) && (obeys_key_model::<K>()
            && builds_valid_hashers::<RandomState>() ==> m@ == map_of(pairs)));
    }
    Ok(m)
}

/// A wire document is read as a map, entry by entry.
impl<K, V> TryFrom<Bson> for HashMap<K, V> where
    K: Eq + Hash + TryFrom<String>,
    K::Error: Into<Error>,
    V: TryFrom<Bson>,
    V::Error: Into<Error>,
 {
    type Error = Error;

    fn try_from(value: Bson) -> (r: Result<HashMap<K, V>, Error>)
        ensures
            document_read(value.0, r),
    {
        match value.0 {
            bson::Bson::Document(d) => {
                let entries = d.into_entries();
                let ghost all = entries@;
                let r = read_entries(entries);
                assert(bson::entries_view(all) == d@ && entries_read(all, r));
                r
            },
            other => Err(
                Error(Cause::InvalidVariant { expected: Expected::Document, found: other }),
            ),
        }
    }
}

impl<K, V> TryFromSpecImpl<Bson> for HashMap<K, V> where
    K: Eq + Hash + TryFrom<String>,
    K::Error: Into<Error>,
    V: TryFrom<Bson>,
    V::Error: Into<Error>,
 {
    open spec fn obeys_try_from_spec() -> bool {
        false
    }

    open spec fn try_from_spec(value: Bson) -> Result<HashMap<K, V>, Error> {
        arbitrary()
    }
}

/// Whether the set `s` holds the elements of a list that the wire value
/// `value` is read as.
pub open spec fn list_collected<T>(value: bson::Bson, s: HashSet<T>) -> bool where
    T: TryFrom<Bson>,
    T::Error: Into<Error>,
 {
    exists|v: Vec<T>| #[trigger]
        array_read(value, Ok::<Vec<T>, Error>(v)) && (obeys_key_model::<T>()
            && builds_valid_hashers::<RandomState>() ==> s@ == v@.to_set())
}

/// What reading a wire value as a set gives: the set of the elements of the
/// list that the wire value reads as, or the error of that reading.
pub open spec fn set_read<T>(value: bson::Bson, r: Result<HashSet<T>, Error>) -> bool where
    T: TryFrom<Bson>,
    T::Error: Into<Error>,
 {
    if r is Ok {
        list_collected(value, r->Ok_0)
    } else {
        array_read(value, Err::<Vec<T>, Error>(r->Err_0))
    }
}

/// The set of the elements of a list.
pub fn collect_set<T: Eq + Hash>(items: Vec<T>) -> (s: HashSet<T>)
    ensures
        obeys_key_model::<T>() && builds_valid_hashers::<RandomState>() ==> s@ == items@.to_set(),
{
    let ghost all = items@;
    let mut s: HashSet<T> = HashSet::new();
    assert(all.take(0).to_set() =~= Set::<T>::empty());
    for item in it: items
        invariant
            all == it.seq(),
            obeys_key_model::<T>() && builds_valid_hashers::<RandomState>() ==> s@ == all.take(
                it.index() as int,
            ).to_set(),
    {
        proof {
            let i = it.index() as int;
            let a = all.take(i);
            assert(all.take(i + 1) =~= a.push(all[i]));
            assert forall|x: T|
                a.push(all[i]).to_set().contains(x) <==> a.to_set().insert(all[i]).contains(
                    x,
                ) by {
                if a.push(all[i]).contains(x) {
                    let k = choose|k: int| 0 <= k < a.push(all[i]).len() && a.push(all[i])[k] == x;
                    if k < a.len() {
                        assert(a[k] == x);
                    }
                }
                if a.contains(x) {
                    let k = choose|k: int| 0 <= k < a.len() && a[k] == x;
                    assert(a.push(all[i])[k] == x);
                }
                if x == all[i] {
                    assert(a.push(all[i])[a.len() as int] == x);
                }
            }
            assert(a.push(all[i]).to_set() =~= a.to_set().insert(all[i]));
        }
        let _ = s.insert(item);
    }
    assert(all.take(all.len() as int) =~= all);
    s
}

/// A wire array is read as a set, element by element.
impl<T> TryFrom<Bson> for HashSet<T> where T: Eq + Hash + TryFrom<Bson>, T::Error: Into<Error> {
    type Error = Error;

    fn try_from(value: Bson) -> (r: Result<HashSet<T>, Error>)
        ensures
            set_read(value.0, r),
    {
        let read: Result<Vec<T>, Error> = Vec::try_from(value);
        match read {
            Ok(items) => {
                let ghost list = items;
                let s = collect_set(items);
                assert(array_read(value.0, Ok::<Vec<T>, Error>(list)) && (obeys_key_model::<T>()
                    && builds_valid_hashers::<RandomState>() ==> s@ == list@.to_set()));
                Ok(s)
            },
            Err(e) => Err(e),
        }
    }
}

impl<T> TryFromSpecImpl<Bson> for HashSet<T> where T: Eq + Hash + TryFrom<Bson>, T::Error: Into<Error> {
    open spec fn obeys_try_from_spec() -> bool {
        false
    }

    open spec fn try_from_spec(value: Bson) -> Result<HashSet<T>, Error> {
        arbitrary()
    }
}

} // verus!
