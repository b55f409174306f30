//! Filters: the predicates by which documents are found.

use vstd::prelude::*;
use vstd::std_specs::convert::TryFromSpecImpl;
use vstd::string::StringExecFns;
use crate::bson::Bson;
use crate::bson::BsonView;
use crate::bson::Document;
use crate::bson::array_view;
use crate::error::Error;
use crate::ext;
use crate::ext::bson::element_written;
use crate::ext::bson::elements_written;
use crate::ext::bson::ser;
use crate::ext::bson::write_element;
use crate::ext::bson::write_elements;

verus! {

/// The BSON comparators for comparison of different BSON type values.
#[derive(Debug, PartialEq, Eq)]
pub enum Comparator<T> {
    /// Matches values that are equal to a specified value.
    Eq(T),
    /// Matches values that are greater than a specified value.
    Gt(T),
    /// Matches values that are greater than or equal to a specified value.
    Gte(T),
    /// Matches any of the values specified in an array.
    In(Vec<T>),
    /// Matches values that are less than a specified value.
    Lt(T),
    /// Matches values that are less than or equal to a specified value.
    Lte(T),
    /// Matches all values that are not equal to a specified value.
    Ne(T),
    /// Matches none of the values specified in an array.
    Nin(Vec<T>),
}

/// The query operator that a comparator is written with.
pub open spec fn operator<T>(c: Comparator<T>) -> Seq<char> {
    match c {
        Comparator::Eq(_) => "$eq"@,
        Comparator::Gt(_) => "$gt"@,
        Comparator::Gte(_) => "$gte"@,
        Comparator::In(_) => "$in"@,
        Comparator::Lt(_) => "$lt"@,
        Comparator::Lte(_) => "$lte"@,
        Comparator::Ne(_) => "$ne"@,
        Comparator::Nin(_) => "$nin"@,
    }
}

/// The document with the single entry `value` under `key`.
fn single(key: &str, value: Bson) -> (r: Bson)
    ensures
        r@ == BsonView::Document(seq![(key@, value@)]),
{
    let mut doc = Document::new();
    let _ = doc.insert(String::from_str(key), value);
    proof {
        let empty = Seq::<(Seq<char>, BsonView)>::empty();
        assert(!crate::bson::contains_key(empty, key@));
        assert(doc@ =~= seq![(key@, value@)]);
    }
    Bson::Document(doc)
}

/// The wire value that a comparator of wire values compares with: its value,
/// or the array of its values.
pub open spec fn wire_operand(c: Comparator<Bson>) -> BsonView {
    match c {
        Comparator::Eq(t) | Comparator::Gt(t) | Comparator::Gte(t) | Comparator::Lt(t)
        | Comparator::Lte(t) | Comparator::Ne(t) => t@,
        Comparator::In(list) | Comparator::Nin(list) => BsonView::Array(array_view(list@)),
    }
}

/// What a comparator of wire values is written as: the document with one
/// entry, the operand under the operator.
pub open spec fn wire_comparator_spec(c: Comparator<Bson>) -> BsonView {
    BsonView::Document(seq![(operator(c), wire_operand(c))])
}

/// Writes a comparator of wire values as the document of its operator and
/// operand.
pub fn wire_comparator(c: Comparator<Bson>) -> (r: Bson)
    ensures
        r@ == wire_comparator_spec(c),
{
    match c {
        Comparator::Eq(t) => single("$eq", t),
        Comparator::Gt(t) => single("$gt", t),
        Comparator::Gte(t) => single("$gte", t),
        Comparator::In(list) => single("$in", Bson::Array(list)),
        Comparator::Lt(t) => single("$lt", t),
        Comparator::Lte(t) => single("$lte", t),
        Comparator::Ne(t) => single("$ne", t),
        Comparator::Nin(list) => single("$nin", Bson::Array(list)),
    }
}

/// Whether a comparator compares with a list of values.
pub open spec fn is_list<T>(c: Comparator<T>) -> bool {
    c is In || c is Nin
}

/// The value that a comparator compares with, where it compares with one.
pub open spec fn value_of<T>(c: Comparator<T>) -> T {
    match c {
        Comparator::Eq(t) | Comparator::Gt(t) | Comparator::Gte(t) | Comparator::Lt(t)
        | Comparator::Lte(t) | Comparator::Ne(t) => t,
        _ => arbitrary(),
    }
}

/// The values that a comparator compares with, where it compares with a
/// list.
pub open spec fn list_of<T>(c: Comparator<T>) -> Seq<T> {
    match c {
        Comparator::In(list) | Comparator::Nin(list) => list@,
        _ => Seq::empty(),
    }
}

/// Whether `r` is what writing an operand under an operator gives: the
/// document with the one entry, or the error of writing the operand.
pub open spec fn under(
    operator: Seq<char>,
    operand: Result<ext::bson::Bson, ser::Error>,
    r: Result<Bson, ser::Error>,
) -> bool {
    if operand is Ok {
        r is Ok && r->Ok_0@ == BsonView::Document(seq![(operator, operand->Ok_0@)])
    } else {
        r == Err::<Bson, ser::Error>(operand->Err_0)
    }
}

/// Whether `r` is what writing a comparator with one value gives.
pub open spec fn value_written<T>(operator: Seq<char>, t: T, r: Result<Bson, ser::Error>)
    -> bool where T: TryInto<ext::bson::Bson>, T::Error: Into<ser::Error> {
    exists|operand: Result<ext::bson::Bson, ser::Error>| #[trigger]
        element_written(t, operand) && under(operator, operand, r)
}

/// Whether `r` is what writing a comparator with a list of values gives.
pub open spec fn list_written<T>(operator: Seq<char>, list: Seq<T>, r: Result<Bson, ser::Error>)
    -> bool where T: TryInto<ext::bson::Bson>, T::Error: Into<ser::Error> {
    exists|operand: Result<ext::bson::Bson, ser::Error>| #[trigger]
        elements_written(list, operand) && under(operator, operand, r)
}

/// Whether `r` is what writing a comparator gives: the document with one
/// entry, under the operator what the value is written as, or the wire array
/// of what the values are written as; or the error of the first value that
/// cannot be written.
pub open spec fn comparator_written<T>(c: Comparator<T>, r: Result<Bson, ser::Error>) -> bool where
    T: TryInto<ext::bson::Bson>,
    T::Error: Into<ser::Error>,
 {
    if is_list(c) {
        list_written(operator(c), list_of(c), r)
    } else {
        value_written(operator(c), value_of(c), r)
    }
}

/// Writes a value under an operator.
fn write_value<T>(operator: &str, t: T) -> (r: Result<Bson, ser::Error>) where
    T: TryInto<ext::bson::Bson>,
    T::Error: Into<ser::Error>,

    ensures
        value_written(operator@, t, r),
{
    let operand = write_element(t);
    let ghost written = operand;
    let r = match operand {
        Ok(b) => Ok(single(operator, b.0)),
        Err(e) => Err(e),
    };
    assert(element_written(t, written) && under(operator@, written, r));
    r
}

/// Writes a list of values under an operator.
fn write_list<T>(operator: &str, list: Vec<T>) -> (r: Result<Bson, ser::Error>) where
    T: TryInto<ext::bson::Bson>,
    T::Error: Into<ser::Error>,

    ensures
        list_written(operator@, list@, r),
{
    let operand = write_elements(list);
    let ghost written = operand;
    let r = match operand {
        Ok(b) => Ok(single(operator, b.0)),
        Err(e) => Err(e),
    };
    assert(elements_written(list@, written) && under(operator@, written, r));
    r
}

/// A comparator is written as the document of its operator and operand; the
/// error of a value that cannot be written is handed on.
impl<T> TryFrom<Comparator<T>> for Bson where T: TryInto<ext::bson::Bson>, T::Error: Into<ser::Error> {
    type Error = ser::Error;

    fn try_from(value: Comparator<T>) -> (r: Result<Bson, ser::Error>)
        ensures
            comparator_written(value, r),
    {
        match value {
            Comparator::Eq(t) => write_value("$eq", t),
            Comparator::Gt(t) => write_value("$gt", t),
            Comparator::Gte(t) => write_value("$gte", t),
            Comparator::In(list) => write_list("$in", list),
            Comparator::Lt(t) => write_value("$lt", t),
            Comparator::Lte(t) => write_value("$lte", t),
            Comparator::Ne(t) => write_value("$ne", t),
            Comparator::Nin(list) => write_list("$nin", list),
        }
    }
}

impl<T> TryFromSpecImpl<Comparator<T>> for Bson where T: TryInto<ext::bson::Bson>, T::Error: Into<ser::Error> {
    open spec fn obeys_try_from_spec() -> bool {
        false
    }

    open spec fn try_from_spec(value: Comparator<T>) -> Result<Bson, ser::Error> {
        arbitrary()
    }
}

/// Whether `r` wraps what writing a comparator gives.
pub open spec fn wrapped_comparator<T>(c: Comparator<T>, r: Result<ext::bson::Bson, ser::Error>)
    -> bool where T: TryInto<ext::bson::Bson>, T::Error: Into<ser::Error> {
    if r is Ok {
        comparator_written(c, Ok::<Bson, ser::Error>(r->Ok_0.0))
    } else {
        comparator_written(c, Err::<Bson, ser::Error>(r->Err_0))
    }
}

/// A comparator is written as the document of its operator and operand; the
/// error of a value that cannot be written is handed on.
impl<T> TryFrom<Comparator<T>> for ext::bson::Bson where T: TryInto<ext::bson::Bson>, T::Error: Into<ser::Error> {
    type Error = ser::Error;

    fn try_from(value: Comparator<T>) -> (r: Result<ext::bson::Bson, ser::Error>)
        ensures
            wrapped_comparator(value, r),
    {
        match Bson::try_from(value) {
            Ok(b) => Ok(ext::bson::Bson(b)),
            Err(e) => Err(e),
        }
    }
}

impl<T> TryFromSpecImpl<Comparator<T>> for ext::bson::Bson where T: TryInto<ext::bson::Bson>, T::Error: Into<ser::Error> {
    open spec fn obeys_try_from_spec() -> bool {
        false
    }

    open spec fn try_from_spec(value: Comparator<T>) -> Result<ext::bson::Bson, ser::Error> {
        arbitrary()
    }
}

/// Used to tie a type implementing [`Collection`](crate::Collection) to its
/// companion `Filter` type.
pub trait AsFilter<T: Filter> {
    /// Returns the `Collection`s filter.
    fn filter() -> T;

    /// Converts the `Collection` instance into its filter.
    fn into_filter(self) -> T;
}

/// Used to mark a type as a filter for use in queries.
///
/// The library promises nothing of an implementation: what it states of a
/// query is stated in terms of what these methods return.
pub trait Filter: Sized {
    /// Constructs a new `Filter`.
    fn new() -> Self;

    /// Converts a `Filter` into a BSON `Document`.
    fn into_document(self) -> Result<Document, Error>;
}

/// Whether `r` is something that writing `filter` as a document returns.
pub open spec fn filter_written<F: Filter>(filter: F, r: Result<Document, Error>) -> bool {
    call_ensures(F::into_document, (filter,), r)
}

} // verus!
