use std::collections::{HashMap, HashSet};
use std::convert::TryFrom;

use mongod::bson;
use mongod::ext::bson::de::{Cause, Error, Expected, Target};
use mongod::ext::bson::Bson;

#[test]
fn bool_to_bson() {
    let v: bool = true;
    let b = Bson::from(v).0;
    assert_eq!(b, bson::Bson::Boolean(v));
}

#[test]
fn char_to_bson() {
    let v: char = 'a';
    let b = Bson::from(v).0;
    assert_eq!(b, bson::Bson::String(v.to_string()));
}

#[test]
fn i8_to_bson() {
    let v: i8 = 0;
    let b = Bson::from(v).0;
    assert_eq!(b, bson::Bson::Int32(0));
}

#[test]
fn i16_to_bson() {
    let v: i16 = 0;
    let b = Bson::from(v).0;
    assert_eq!(b, bson::Bson::Int32(0));
}

#[test]
fn i32_to_bson() {
    let v: i32 = 0;
    let b = Bson::from(v).0;
    assert_eq!(b, bson::Bson::Int32(v));
}

#[test]
fn i64_to_bson() {
    let v: i64 = 0;
    let b = Bson::from(v).0;
    assert_eq!(b, bson::Bson::Int64(v));
}

#[test]
fn u8_to_bson() {
    let v: u8 = 0;
    let b = Bson::from(v).0;
    assert_eq!(b, bson::Bson::Int32(0));
}

#[test]
fn u16_to_bson() {
    let v: u16 = 0;
    let b = Bson::from(v).0;
    assert_eq!(b, bson::Bson::Int32(0));
}

#[test]
fn u32_to_bson() {
    let v: u32 = 0;
    let b = Bson::from(v).0;
    assert_eq!(b, bson::Bson::Int32(0));
}

#[test]
fn u64_to_bson() {
    let v: u64 = 0;
    let b = Bson::from(v).0;
    assert_eq!(b, bson::Bson::Int64(0));
}

#[test]
fn str_to_bson() {
    let v: &str = "abcd";
    let b = Bson::from(v).0;
    assert_eq!(b, bson::Bson::String(v.to_owned()));
}

#[test]
fn string_to_bson() {
    let v: String = "abcd".to_owned();
    let b = Bson::from(v.clone()).0;
    assert_eq!(b, bson::Bson::String(v));
}

#[test]
fn hashmap_to_bson() {
    let mut v: HashMap<String, String> = HashMap::new();
    v.insert("foo".to_owned(), "bar".to_owned());
    let b = Bson::try_from(v.clone()).unwrap().0;
    let mut l = 0;
    if let bson::Bson::Document(doc) = b {
        l = doc.len();
    }
    assert_eq!(v.len(), l);
}

#[test]
fn hashset_to_bson() {
    let mut v: HashSet<String> = HashSet::new();
    v.insert("foo".to_owned());
    let b = Bson::try_from(v.clone()).unwrap().0;
    let mut l = 0;
    if let bson::Bson::Array(arr) = b {
        l = arr.len();
    }
    assert_eq!(v.len(), l);
}

#[test]
fn vec_to_bson() {
    let v: Vec<String> = vec!["abcd".to_owned()];
    let b = Bson::try_from(v.clone()).unwrap().0;
    let mut l = 0;
    if let bson::Bson::Array(arr) = b {
        l = arr.len();
    }
    assert_eq!(v.len(), l);
}

#[test]
fn bson_to_bool() {
    let b = Bson(bson::Bson::Boolean(true));
    let v = bool::try_from(b).unwrap();
    assert_eq!(v, true);
}

#[test]
fn bson_to_char() {
    let b = Bson(bson::Bson::String("a".to_owned()));
    let v = char::try_from(b).unwrap();
    assert_eq!(v, 'a');
}

#[test]
fn bson_to_i8() {
    let b = Bson(bson::Bson::Int32(0));
    let v = i8::try_from(b).unwrap();
    assert_eq!(v, 0);
}

#[test]
fn bson_to_i16() {
    let b = Bson(bson::Bson::Int32(0));
    let v = i16::try_from(b).unwrap();
    assert_eq!(v, 0);
}

#[test]
fn bson_to_i32() {
    let b = Bson(bson::Bson::Int32(0));
    let v = i32::try_from(b).unwrap();
    assert_eq!(v, 0);
}

#[test]
fn bson_to_i64() {
    let b = Bson(bson::Bson::Int64(0));
    let v = i64::try_from(b).unwrap();
    assert_eq!(v, 0);
}

#[test]
fn bson_to_u8() {
    let b = Bson(bson::Bson::Int32(0));
    let v = u8::try_from(b).unwrap();
    assert_eq!(v, 0);
}

#[test]
fn bson_to_u16() {
    let b = Bson(bson::Bson::Int32(0));
    let v = u16::try_from(b).unwrap();
    assert_eq!(v, 0);
}

#[test]
fn bson_to_u32() {
    let b = Bson(bson::Bson::Int32(0));
    let v = u32::try_from(b).unwrap();
    assert_eq!(v, 0);
}

#[test]
fn bson_to_u64() {
    let b = Bson(bson::Bson::Int64(0));
    let v = u64::try_from(b).unwrap();
    assert_eq!(v, 0);
}

#[test]
fn bson_to_string() {
    let b = Bson(bson::Bson::String("foo".to_owned()));
    let v = String::try_from(b).unwrap();
    assert_eq!(v, String::from("foo"));
}

#[test]
fn bson_to_hashmap() {
    let mut doc: bson::Document = bson::Document::new();
    doc.insert("foo".to_owned(), bson::Bson::String("bar".to_owned()));
    let b = Bson(bson::Bson::Document(doc));
    let m: HashMap<String, String> = HashMap::try_from(b).unwrap();
    assert_eq!(m.len(), 1);
}

#[test]
fn bson_to_hashset() {
    let b = Bson(bson::Bson::Array(vec![bson::Bson::String(
        "abcd".to_owned(),
    )]));
    let s: HashSet<String> = HashSet::try_from(b).unwrap();
    assert_eq!(s.len(), 1);
}

#[test]
fn bson_to_vec() {
    let b = Bson(bson::Bson::Array(vec![bson::Bson::String(
        "abcd".to_owned(),
    )]));
    let s: Vec<String> = Vec::try_from(b).unwrap();
    assert_eq!(s.len(), 1);
}

#[test]
fn narrow_integers_round_trip_over_their_whole_range() {
    for v in i8::MIN..=i8::MAX {
        assert_eq!(Bson::from(v).0, bson::Bson::Int32(v as i32));
        assert_eq!(i8::try_from(Bson::from(v)).unwrap(), v);
    }
    for v in [i16::MIN, -1, 0, 1, i16::MAX] {
        assert_eq!(i16::try_from(Bson::from(v)).unwrap(), v);
    }
    for v in [u8::MIN, 1, u8::MAX] {
        assert_eq!(u8::try_from(Bson::from(v)).unwrap(), v);
    }
    for v in [u16::MIN, 1, u16::MAX] {
        assert_eq!(u16::try_from(Bson::from(v)).unwrap(), v);
    }
}

#[test]
fn wide_unsigned_integers_keep_their_bits() {
    assert_eq!(Bson::from(u32::MAX).0, bson::Bson::Int32(-1));
    assert_eq!(u32::try_from(Bson::from(u32::MAX)).unwrap(), u32::MAX);
    assert_eq!(Bson::from(3_000_000_000u32).0, bson::Bson::Int32(-1_294_967_296));
    assert_eq!(Bson::from(u64::MAX).0, bson::Bson::Int64(-1));
    assert_eq!(u64::try_from(Bson::from(u64::MAX)).unwrap(), u64::MAX);
    assert_eq!(usize::try_from(Bson(bson::Bson::Int64(7))).unwrap(), 7);
    assert_eq!(isize::try_from(Bson(bson::Bson::Int64(-7))).unwrap(), -7);
}

#[test]
fn narrowing_out_of_range_is_refused() {
    let e = i8::try_from(Bson(bson::Bson::Int32(200))).unwrap_err();
    assert_eq!(e, Error(Cause::OutOfRange { value: 200, target: Target::I8 }));
    let e = i8::try_from(Bson(bson::Bson::Int32(-129))).unwrap_err();
    assert_eq!(e, Error(Cause::OutOfRange { value: -129, target: Target::I8 }));
    assert_eq!(i8::try_from(Bson(bson::Bson::Int32(127))).unwrap(), 127);
    assert_eq!(i8::try_from(Bson(bson::Bson::Int32(-128))).unwrap(), -128);
    let e = i16::try_from(Bson(bson::Bson::Int32(32768))).unwrap_err();
    assert_eq!(e, Error(Cause::OutOfRange { value: 32768, target: Target::I16 }));
    let e = u8::try_from(Bson(bson::Bson::Int32(-1))).unwrap_err();
    assert_eq!(e, Error(Cause::OutOfRange { value: -1, target: Target::U8 }));
    let e = u16::try_from(Bson(bson::Bson::Int32(65536))).unwrap_err();
    assert_eq!(e, Error(Cause::OutOfRange { value: 65536, target: Target::U16 }));
    assert_eq!(
        e.message(),
        "invalid value, could not coerce `65536` into an u16"
    );
}

#[test]
fn single_character_rule() {
    assert_eq!(char::try_from(Bson(bson::Bson::String("a".to_owned()))).unwrap(), 'a');
    let e = char::try_from(Bson(bson::Bson::String("ab".to_owned()))).unwrap_err();
    assert_eq!(e, Error(Cause::InvalidChar("ab".to_owned())));
    assert_eq!(
        e.message(),
        "invalid value, expected a char but found a string `ab`"
    );
    let e = char::try_from(Bson(bson::Bson::String(String::new()))).unwrap_err();
    assert_eq!(e, Error(Cause::InvalidChar(String::new())));
    // One code point that takes more than one byte is one character.
    assert_eq!(char::try_from(Bson::from('é')).unwrap(), 'é');
    assert_eq!(Bson::from('é').0, bson::Bson::String("é".to_owned()));
}

#[test]
fn values_of_another_kind_are_refused() {
    let e = bool::try_from(Bson(bson::Bson::Int32(1))).unwrap_err();
    assert_eq!(
        e,
        Error(Cause::InvalidVariant { expected: Expected::Bool, found: bson::Bson::Int32(1) })
    );
    assert_eq!(
        e.message(),
        "invalid variant, expected `Bson::Bool(...)` but found `Bson::Int32(...)`"
    );
    let e = i32::try_from(Bson(bson::Bson::Int64(1))).unwrap_err();
    assert_eq!(
        e,
        Error(Cause::InvalidVariant { expected: Expected::Int32, found: bson::Bson::Int64(1) })
    );
    let e = i64::try_from(Bson(bson::Bson::Int32(1))).unwrap_err();
    assert_eq!(
        e,
        Error(Cause::InvalidVariant { expected: Expected::Int64, found: bson::Bson::Int32(1) })
    );
    let e = String::try_from(Bson(bson::Bson::Null)).unwrap_err();
    assert_eq!(
        e,
        Error(Cause::InvalidVariant { expected: Expected::String, found: bson::Bson::Null })
    );
    let e = Vec::<String>::try_from(Bson(bson::Bson::Null)).unwrap_err();
    assert_eq!(
        e,
        Error(Cause::InvalidVariant { expected: Expected::Array, found: bson::Bson::Null })
    );
    let e = HashMap::<String, String>::try_from(Bson(bson::Bson::Null)).unwrap_err();
    assert_eq!(
        e,
        Error(Cause::InvalidVariant { expected: Expected::Document, found: bson::Bson::Null })
    );
}

#[test]
fn lists_round_trip_in_order() {
    let v: Vec<String> = vec!["foo".to_owned(), "bar".to_owned()];
    let b = Bson::from(v.clone());
    assert_eq!(
        b.0,
        bson::Bson::Array(vec![
            bson::Bson::String("foo".to_owned()),
            bson::Bson::String("bar".to_owned())
        ])
    );
    let back: Vec<String> = Vec::try_from(b).unwrap();
    assert_eq!(back, v);
    let nested: Vec<Vec<u8>> = vec![vec![1, 2], vec![], vec![3]];
    let back: Vec<Vec<u8>> = Vec::try_from(Bson::from(nested.clone())).unwrap();
    assert_eq!(back, nested);
}

#[test]
fn first_unreadable_element_ends_the_reading() {
    let b = Bson(bson::Bson::Array(vec![
        bson::Bson::Int32(1),
        bson::Bson::Int32(300),
        bson::Bson::String("x".to_owned()),
    ]));
    let e = Vec::<u8>::try_from(b).unwrap_err();
    assert_eq!(e, Error(Cause::OutOfRange { value: 300, target: Target::U8 }));
}

#[test]
fn options_are_written_as_null_or_the_value() {
    let none: Option<u32> = None;
    assert_eq!(Bson::try_from(none).unwrap().0, bson::Bson::Null);
    assert_eq!(Bson::try_from(Some(7u32)).unwrap().0, bson::Bson::Int32(7));
    assert_eq!(Option::<bson::Bson>::from(Bson(bson::Bson::Null)), None);
    assert_eq!(
        Option::<bson::Bson>::from(Bson(bson::Bson::Int32(7))),
        Some(bson::Bson::Int32(7))
    );
}

#[test]
fn maps_and_sets_round_trip() {
    let mut m: HashMap<String, u8> = HashMap::new();
    m.insert("a".to_owned(), 1);
    m.insert("b".to_owned(), 2);
    let back: HashMap<String, u8> = HashMap::try_from(Bson::try_from(m.clone()).unwrap()).unwrap();
    assert_eq!(back, m);
    let mut s: HashSet<String> = HashSet::new();
    s.insert("x".to_owned());
    s.insert("y".to_owned());
    let back: HashSet<String> = HashSet::try_from(Bson::try_from(s.clone()).unwrap()).unwrap();
    assert_eq!(back, s);
}

#[test]
fn wire_values_are_wrapped_as_they_are() {
    let id = bson::ObjectId { bytes: [7; 12] };
    assert_eq!(Bson::from(id).0, bson::Bson::ObjectId(id));
    assert_eq!(Bson::from([7u8; 12]).0, bson::Bson::ObjectId(id));
    let mut doc = bson::Document::new();
    doc.insert("k".to_owned(), bson::Bson::Null);
    assert_eq!(Bson::from(doc.clone()).0, bson::Bson::Document(doc));
    assert_eq!(Bson::from(bson::Bson::MaxKey).0, bson::Bson::MaxKey);
    let t = bson::Timestamp { time: 1, increment: 2 };
    assert_eq!(Bson::from(t).0, bson::Bson::Timestamp(t));
}

#[test]
fn borrowed_values_are_written_as_their_clones() {
    let v: i32 = 5;
    assert_eq!(Bson::from(&v).0, bson::Bson::Int32(5));
    let s = "abc".to_owned();
    assert_eq!(Bson::from(&s).0, bson::Bson::String("abc".to_owned()));
    let list = [1u8, 2u8];
    assert_eq!(
        Bson::from(&list[..]).0,
        bson::Bson::Array(vec![bson::Bson::Int32(1), bson::Bson::Int32(2)])
    );
    let boxed = Box::<bson::Bson>::try_from(Bson(bson::Bson::Int64(9))).unwrap();
    assert_eq!(*boxed, bson::Bson::Int64(9));
    assert_eq!(Bson(bson::Bson::Null).clone(), Bson(bson::Bson::Null));
}

#[derive(Debug, PartialEq, Eq, Hash)]
pub struct Lower(pub String);

impl TryFrom<String> for Lower {
    type Error = Error;

    fn try_from(s: String) -> Result<Self, Error> {
        if s.chars().all(|c| c.is_lowercase()) {
            Ok(Lower(s))
        } else {
            Err(Error::custom(format!("`{}` is not in lower case", s)))
        }
    }
}

#[test]
fn a_key_that_cannot_be_read_fails_the_map() {
    let mut d = bson::Document::new();
    d.insert("a".to_owned(), bson::Bson::Int32(1));
    d.insert("b".to_owned(), bson::Bson::Int32(2));
    let m = HashMap::<Lower, i32>::try_from(Bson(bson::Bson::Document(d))).unwrap();
    assert_eq!(m.len(), 2);
    assert_eq!(m.get(&Lower("a".to_owned())), Some(&1));
    assert_eq!(m.get(&Lower("b".to_owned())), Some(&2));

    let mut d = bson::Document::new();
    d.insert("a".to_owned(), bson::Bson::Int32(1));
    d.insert("B".to_owned(), bson::Bson::String("x".to_owned()));
    d.insert("C".to_owned(), bson::Bson::Int32(3));
    let e = HashMap::<Lower, i32>::try_from(Bson(bson::Bson::Document(d))).unwrap_err();
    assert_eq!(e.message(), "`B` is not in lower case");

    let mut d = bson::Document::new();
    d.insert("a".to_owned(), bson::Bson::Boolean(true));
    d.insert("B".to_owned(), bson::Bson::Int32(2));
    let e = HashMap::<Lower, i32>::try_from(Bson(bson::Bson::Document(d))).unwrap_err();
    assert_eq!(
        e,
        Error(Cause::InvalidVariant { expected: Expected::Int32, found: bson::Bson::Boolean(true) })
    );
}

#[test]
fn the_first_element_that_cannot_be_read_fails_the_list_and_the_set() {
    let a = bson::Bson::Array(vec![
        bson::Bson::Int32(1),
        bson::Bson::Int32(300),
        bson::Bson::String("x".to_owned()),
    ]);
    let e = Vec::<u8>::try_from(Bson(a.clone())).unwrap_err();
    assert_eq!(e, Error(Cause::OutOfRange { value: 300, target: Target::U8 }));
    let e = HashSet::<u8>::try_from(Bson(a)).unwrap_err();
    assert_eq!(e, Error(Cause::OutOfRange { value: 300, target: Target::U8 }));
    let s = HashSet::<u8>::try_from(Bson(bson::Bson::Array(vec![
        bson::Bson::Int32(1),
        bson::Bson::Int32(2),
        bson::Bson::Int32(1),
    ])))
    .unwrap();
    assert_eq!(s.len(), 2);
    assert!(s.contains(&1) && s.contains(&2));
}
