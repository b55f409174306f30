//! What holds of the conversions between native values and wire values:
//! what is written can be read back, and narrowing fails outside the range.

use vstd::prelude::*;
use vstd::std_specs::convert::FromSpec;
use vstd::std_specs::convert::IntoSpec;
use vstd::std_specs::convert::TryFromSpec;
use vstd::std_specs::hash::builds_valid_hashers;
use vstd::std_specs::hash::obeys_key_model;
use std::collections::HashMap;
use std::collections::HashSet;
use std::hash::RandomState;
use crate::bson;
use crate::bson::BsonView;
use crate::ext::bson::Bson;
use crate::ext::bson::array_read;
use crate::ext::bson::array_written;
use crate::ext::bson::de::Error;
use crate::ext::bson::de::Target;
use crate::ext::bson::document_from;
use crate::ext::bson::document_read;
use crate::ext::bson::element_failure;
use crate::ext::bson::elements_before;
use crate::ext::bson::elements_of;
use crate::ext::bson::elements_written;
use crate::ext::bson::entries_of;
use crate::ext::bson::key_written;
use crate::ext::bson::element_read;
use crate::ext::bson::entries_before;
use crate::ext::bson::entries_mapped;
use crate::ext::bson::entries_read;
use crate::ext::bson::entry_failure;
use crate::ext::bson::entry_read;
use crate::ext::bson::entry_refused;
use crate::ext::bson::item_failure;
use crate::ext::bson::items_before;
use crate::ext::bson::key_read;
use crate::ext::bson::lemma_element_read;
use crate::ext::bson::lemma_string_key_read;
use crate::ext::bson::lemma_string_key_written;
use crate::ext::bson::list_collected;
use crate::ext::bson::map_of;
use crate::ext::bson::map_written;
use crate::ext::bson::pair_failure;
use crate::ext::bson::pair_written;
use crate::ext::bson::pairs_before;
use crate::ext::bson::pairs_written;
use crate::ext::bson::set_read;
use crate::ext::bson::set_written;
use crate::ext::bson::element_written;
use crate::ext::bson::lemma_element_written;
use crate::ext::bson::option_written;
use crate::ext::bson::ser;
use crate::ext::bson::out_of_range;
use crate::ext::bson::turned;
use crate::ext::bson::lemma_turned;

verus! {

/// What a value of `T` is written as.
pub open spec fn wire<T>(v: T) -> Bson where Bson: From<T> {
    <Bson as FromSpec<T>>::from_spec(v)
}

/// What a wire value is read as.
pub open spec fn read<T: TryFrom<Bson, Error = Error>>(b: Bson) -> Result<T, Error> {
    <T as TryFromSpec<Bson>>::try_from_spec(b)
}

/// A boolean, and a signed integer of any width up to 64 bits, is read back
/// from what it is written as.
pub proof fn lemma_round_trip_signed(b: bool, v8: i8, v16: i16, v32: i32, v64: i64)
    ensures
        read::<bool>(wire(b)) == Ok::<bool, Error>(b),
        read::<i8>(wire(v8)) == Ok::<i8, Error>(v8),
        read::<i16>(wire(v16)) == Ok::<i16, Error>(v16),
        read::<i32>(wire(v32)) == Ok::<i32, Error>(v32),
        read::<i64>(wire(v64)) == Ok::<i64, Error>(v64),
{
}

/// An unsigned integer of any width up to 64 bits is read back from what it
/// is written as, also where it does not fit the signed wire integer.
pub proof fn lemma_round_trip_unsigned(v8: u8, v16: u16, v32: u32, v64: u64)
    ensures
        read::<u8>(wire(v8)) == Ok::<u8, Error>(v8),
        read::<u16>(wire(v16)) == Ok::<u16, Error>(v16),
        read::<u32>(wire(v32)) == Ok::<u32, Error>(v32),
        read::<u64>(wire(v64)) == Ok::<u64, Error>(v64),
{
    assert((v32 as i32) as u32 == v32) by (bit_vector);
    assert((v64 as i64) as u64 == v64) by (bit_vector);
}

/// A string is read back from what it is written as, and so is every wire
/// string with the same text.
pub proof fn lemma_round_trip_string(s: String, b: Bson)
    requires
        b@ == BsonView::String(s@),
    ensures
        read::<String>(wire(s)) == Ok::<String, Error>(s),
        read::<String>(b) is Ok,
        read::<String>(b)->Ok_0@ == s@,
{
}

/// A character is read back from the wire string that holds just that
/// character.
pub proof fn lemma_round_trip_char(c: char, b: Bson)
    requires
        b@ == BsonView::String(seq![c]),
    ensures
        read::<char>(b) == Ok::<char, Error>(c),
{
    assert(seq![c][0] == c);
}

/// A wire string is read as a character exactly where it holds one
/// character.
pub proof fn lemma_single_character(s: String)
    ensures
        read::<char>(Bson(bson::Bson::String(s))) is Ok <==> s@.len() == 1,
{
}

/// A 32-bit wire integer is read as an `i8` exactly where it lies within the
/// range of `i8`; outside it the reading fails with the integer and the type.
/// The same holds of the other narrow types.
pub proof fn lemma_narrowing(i: i32)
    ensures
        read::<i8>(Bson(bson::Bson::Int32(i))) == if i8::MIN <= i <= i8::MAX {
            Ok::<i8, Error>(i as i8)
        } else {
            Err::<i8, Error>(out_of_range(i as int, Target::I8))
        },
        read::<i16>(Bson(bson::Bson::Int32(i))) == if i16::MIN <= i <= i16::MAX {
            Ok::<i16, Error>(i as i16)
        } else {
            Err::<i16, Error>(out_of_range(i as int, Target::I16))
        },
        read::<u8>(Bson(bson::Bson::Int32(i))) == if u8::MIN <= i <= u8::MAX {
            Ok::<u8, Error>(i as u8)
        } else {
            Err::<u8, Error>(out_of_range(i as int, Target::U8))
        },
        read::<u16>(Bson(bson::Bson::Int32(i))) == if u16::MIN <= i <= u16::MAX {
            Ok::<u16, Error>(i as u16)
        } else {
            Err::<u16, Error>(out_of_range(i as int, Target::U16))
        },
{
}

/// Whether every value of `T` is read back from what it turns into.
pub open spec fn round_trips<T>() -> bool where
    T: Into<Bson> + TryFrom<Bson>,
    <T as TryFrom<Bson>>::Error: Into<Error>,
 {
    forall|x: T, b: Bson, r: Result<T, Error>|
        #![trigger turned(x, b), element_read(b, r)]
        turned(x, b) && element_read(b, r) ==> r == Ok::<T, Error>(x)
}

/// A list is read back, element by element and in order, from what it is
/// written as, where its elements are.
pub proof fn lemma_round_trip_list<T>(v: Seq<T>, written: Bson, r: Result<Vec<T>, Error>) where
    T: Into<Bson> + TryFrom<Bson>,
    <T as TryFrom<Bson>>::Error: Into<Error>,

    requires
        round_trips::<T>(),
        array_written(v, written),
        array_read::<T>(written.0, r),
    ensures
        r is Ok,
        r->Ok_0@ == v,
{
    let a = written.0->Array_0@;
    if r is Err {
        let (i, before) = choose|i: int, before: Seq<T>| #[trigger]
            item_failure(a, i, before, r->Err_0);
        assert(turned(v[i], Bson(a[i])));
        assert(element_read(Bson(a[i]), Err::<T, Error>(r->Err_0)));
        assert(false);
    } else {
        let w = r->Ok_0@;
        assert(items_before(a, a.len() as int, w));
        assert forall|i: int| 0 <= i < w.len() implies w[i] == v[i] by {
            assert(turned(v[i], Bson(a[i])));
            assert(element_read(Bson(a[i]), Ok::<T, Error>(w[i])));
            assert(Ok::<T, Error>(w[i]) == Ok::<T, Error>(v[i]));
        }
        assert(w =~= v);
    }
}

/// What the conversions of `i32` and `String` say of the elements of a
/// list: each is read back from what it turns into.
pub proof fn lemma_elements_round_trip()
    ensures
        round_trips::<i32>(),
        round_trips::<String>(),
{
    assert forall|x: i32, b: Bson, r: Result<i32, Error>|
        #![trigger turned(x, b), element_read(b, r)]
        turned(x, b) && element_read(b, r) implies r == Ok::<i32, Error>(x) by {
        lemma_turned::<i32>(x, b);
        lemma_element_read::<i32>(b, r);
    }
    assert forall|x: String, b: Bson, r: Result<String, Error>|
        #![trigger turned(x, b), element_read(b, r)]
        turned(x, b) && element_read(b, r) implies r == Ok::<String, Error>(x) by {
        lemma_turned::<String>(x, b);
        lemma_element_read::<String>(b, r);
    }
}

/// Whether writing a value of `T` never fails, never gives the wire null,
/// and gives what is read back as the value.
pub open spec fn writes_back<T>() -> bool where
    T: TryInto<Bson> + TryFrom<Bson, Error = Error>,
    <T as TryInto<Bson>>::Error: Into<ser::Error>,
 {
    forall|x: T, r: Result<Bson, ser::Error>| #[trigger]
        element_written(x, r) ==> {
            &&& r is Ok
            &&& !(r->Ok_0.0 is Null)
            &&& <T as TryFromSpec<Bson>>::try_from_spec(r->Ok_0) == Ok::<T, Error>(x)
        }
}

/// An optional value is written as null exactly where it is `None`, and what
/// it is written as is read back: null as `None`, anything else as `Some` of
/// what the conversion of `T` reads. This holds where writing a value of `T`
/// never fails, never gives null, and is read back.
pub proof fn lemma_round_trip_option<T>(v: Option<T>, written: Result<Bson, ser::Error>) where
    T: TryInto<Bson> + TryFrom<Bson, Error = Error>,
    <T as TryInto<Bson>>::Error: Into<ser::Error>,

    requires
        writes_back::<T>(),
        option_written(v, written),
    ensures
        written is Ok,
        v is None <==> written->Ok_0.0 is Null,
        match <Option<bson::Bson> as FromSpec<Bson>>::from_spec(written->Ok_0) {
            None => v is None,
            Some(inner) => v is Some && <T as TryFromSpec<Bson>>::try_from_spec(Bson(inner))
                == Ok::<T, Error>(v->Some_0),
        },
{
    if v is Some {
        assert(element_written(v->Some_0, written));
        assert(Bson(written->Ok_0.0) == written->Ok_0);
    }
}

/// What the conversions of `u32` say of an optional `u32`: it is written
/// as null or as the 32-bit wire integer with its bits, without fail, and
/// read back.
pub proof fn lemma_u32_writes_back()
    ensures
        writes_back::<u32>(),
{
    assert forall|x: u32, r: Result<Bson, ser::Error>| #[trigger]
        element_written(x, r) implies (r is Ok && !(r->Ok_0.0 is Null) && <u32 as TryFromSpec<
        Bson,
    >>::try_from_spec(r->Ok_0) == Ok::<u32, Error>(x)) by {
        lemma_element_written::<u32>(x, r);
        assert((x as i32) as u32 == x) by (bit_vector);
    }
}

/// Whether no two entries of a list have keys of the same text.
pub open spec fn distinct_texts(entries: Seq<(String, bson::Bson)>) -> bool {
    forall|i: int, j: int|
        0 <= i < j < entries.len() ==> (#[trigger] entries[i]).0@ != (#[trigger] entries[j]).0@
}

/// The document of a list of entries whose keys differ holds the entries as
/// they stand in the list.
pub proof fn lemma_document_from_distinct(entries: Seq<(String, bson::Bson)>)
    requires
        distinct_texts(entries),
    ensures
        document_from(entries) == bson::entries_view(entries),
    decreases entries.len(),
{
    if entries.len() == 0 {
        assert(bson::entries_view(entries) =~= Seq::empty());
    } else {
        let init = entries.drop_last();
        assert forall|i: int, j: int| 0 <= i < j < init.len() implies (#[trigger] init[i]).0@ != (
        #[trigger] init[j]).0@ by {
            assert(init[i] == entries[i]);
            assert(init[j] == entries[j]);
        }
        lemma_document_from_distinct(init);
        let d = bson::entries_view(init);
        let key = entries.last().0@;
        assert forall|i: int| !bson::is_first(d, key, i) by {
            if 0 <= i < d.len() {
                assert(init[i] == entries[i]);
                assert(entries[i].0@ != entries[entries.len() - 1].0@);
            }
        }
        assert(d.push((key, entries.last().1@)) =~= bson::entries_view(entries));
    }
}

/// Whether different keys of `K` are written as different texts, and a key
/// is read back from every string that has the text of what it is written
/// as.
pub open spec fn keys_back<K>() -> bool where
    K: Into<String> + TryFrom<String>,
    <K as TryFrom<String>>::Error: Into<Error>,
 {
    &&& forall|k: K, l: K, s: String, t: String|
        #![trigger key_written(k, s), key_written(l, t)]
        key_written(k, s) && key_written(l, t) && s@ == t@ ==> k == l
    &&& forall|k: K, s: String, t: String, r: Result<K, Error>|
        #![trigger key_written(k, s), key_read(t, r)]
        key_written(k, s) && s@ == t@ && key_read(t, r) ==> r == Ok::<K, Error>(k)
}

/// Whether writing a value of `T` never fails, and the value is read back
/// from every wire value that holds what it is written as.
pub open spec fn reads_back<T>() -> bool where
    T: TryInto<Bson> + TryFrom<Bson>,
    <T as TryInto<Bson>>::Error: Into<ser::Error>,
    <T as TryFrom<Bson>>::Error: Into<Error>,
 {
    &&& forall|x: T, w: Result<Bson, ser::Error>| #[trigger] element_written(x, w) ==> w is Ok
    &&& forall|x: T, w: Result<Bson, ser::Error>, b: Bson, r: Result<T, Error>|
        #![trigger element_written(x, w), element_read(b, r)]
        element_written(x, w) && w is Ok && b@ == w->Ok_0@ && element_read(b, r) ==> r == Ok::<
            T,
            Error,
        >(x)
}

/// What the conversions of `u32` and `i64` say of the elements of a set and
/// of the values of a map: each is written without fail, and read back from
/// every wire value that holds what it is written as.
pub proof fn lemma_integers_read_back()
    ensures
        reads_back::<u32>(),
        reads_back::<i64>(),
{
    assert forall|x: u32, w: Result<Bson, ser::Error>| #[trigger]
        element_written(x, w) implies w is Ok by {
        lemma_element_written::<u32>(x, w);
    }
    assert forall|x: u32, w: Result<Bson, ser::Error>, b: Bson, r: Result<u32, Error>|
        #![trigger element_written(x, w), element_read(b, r)]
        element_written(x, w) && w is Ok && b@ == w->Ok_0@ && element_read(b, r) implies r == Ok::<
        u32,
        Error,
    >(x) by {
        lemma_element_written::<u32>(x, w);
        lemma_element_read::<u32>(b, r);
        assert((x as i32) as u32 == x) by (bit_vector);
    }
    assert forall|x: i64, w: Result<Bson, ser::Error>| #[trigger]
        element_written(x, w) implies w is Ok by {
        lemma_element_written::<i64>(x, w);
    }
    assert forall|x: i64, w: Result<Bson, ser::Error>, b: Bson, r: Result<i64, Error>|
        #![trigger element_written(x, w), element_read(b, r)]
        element_written(x, w) && w is Ok && b@ == w->Ok_0@ && element_read(b, r) implies r == Ok::<
        i64,
        Error,
    >(x) by {
        lemma_element_written::<i64>(x, w);
        lemma_element_read::<i64>(b, r);
    }
}

/// Whether a map holds the first `n` of the entries `pairs`, and nothing
/// else.
pub open spec fn holds_first<K, V>(m: Map<K, V>, pairs: Seq<(K, V)>, n: int) -> bool {
    &&& forall|j: int|
        0 <= j < n ==> m.contains_key((#[trigger] pairs[j]).0) && m[pairs[j].0] == pairs[j].1
    &&& forall|k: K| #[trigger]
        m.contains_key(k) ==> exists|j: int| 0 <= j < n && (#[trigger] pairs[j]).0 == k
}

/// Whether no two entries of a list have the same key.
pub open spec fn distinct_pairs<K, V>(pairs: Seq<(K, V)>) -> bool {
    forall|i: int, j: int|
        0 <= i < j < pairs.len() ==> (#[trigger] pairs[i]).0 != (#[trigger] pairs[j]).0
}

/// The map of entries with different keys holds, up to any place, those
/// entries and nothing else.
pub proof fn lemma_map_of<K, V>(pairs: Seq<(K, V)>, n: int)
    requires
        distinct_pairs(pairs),
        0 <= n <= pairs.len(),
    ensures
        holds_first(map_of(pairs.take(n)), pairs, n),
    decreases n,
{
    if n == 0 {
        assert(pairs.take(0).len() == 0);
    } else {
        lemma_map_of(pairs, n - 1);
        let e = pairs.take(n);
        assert(e.drop_last() =~= pairs.take(n - 1));
        assert(e.last() == pairs[n - 1]);
        let m0 = map_of(pairs.take(n - 1));
        let m1 = m0.insert(pairs[n - 1].0, pairs[n - 1].1);
        assert(map_of(e) == m1);
        assert forall|j: int| 0 <= j < n implies m1.contains_key((#[trigger] pairs[j]).0)
            && m1[pairs[j].0] == pairs[j].1 by {
            if j < n - 1 {
                assert(pairs[j].0 != pairs[n - 1].0);
            }
        }
        assert forall|k: K| #[trigger] m1.contains_key(k) implies exists|j: int|
            0 <= j < n && (#[trigger] pairs[j]).0 == k by {
            if k == pairs[n - 1].0 {
                assert(pairs[n - 1].0 == k);
            } else {
                assert(m0.contains_key(k));
                let j = choose|j: int| 0 <= j < n - 1 && (#[trigger] pairs[j]).0 == k;
                assert(pairs[j].0 == k);
            }
        }
    }
}

/// A map is read back from what it is written as, whatever the order in
/// which it hands out its entries, where its keys and its values are: writing
/// does not fail, and reading gives a map with the same entries.
pub proof fn lemma_round_trip_map<K, V>(
    m: HashMap<K, V>,
    written: Result<Bson, ser::Error>,
    r: Result<HashMap<K, V>, Error>,
) where
    K: Into<String> + TryFrom<String>,
    <K as TryFrom<String>>::Error: Into<Error>,
    V: TryInto<Bson> + TryFrom<Bson>,
    <V as TryInto<Bson>>::Error: Into<ser::Error>,
    <V as TryFrom<Bson>>::Error: Into<Error>,

    requires
        obeys_key_model::<K>(),
        builds_valid_hashers::<RandomState>(),
        keys_back::<K>(),
        reads_back::<V>(),
        map_written(m, written),
        written is Ok ==> document_read::<K, V>(written->Ok_0.0, r),
    ensures
        written is Ok,
        r is Ok,
        r->Ok_0@ == m@,
{
    let pairs = choose|pairs: Seq<(K, V)>| #[trigger]
        entries_of(m, pairs) && pairs_written(pairs, written);
    if written is Err {
        let (i, before) = choose|i: int, before: Seq<(String, bson::Bson)>| #[trigger]
            pair_failure(pairs, i, before, written->Err_0);
        assert(element_written(pairs[i].1, Err::<Bson, ser::Error>(written->Err_0)));
        assert(false);
    }
    let b = written->Ok_0;
    let entries = choose|entries: Seq<(String, bson::Bson)>| #[trigger]
        pairs_before(pairs, pairs.len() as int, entries) && b@ == BsonView::Document(
            document_from(entries),
        );
    assert forall|j: int| 0 <= j < entries.len() implies pair_written(
        pairs[j],
        #[trigger] entries[j],
    ) by {}
    assert forall|i: int, j: int| 0 <= i < j < entries.len() implies (#[trigger] entries[i]).0@ != (
    #[trigger] entries[j]).0@ by {
        if entries[i].0@ == entries[j].0@ {
            assert(pair_written(pairs[i], entries[i]));
            assert(pair_written(pairs[j], entries[j]));
            assert(key_written(pairs[i].0, entries[i].0));
            assert(key_written(pairs[j].0, entries[j].0));
            assert(pairs[i].0 != pairs[j].0);
        }
    }
    lemma_document_from_distinct(entries);
    assert(b.0 is Document);
    let d = b.0->Document_0;
    assert(d@ == bson::entries_view(entries));
    let read = choose|read: Seq<(String, bson::Bson)>|
        #![trigger bson::entries_view(read)]
        bson::entries_view(read) == d@ && entries_read(read, r);
    assert(read.len() == entries.len());
    assert forall|j: int| 0 <= j < read.len() implies (#[trigger] read[j]).0@ == entries[j].0@
        && read[j].1@ == entries[j].1@ by {
        assert(bson::entries_view(read)[j] == bson::entries_view(entries)[j]);
    }
    if r is Err {
        let (i, before) = choose|i: int, before: Seq<(K, V)>| #[trigger]
            entry_failure(read, i, before, r->Err_0);
        assert(entry_refused::<K, V>(read[i], r->Err_0));
        assert(pair_written(pairs[i], entries[i]));
        assert(key_written(pairs[i].0, entries[i].0));
        let w = Ok::<Bson, ser::Error>(Bson(entries[i].1));
        assert(element_written(pairs[i].1, w));
        assert(Bson(read[i].1)@ == w->Ok_0@);
        if key_read(read[i].0, Err::<K, Error>(r->Err_0)) {
            assert(false);
        } else {
            assert(element_read(Bson(read[i].1), Err::<V, Error>(r->Err_0)));
            assert(false);
        }
    }
    let got = r->Ok_0;
    let back = choose|back: Seq<(K, V)>| #[trigger]
        entries_before(read, read.len() as int, back) && (obeys_key_model::<K>()
            && builds_valid_hashers::<RandomState>() ==> got@ == map_of(back));
    assert forall|j: int| 0 <= j < back.len() implies back[j] == pairs[j] by {
        assert(entry_read(read[j], back[j]));
        assert(pair_written(pairs[j], entries[j]));
        assert(key_written(pairs[j].0, entries[j].0));
        assert(key_read(read[j].0, Ok::<K, Error>(back[j].0)));
        let w = Ok::<Bson, ser::Error>(Bson(entries[j].1));
        assert(element_written(pairs[j].1, w));
        assert(Bson(read[j].1)@ == w->Ok_0@);
        assert(element_read(Bson(read[j].1), Ok::<V, Error>(back[j].1)));
        assert(Ok::<K, Error>(back[j].0) == Ok::<K, Error>(pairs[j].0));
        assert(Ok::<V, Error>(back[j].1) == Ok::<V, Error>(pairs[j].1));
    }
    assert(back =~= pairs);
    assert(distinct_pairs(pairs));
    lemma_map_of(pairs, pairs.len() as int);
    assert(pairs.take(pairs.len() as int) =~= pairs);
    let held = map_of(pairs);
    assert forall|k: K| held.contains_key(k) implies m@.contains_key(k) && m@[k] == held[k] by {
        let j = choose|j: int| 0 <= j < pairs.len() && (#[trigger] pairs[j]).0 == k;
        assert(m@.contains_key(pairs[j].0));
    }
    assert forall|k: K| m@.contains_key(k) implies held.contains_key(k) by {
        let j = choose|j: int| 0 <= j < pairs.len() && (#[trigger] pairs[j]).0 == k;
        assert(held.contains_key(pairs[j].0));
    }
    assert(held =~= m@);
}

/// A set is read back from what it is written as, whatever the order in
/// which it hands out its elements, where its elements are written without
/// fail and read back.
pub proof fn lemma_round_trip_set<T>(
    s: HashSet<T>,
    written: Result<Bson, ser::Error>,
    r: Result<HashSet<T>, Error>,
) where
    T: TryInto<Bson> + TryFrom<Bson>,
    <T as TryInto<Bson>>::Error: Into<ser::Error>,
    <T as TryFrom<Bson>>::Error: Into<Error>,

    requires
        obeys_key_model::<T>(),
        builds_valid_hashers::<RandomState>(),
        reads_back::<T>(),
        set_written(s, written),
        written is Ok ==> set_read::<T>(written->Ok_0.0, r),
    ensures
        written is Ok,
        r is Ok,
        r->Ok_0@ == s@,
{
    let items = choose|items: Seq<T>| #[trigger]
        elements_of(s, items) && elements_written(items, written);
    if written is Err {
        let (i, before) = choose|i: int, before: Seq<bson::Bson>| #[trigger]
            element_failure(items, i, before, written->Err_0);
        assert(element_written(items[i], Err::<Bson, ser::Error>(written->Err_0)));
        assert(false);
    }
    let a = written->Ok_0.0->Array_0@;
    assert(elements_before(items, items.len() as int, a));
    if r is Err {
        let (i, before) = choose|i: int, before: Seq<T>| #[trigger]
            item_failure(a, i, before, r->Err_0);
        assert(element_written(items[i], Ok::<Bson, ser::Error>(Bson(a[i]))));
        assert(element_read(Bson(a[i]), Err::<T, Error>(r->Err_0)));
        assert(false);
    }
    let got = r->Ok_0;
    let v = choose|v: Vec<T>| #[trigger]
        array_read(written->Ok_0.0, Ok::<Vec<T>, Error>(v)) && (obeys_key_model::<T>()
            && builds_valid_hashers::<RandomState>() ==> got@ == v@.to_set());
    assert(items_before(a, a.len() as int, v@));
    assert forall|i: int| 0 <= i < v@.len() implies v@[i] == items[i] by {
        assert(element_written(items[i], Ok::<Bson, ser::Error>(Bson(a[i]))));
        assert(element_read(Bson(a[i]), Ok::<T, Error>(v@[i])));
        assert(Ok::<T, Error>(v@[i]) == Ok::<T, Error>(items[i]));
    }
    assert(v@ =~= items);
    assert forall|x: T| s@.contains(x) implies items.to_set().contains(x) by {
        let i = choose|i: int| 0 <= i < items.len() && #[trigger] items[i] == x;
        assert(items[i] == x);
        assert(items.contains(x));
    }
    assert forall|x: T| items.to_set().contains(x) implies s@.contains(x) by {
        assert(items.contains(x));
        let i = choose|i: int| 0 <= i < items.len() && items[i] == x;
        assert(s@.contains(items[i]));
    }
    assert(got@ =~= s@);
}

/// Whether two maps of strings hold the same texts: each key of the one has
/// a key of the same text in the other, with a value of the same text.
pub open spec fn same_texts(a: Map<String, String>, b: Map<String, String>) -> bool {
    &&& forall|k: String| #[trigger]
        a.contains_key(k) ==> exists|l: String| #[trigger]
            b.contains_key(l) && l@ == k@ && b[l]@ == a[k]@
    &&& forall|l: String| #[trigger]
        b.contains_key(l) ==> exists|k: String| #[trigger]
            a.contains_key(k) && k@ == l@ && a[k]@ == b[l]@
}

/// Whether the keys of a map of strings are told apart by their texts.
pub open spec fn told_apart(m: Map<String, String>) -> bool {
    forall|k: String, l: String|
        #![trigger m.contains_key(k), m.contains_key(l)]
        m.contains_key(k) && m.contains_key(l) && k@ == l@ ==> k == l
}

/// A map from strings to strings is read back from what it is written as,
/// whatever the order in which it hands out its entries: writing does not
/// fail, and reading gives a map with the same keys and the same value under
/// each key, text by text. Strings are known by their texts only, so the
/// law asks that strings can be keys and that the keys of the map differ in
/// text.
pub proof fn lemma_round_trip_strings(
    m: HashMap<String, String>,
    written: Result<Bson, ser::Error>,
    r: Result<HashMap<String, String>, Error>,
)
    requires
        obeys_key_model::<String>(),
        builds_valid_hashers::<RandomState>(),
        told_apart(m@),
        map_written(m, written),
        written is Ok ==> document_read::<String, String>(written->Ok_0.0, r),
    ensures
        written is Ok,
        r is Ok,
        same_texts(m@, r->Ok_0@),
{
    let pairs = choose|pairs: Seq<(String, String)>| #[trigger]
        entries_of(m, pairs) && pairs_written(pairs, written);
    if written is Err {
        let (i, before) = choose|i: int, before: Seq<(String, bson::Bson)>| #[trigger]
            pair_failure(pairs, i, before, written->Err_0);
        lemma_element_written::<String>(pairs[i].1, Err::<Bson, ser::Error>(written->Err_0));
        assert(false);
    }
    let b = written->Ok_0;
    let entries = choose|entries: Seq<(String, bson::Bson)>| #[trigger]
        pairs_before(pairs, pairs.len() as int, entries) && b@ == BsonView::Document(
            document_from(entries),
        );
    assert forall|j: int| 0 <= j < entries.len() implies (#[trigger] entries[j]).0 == pairs[j].0
        && entries[j].1 == bson::Bson::String(pairs[j].1) by {
        assert(pair_written(pairs[j], entries[j]));
        lemma_string_key_written(pairs[j].0, entries[j].0);
        lemma_element_written::<String>(pairs[j].1, Ok::<Bson, ser::Error>(Bson(entries[j].1)));
    }
    assert forall|i: int, j: int| 0 <= i < j < entries.len() implies (#[trigger] entries[i]).0@ != (
    #[trigger] entries[j]).0@ by {
        assert(m@.contains_key(pairs[i].0));
        assert(m@.contains_key(pairs[j].0));
        assert(pairs[i].0 != pairs[j].0);
    }
    lemma_document_from_distinct(entries);
    assert(b.0 is Document);
    let d = b.0->Document_0;
    assert(d@ == bson::entries_view(entries));
    let read = choose|read: Seq<(String, bson::Bson)>|
        #![trigger bson::entries_view(read)]
        bson::entries_view(read) == d@ && entries_read(read, r);
    assert(read.len() == entries.len());
    assert forall|j: int| 0 <= j < read.len() implies (#[trigger] read[j]).0@ == pairs[j].0@
        && read[j].1 is String && read[j].1->String_0@ == pairs[j].1@ by {
        assert(bson::entries_view(read)[j] == bson::entries_view(entries)[j]);
        assert(entries[j].1@ == BsonView::String(pairs[j].1@));
    }
    if r is Err {
        let (i, before) = choose|i: int, before: Seq<(String, String)>| #[trigger]
            entry_failure(read, i, before, r->Err_0);
        assert(entry_refused::<String, String>(read[i], r->Err_0));
        if key_read(read[i].0, Err::<String, Error>(r->Err_0)) {
            lemma_string_key_read(read[i].0, Err::<String, Error>(r->Err_0));
        } else {
            lemma_element_read::<String>(Bson(read[i].1), Err::<String, Error>(r->Err_0));
        }
        assert(false);
    }
    let got = r->Ok_0;
    let back = choose|back: Seq<(String, String)>| #[trigger]
        entries_before(read, read.len() as int, back) && (obeys_key_model::<String>()
            && builds_valid_hashers::<RandomState>() ==> got@ == map_of(back));
    assert forall|j: int| 0 <= j < back.len() implies (#[trigger] back[j]).0@ == pairs[j].0@
        && back[j].1@ == pairs[j].1@ by {
        assert(entry_read(read[j], back[j]));
        lemma_string_key_read(read[j].0, Ok::<String, Error>(back[j].0));
        lemma_element_read::<String>(Bson(read[j].1), Ok::<String, Error>(back[j].1));
    }
    assert forall|i: int, j: int| 0 <= i < j < back.len() implies (#[trigger] back[i]).0 != (
    #[trigger] back[j]).0 by {
        assert(entries[i].0@ != entries[j].0@);
    }
    lemma_map_of(back, back.len() as int);
    assert(back.take(back.len() as int) =~= back);
    assert forall|k: String| #[trigger] m@.contains_key(k) implies exists|l: String| #[trigger]
        got@.contains_key(l) && l@ == k@ && got@[l]@ == m@[k]@ by {
        let j = choose|j: int| 0 <= j < pairs.len() && (#[trigger] pairs[j]).0 == k;
        let l = back[j].0;
        assert(m@[pairs[j].0] == pairs[j].1);
        assert(got@.contains_key(l) && l@ == k@ && got@[l]@ == m@[k]@);
    }
    assert forall|l: String| #[trigger] got@.contains_key(l) implies exists|k: String| #[trigger]
        m@.contains_key(k) && k@ == l@ && m@[k]@ == got@[l]@ by {
        let j = choose|j: int| 0 <= j < back.len() && (#[trigger] back[j]).0 == l;
        let k = pairs[j].0;
        assert(got@[back[j].0] == back[j].1);
        assert(m@[pairs[j].0] == pairs[j].1);
        assert(m@.contains_key(k) && k@ == l@ && m@[k]@ == got@[l]@);
    }
}

} // verus!
