//! The wire-value model: BSON values and ordered documents.
//!
//! A [`Bson`] is one value of the document database's wire format and a
//! [`Document`] is an ordered map from string keys to such values. Contracts in
//! this crate speak about them through their views: a [`BsonView`] for a value
//! and a sequence of `(key, value)` pairs for a document.
//!
//! The values of the database driver hold floating-point numbers and types of
//! the driver's own, and a document of the driver holds such values only. The
//! conversions of this crate decide by what a value holds, so the crate keeps
//! values and documents of its own, a double by its bits, and states every
//! operation of a document over the sequence of its entries. Whoever talks to
//! the driver converts between the two at the edge, value by value.

use vstd::prelude::*;

verus! {

/// A twelve byte object identifier.
#[derive(Clone, Copy, Debug, PartialEq, Eq)]
pub struct ObjectId {
    /// The raw bytes of the identifier.
    pub bytes: [u8; 12],
}

/// An internal replication timestamp.
#[derive(Clone, Copy, Debug, PartialEq, Eq)]
pub struct Timestamp {
    /// Seconds since the Unix epoch.
    pub time: u32,
    /// Ordinal of the operation within the second.
    pub increment: u32,
}

/// A regular expression with its option letters.
#[derive(Debug, PartialEq, Eq)]
pub struct Regex {
    /// The pattern to match.
    pub pattern: String,
    /// The option letters.
    pub options: String,
}

/// Binary data with its subtype byte.
#[derive(Debug, PartialEq, Eq)]
pub struct Binary {
    /// The subtype of the data.
    pub subtype: u8,
    /// The data.
    pub bytes: Vec<u8>,
}

/// JavaScript code together with the scope it runs in.
#[derive(Debug, PartialEq)]
pub struct JavaScriptCodeWithScope {
    /// The source text.
    pub code: String,
    /// The variables in scope.
    pub scope: Document,
}

/// A pointer to a document of another collection.
#[derive(Debug, PartialEq, Eq)]
pub struct DbPointer {
    /// The namespace pointed into.
    pub namespace: String,
    /// The identifier of the document pointed at.
    pub id: ObjectId,
}

/// A BSON value.
#[derive(Debug, PartialEq)]
pub enum Bson {
    /// 64-bit binary floating point, held as its IEEE-754 bit pattern.
    Double(u64),
    /// UTF-8 string.
    String(String),
    /// Array of values.
    Array(Vec<Bson>),
    /// Embedded document.
    Document(Document),
    /// Boolean value.
    Boolean(bool),
    /// Null value.
    Null,
    /// Regular expression.
    RegularExpression(Regex),
    /// JavaScript code.
    JavaScriptCode(String),
    /// JavaScript code with its scope.
    JavaScriptCodeWithScope(JavaScriptCodeWithScope),
    /// 32-bit signed integer.
    Int32(i32),
    /// 64-bit signed integer.
    Int64(i64),
    /// Replication timestamp.
    Timestamp(Timestamp),
    /// Binary data.
    Binary(Binary),
    /// Object identifier.
    ObjectId(ObjectId),
    /// UTC date and time, in milliseconds since the Unix epoch.
    DateTime(i64),
    /// Symbol.
    Symbol(String),
    /// 128-bit decimal floating point, held as its sixteen bytes.
    Decimal128([u8; 16]),
    /// Undefined value.
    Undefined,
    /// Greater than every other value.
    MaxKey,
    /// Less than every other value.
    MinKey,
    /// Pointer into another collection.
    DbPointer(DbPointer),
}

/// An ordered map from string keys to BSON values.
///
/// Entries keep the order in which their keys were first inserted.
#[derive(Debug, PartialEq)]
pub struct Document {
    entries: Vec<(String, Bson)>,
}

/// The entries of a document as mathematical values.
pub type DocumentView = Seq<(Seq<char>, BsonView)>;

/// The mathematical value of a [`Bson`].
pub enum BsonView {
    Double(u64),
    String(Seq<char>),
    Array(Seq<BsonView>),
    Document(DocumentView),
    Boolean(bool),
    Null,
    RegularExpression(Seq<char>, Seq<char>),
    JavaScriptCode(Seq<char>),
    JavaScriptCodeWithScope(Seq<char>, DocumentView),
    Int32(i32),
    Int64(i64),
    Timestamp(Timestamp),
    Binary(u8, Seq<u8>),
    ObjectId(ObjectId),
    DateTime(i64),
    Symbol(Seq<char>),
    Decimal128(Seq<u8>),
    Undefined,
    MaxKey,
    MinKey,
    DbPointer(Seq<char>, ObjectId),
}

/// The views of the values of an array, element by element.
pub open spec fn array_view(a: Seq<Bson>) -> Seq<BsonView>
    decreases a,
{
    Seq::new(
        a.len(),
        |i: int|
            if 0 <= i < a.len() {
                a[i].view()
            } else {
                BsonView::Null
            },
    )
}

/// The views of the entries of a document, entry by entry.
pub open spec fn entries_view(e: Seq<(String, Bson)>) -> DocumentView
    decreases e,
{
    Seq::new(
        e.len(),
        |i: int|
            if 0 <= i < e.len() {
                (e[i].0@, e[i].1.view())
            } else {
                (Seq::empty(), BsonView::Null)
            },
    )
}

impl View for Bson {
    type V = BsonView;

    open spec fn view(&self) -> BsonView
        decreases self,
    {
        match self {
            Bson::Double(bits) => BsonView::Double(*bits),
            Bson::String(s) => BsonView::String(s@),
            Bson::Array(a) => BsonView::Array(array_view(a@)),
            Bson::Document(d) => BsonView::Document(d.view()),
            Bson::Boolean(b) => BsonView::Boolean(*b),
            Bson::Null => BsonView::Null,
            Bson::RegularExpression(r) => BsonView::RegularExpression(r.pattern@, r.options@),
            Bson::JavaScriptCode(c) => BsonView::JavaScriptCode(c@),
            Bson::JavaScriptCodeWithScope(c) => BsonView::JavaScriptCodeWithScope(
                c.code@,
                c.scope.view(),
            ),
            Bson::Int32(i) => BsonView::Int32(*i),
            Bson::Int64(i) => BsonView::Int64(*i),
            Bson::Timestamp(t) => BsonView::Timestamp(*t),
            Bson::Binary(b) => BsonView::Binary(b.subtype, b.bytes@),
            Bson::ObjectId(id) => BsonView::ObjectId(*id),
            Bson::DateTime(ms) => BsonView::DateTime(*ms),
            Bson::Symbol(s) => BsonView::Symbol(s@),
            Bson::Decimal128(bytes) => BsonView::Decimal128(bytes@),
            Bson::Undefined => BsonView::Undefined,
            Bson::MaxKey => BsonView::MaxKey,
            Bson::MinKey => BsonView::MinKey,
            Bson::DbPointer(p) => BsonView::DbPointer(p.namespace@, p.id),
        }
    }
}

impl View for Document {
    type V = DocumentView;

    closed spec fn view(&self) -> DocumentView
        decreases self,
    {
        entries_view(self.entries@)
    }
}

/// Whether `i` is the first position of `d` whose key is `key`.
pub open spec fn is_first(d: DocumentView, key: Seq<char>, i: int) -> bool {
    &&& 0 <= i < d.len()
    &&& d[i].0 == key
    &&& forall|j: int| 0 <= j < i ==> (#[trigger] d[j]).0 != key
}

/// Whether some entry of `d` has the key `key`.
pub open spec fn contains_key(d: DocumentView, key: Seq<char>) -> bool {
    exists|i: int| is_first(d, key, i)
}

/// The first position of `d` whose key is `key`, where there is one.
pub open spec fn position(d: DocumentView, key: Seq<char>) -> int {
    choose|i: int| is_first(d, key, i)
}

/// The value that `d` holds under `key`, if any.
pub open spec fn lookup(d: DocumentView, key: Seq<char>) -> Option<BsonView> {
    if contains_key(d, key) {
        Some(d[position(d, key)].1)
    } else {
        None
    }
}

/// `d` after `key` is bound to `value`: an existing entry keeps its place and
/// gets the new value, a new key goes to the end.
pub open spec fn inserted(d: DocumentView, key: Seq<char>, value: BsonView) -> DocumentView {
    if contains_key(d, key) {
        d.update(position(d, key), (key, value))
    } else {
        d.push((key, value))
    }
}

/// `d` without its entry for `key`; the other entries keep their order.
pub open spec fn removed(d: DocumentView, key: Seq<char>) -> DocumentView {
    if contains_key(d, key) {
        d.remove(position(d, key))
    } else {
        d
    }
}

/// Whether no two entries of `d` share a key.
pub open spec fn distinct_keys(d: DocumentView) -> bool {
    forall|i: int, j: int| 0 <= i < j < d.len() ==> (#[trigger] d[i]).0 != (#[trigger] d[j]).0
}

/// Binding a key keeps the keys of a document distinct.
pub proof fn lemma_inserted_distinct(d: DocumentView, key: Seq<char>, value: BsonView)
    requires
        distinct_keys(d),
    ensures
        distinct_keys(inserted(d, key, value)),
{
    let r = inserted(d, key, value);
    if contains_key(d, key) {
        let p = position(d, key);
        assert forall|i: int, j: int| 0 <= i < j < r.len() implies (#[trigger] r[i]).0 != (
        #[trigger] r[j]).0 by {
            assert(d[i].0 != d[j].0);
        }
    } else {
        assert forall|i: int, j: int| 0 <= i < j < r.len() implies (#[trigger] r[i]).0 != (
        #[trigger] r[j]).0 by {
            if j == d.len() {
                if d[i].0 == key {
                    lemma_key_found(d, key, i);
                }
            } else {
                assert(d[i].0 != d[j].0);
            }
        }
    }
}

/// Removing a key keeps the keys of a document distinct.
pub proof fn lemma_removed_distinct(d: DocumentView, key: Seq<char>)
    requires
        distinct_keys(d),
    ensures
        distinct_keys(removed(d, key)),
{
    let r = removed(d, key);
    if contains_key(d, key) {
        let p = position(d, key);
        assert forall|i: int, j: int| 0 <= i < j < r.len() implies (#[trigger] r[i]).0 != (
        #[trigger] r[j]).0 by {
            let a = if i < p { i } else { i + 1 };
            let b = if j < p { j } else { j + 1 };
            assert(d[a].0 != d[b].0);
        }
    }
}

/// A key that occurs anywhere in a document is contained in it.
pub proof fn lemma_key_found(d: DocumentView, key: Seq<char>, i: int)
    requires
        0 <= i < d.len(),
        d[i].0 == key,
    ensures
        contains_key(d, key),
        0 <= position(d, key) <= i,
    decreases i,
{
    if exists|j: int| 0 <= j < i && (#[trigger] d[j]).0 == key {
        let j = choose|j: int| 0 <= j < i && (#[trigger] d[j]).0 == key;
        lemma_key_found(d, key, j);
    } else {
        assert(is_first(d, key, i));
    }
}

/// After a key is bound, looking it up gives the bound value, and every other
/// key is found as before.
pub proof fn lemma_lookup_inserted(d: DocumentView, key: Seq<char>, value: BsonView, other: Seq<char>)
    ensures
        lookup(inserted(d, key, value), key) == Some(value),
        other != key ==> lookup(inserted(d, key, value), other) == lookup(d, other),
        other != key ==> contains_key(inserted(d, key, value), other) == contains_key(d, other),
{
    let r = inserted(d, key, value);
    if contains_key(d, key) {
        let p = position(d, key);
        assert(is_first(r, key, p));
        if other != key {
            if contains_key(d, other) {
                let q = position(d, other);
                assert(is_first(r, other, q));
            }
            if contains_key(r, other) {
                let q = position(r, other);
                assert forall|j: int| 0 <= j < q implies (#[trigger] d[j]).0 != other by {
                    assert(r[j].0 != other);
                }
                assert(is_first(d, other, q));
            }
        }
    } else {
        assert forall|j: int| 0 <= j < d.len() implies (#[trigger] d[j]).0 != key by {
            if d[j].0 == key {
                lemma_key_found(d, key, j);
            }
        }
        assert(is_first(r, key, d.len() as int));
        if other != key {
            if contains_key(d, other) {
                let q = position(d, other);
                assert(is_first(r, other, q));
            }
            if contains_key(r, other) {
                let q = position(r, other);
                assert forall|j: int| 0 <= j < q implies (#[trigger] d[j]).0 != other by {
                    assert(r[j].0 != other);
                }
                assert(is_first(d, other, q));
            }
        }
    }
}

impl Document {
    /// Creates an empty document.
    pub fn new() -> (d: Document)
        ensures
            d@ == Seq::<(Seq<char>, BsonView)>::empty(),
    {
        let d = Document { entries: Vec::new() };
        assert(d@ =~= Seq::<(Seq<char>, BsonView)>::empty());
        d
    }

    /// The number of entries.
    pub fn len(&self) -> (n: usize)
        ensures
            n == self@.len(),
    {
        self.entries.len()
    }

    /// Whether the document has no entries.
    pub fn is_empty(&self) -> (b: bool)
        ensures
            b == (self@.len() == 0),
    {
        self.entries.len() == 0
    }

    /// The position of the entry for `key`, or the number of entries where
    /// there is none.
    fn find(&self, key: &String) -> (i: usize)
        ensures
            i <= self@.len(),
            i < self@.len() ==> is_first(self@, key@, i as int),
            i == self@.len() ==> !contains_key(self@, key@),
    {
        let mut i: usize = 0;
        while i < self.entries.len()
            invariant
                i <= self.entries.len(),
                forall|j: int| 0 <= j < i ==> (#[trigger] self@[j]).0 != key@,
            decreases self.entries.len() - i,
        {
            if self.entries[i].0 == *key {
                return i;
            }
            i += 1;
        }
        i
    }

    /// Whether the document has an entry for `key`.
    pub fn contains_key(&self, key: &str) -> (b: bool)
        ensures
            b == contains_key(self@, key@),
    {
        let k = key.to_owned();
        self.find(&k) < self.entries.len()
    }

    /// The value stored under `key`, if any.
    pub fn get(&self, key: &str) -> (r: Option<&Bson>)
        ensures
            match r {
                Some(v) => lookup(self@, key@) == Some(v@),
                None => lookup(self@, key@).is_none(),
            },
    {
        let k = key.to_owned();
        let i = self.find(&k);
        if i < self.entries.len() {
            Some(&self.entries[i].1)
        } else {
            None
        }
    }

    /// The key of the entry at position `i`.
    pub fn key_at(&self, i: usize) -> (k: &String)
        requires
            i < self@.len(),
        ensures
            k@ == self@[i as int].0,
    {
        &self.entries[i].0
    }

    /// The value of the entry at position `i`.
    pub fn value_at(&self, i: usize) -> (v: &Bson)
        requires
            i < self@.len(),
        ensures
            v@ == self@[i as int].1,
    {
        &self.entries[i].1
    }

    /// The entries of the document, in order.
    pub fn into_entries(self) -> (entries: Vec<(String, Bson)>)
        ensures
            entries_view(entries@) == self@,
    {
        self.entries
    }

    /// Binds `key` to `value` and returns the value that was bound before.
    ///
    /// A key that is already present keeps its position.
    pub fn insert(&mut self, key: String, value: Bson) -> (previous: Option<Bson>)
        ensures
            final(self)@ == inserted(old(self)@, key@, value@),
            distinct_keys(old(self)@) ==> distinct_keys(final(self)@),
            match previous {
                Some(v) => lookup(old(self)@, key@) == Some(v@),
                None => lookup(old(self)@, key@).is_none(),
            },
    {
        proof {
            if distinct_keys(self@) {
                lemma_inserted_distinct(self@, key@, value@);
            }
        }
        let i = self.find(&key);
        if i < self.entries.len() {
            let mut slot = (key, value);
            let entry = &mut self.entries[i];
            std::mem::swap(entry, &mut slot);
            assert(self@ =~= inserted(old(self)@, key@, value@));
            Some(slot.1)
        } else {
            self.entries.push((key, value));
            assert(self@ =~= inserted(old(self)@, key@, value@));
            None
        }
    }

    /// Removes the entry for `key` and returns its value.
    ///
    /// The remaining entries keep their order.
    pub fn remove(&mut self, key: &str) -> (previous: Option<Bson>)
        ensures
            final(self)@ == removed(old(self)@, key@),
            distinct_keys(old(self)@) ==> distinct_keys(final(self)@),
            match previous {
                Some(v) => lookup(old(self)@, key@) == Some(v@),
                None => lookup(old(self)@, key@).is_none(),
            },
    {
        proof {
            if distinct_keys(self@) {
                lemma_removed_distinct(self@, key@);
            }
        }
        let k = key.to_owned();
        let i = self.find(&k);
        if i < self.entries.len() {
            let entry = self.entries.remove(i);
            assert(self@ =~= removed(old(self)@, key@));
            Some(entry.1)
        } else {
            None
        }
    }
}

impl Bson {
    /// The text of a wire string; nothing for a value of another kind.
    pub fn as_str(&self) -> (r: Option<&str>)
        ensures
            match r {
                Some(s) => self@ == BsonView::String(s@),
                None => !(self is String),
            },
    {
        match self {
            Bson::String(s) => Some(s.as_str()),
            _ => None,
        }
    }

    /// The document of a wire document; nothing for a value of another kind.
    pub fn as_document(&self) -> (r: Option<&Document>)
        ensures
            match r {
                Some(d) => self@ == BsonView::Document(d@),
                None => !(self is Document),
            },
    {
        match self {
            Bson::Document(d) => Some(d),
            _ => None,
        }
    }

    /// The elements of a wire array; nothing for a value of another kind.
    pub fn as_array(&self) -> (r: Option<&Vec<Bson>>)
        ensures
            match r {
                Some(a) => self@ == BsonView::Array(array_view(a@)),
                None => !(self is Array),
            },
    {
        match self {
            Bson::Array(a) => Some(a),
            _ => None,
        }
    }

    /// The value of a wire boolean; nothing for a value of another kind.
    pub fn as_bool(&self) -> (r: Option<bool>)
        ensures
            match r {
                Some(b) => self@ == BsonView::Boolean(b),
                None => !(self is Boolean),
            },
    {
        match self {
            Bson::Boolean(b) => Some(*b),
            _ => None,
        }
    }

    /// The value of a 32-bit wire integer; nothing for a value of another
    /// kind.
    pub fn as_i32(&self) -> (r: Option<i32>)
        ensures
            match r {
                Some(i) => self@ == BsonView::Int32(i),
                None => !(self is Int32),
            },
    {
        match self {
            Bson::Int32(i) => Some(*i),
            _ => None,
        }
    }

    /// The value of a 64-bit wire integer; nothing for a value of another
    /// kind.
    pub fn as_i64(&self) -> (r: Option<i64>)
        ensures
            match r {
                Some(i) => self@ == BsonView::Int64(i),
                None => !(self is Int64),
            },
    {
        match self {
            Bson::Int64(i) => Some(*i),
            _ => None,
        }
    }

    /// The identifier of a wire object identifier; nothing for a value of
    /// another kind.
    pub fn as_object_id(&self) -> (r: Option<ObjectId>)
        ensures
            match r {
                Some(id) => self@ == BsonView::ObjectId(id),
                None => !(self is ObjectId),
            },
    {
        match self {
            Bson::ObjectId(id) => Some(*id),
            _ => None,
        }
    }

    /// Whether the value is the wire null.
    pub fn is_null(&self) -> (r: bool)
        ensures
            r == (self@ == BsonView::Null),
    {
        match self {
            Bson::Null => true,
            _ => false,
        }
    }
}

/// A copy of a byte string.
fn copy_bytes(bytes: &Vec<u8>) -> (r: Vec<u8>)
    ensures
        r@ == bytes@,
{
    let mut r: Vec<u8> = Vec::new();
    let mut i: usize = 0;
    while i < bytes.len()
        invariant
            i <= bytes.len(),
            r@ == bytes@.take(i as int),
        decreases bytes.len() - i,
    {
        r.push(bytes[i]);
        assert(r@ =~= bytes@.take(i + 1));
        i += 1;
    }
    assert(bytes@.take(bytes.len() as int) =~= bytes@);
    r
}

/// A copy of a value, equal to it in every part.
pub fn copy_bson(b: &Bson) -> (r: Bson)
    ensures
        r@ == b@,
    decreases b,
{
    match b {
        Bson::Double(bits) => Bson::Double(*bits),
        Bson::String(s) => Bson::String(s.clone()),
        Bson::Array(a) => Bson::Array(copy_array(a)),
        Bson::Document(d) => Bson::Document(copy_document(d)),
        Bson::Boolean(v) => Bson::Boolean(*v),
        Bson::Null => Bson::Null,
        Bson::RegularExpression(r) => Bson::RegularExpression(
            Regex { pattern: r.pattern.clone(), options: r.options.clone() },
        ),
        Bson::JavaScriptCode(c) => Bson::JavaScriptCode(c.clone()),
        Bson::JavaScriptCodeWithScope(c) => Bson::JavaScriptCodeWithScope(
            JavaScriptCodeWithScope { code: c.code.clone(), scope: copy_document(&c.scope) },
        ),
        Bson::Int32(i) => Bson::Int32(*i),
        Bson::Int64(i) => Bson::Int64(*i),
        Bson::Timestamp(t) => Bson::Timestamp(*t),
        Bson::Binary(bin) => Bson::Binary(
            Binary { subtype: bin.subtype, bytes: copy_bytes(&bin.bytes) },
        ),
        Bson::ObjectId(id) => Bson::ObjectId(*id),
        Bson::DateTime(ms) => Bson::DateTime(*ms),
        Bson::Symbol(s) => Bson::Symbol(s.clone()),
        Bson::Decimal128(bytes) => Bson::Decimal128(*bytes),
        Bson::Undefined => Bson::Undefined,
        Bson::MaxKey => Bson::MaxKey,
        Bson::MinKey => Bson::MinKey,
        Bson::DbPointer(p) => Bson::DbPointer(
            DbPointer { namespace: p.namespace.clone(), id: p.id },
        ),
    }
}

/// A copy of an array, equal to it element by element.
fn copy_array(a: &Vec<Bson>) -> (r: Vec<Bson>)
    ensures
        array_view(r@) == array_view(a@),
    decreases a,
{
    broadcast use vstd::std_specs::vec::axiom_vec_index_decreases;

    let mut out: Vec<Bson> = Vec::new();
    let mut i: usize = 0;
    while i < a.len()
        invariant
            i <= a.len(),
            out@.len() == i,
            forall|j: int| 0 <= j < i ==> (#[trigger] out@[j])@ == a@[j]@,
        decreases a.len() - i,
    {
        let item = copy_bson(&a[i]);
        out.push(item);
        i += 1;
    }
    assert(array_view(out@) =~= array_view(a@));
    out
}

/// A copy of the entries of a document.
fn copy_entries(e: &Vec<(String, Bson)>) -> (r: Vec<(String, Bson)>)
    ensures
        entries_view(r@) == entries_view(e@),
    decreases e,
{
    broadcast use vstd::std_specs::vec::axiom_vec_index_decreases;

    let mut out: Vec<(String, Bson)> = Vec::new();
    let mut i: usize = 0;
    while i < e.len()
        invariant
            i <= e.len(),
            out@.len() == i,
            forall|j: int|
                0 <= j < i ==> (#[trigger] out@[j]).0@ == e@[j].0@ && out@[j].1@ == e@[j].1@,
        decreases e.len() - i,
    {
        let key = e[i].0.clone();
        let value = copy_bson(&e[i].1);
        out.push((key, value));
        i += 1;
    }
    assert(entries_view(out@) =~= entries_view(e@));
    out
}

/// A copy of a document, equal to it entry by entry.
pub fn copy_document(d: &Document) -> (r: Document)
    ensures
        r@ == d@,
    decreases d,
{
    Document { entries: copy_entries(&d.entries) }
}

impl Clone for Bson {
    fn clone(&self) -> (r: Bson)
        ensures
            r@ == self@,
    {
        copy_bson(self)
    }
}

impl Clone for Document {
    fn clone(&self) -> (r: Document)
        ensures
            r@ == self@,
    {
        copy_document(self)
    }
}

} // verus!
