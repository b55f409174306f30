//! The order in which documents are returned.

use vstd::prelude::*;
use vstd::std_specs::convert::FromSpecImpl;
use vstd::std_specs::convert::IntoSpec;
use crate::bson::Bson;
use crate::bson::BsonView;
use crate::bson::Document;
use crate::bson::DocumentView;
use crate::bson::inserted;
use crate::field::Field;

verus! {

/// The order in which to sort a field by.
pub enum Order<T: Field + Into<String>> {
    /// Sort in ascending order, which is equivalent to `1`.
    Asc,
    /// Sort in descending order, which is equivalent to `-1`.
    Desc,
    /// Sort on a nested field.
    Nested(Sort<T>),
}

/// A helper type to create a typed dictionary of sorted fields.
///
/// This type is used to sort documents fetched from the mongodb, it takes
/// `Field`, `Order` pairs.
pub struct Sort<T: Field + Into<String>>(pub Vec<(T, Order<T>)>);

/// What an order is written as: `1` for ascending, `-1` for descending, and
/// the document of the sort for a nested one.
pub open spec fn order_spec<T: Field + Into<String>>(order: Order<T>) -> BsonView
    decreases order,
{
    match order {
        Order::Asc => BsonView::Int32(1),
        Order::Desc => BsonView::Int32(-1i32),
        Order::Nested(s) => BsonView::Document(sort_spec(s.0@)),
    }
}

/// What a sort is written as: the document that holds the order of each
/// field under the name of the field, in the order in which they were pushed.
pub open spec fn sort_spec<T: Field + Into<String>>(pairs: Seq<(T, Order<T>)>) -> DocumentView
    decreases pairs,
{
    if pairs.len() == 0 {
        Seq::empty()
    } else {
        inserted(
            sort_spec(pairs.drop_last()),
            pairs.last().0.into_spec()@,
            order_spec(pairs.last().1),
        )
    }
}

/// Whether `name` is something that the field turns into as its name.
pub open spec fn field_named<T: Field + Into<String>>(field: T, name: String) -> bool {
    call_ensures(<T as Into<String>>::into, (field,), name)
}

/// Whether `b` is something that an order is written as: `1` for ascending,
/// `-1` for descending, and a document of the sort for a nested one.
pub open spec fn order_written<T: Field + Into<String>>(order: Order<T>, b: BsonView) -> bool
    decreases order,
{
    match order {
        Order::Asc => b == BsonView::Int32(1),
        Order::Desc => b == BsonView::Int32(-1i32),
        Order::Nested(s) => b is Document && sort_written(s.0@, b->Document_0),
    }
}

/// Whether `d` is something that a sort is written as: a document that
/// holds, for each field in the order in which they were pushed, what its
/// order is written as under a name that the field turns into.
pub open spec fn sort_written<T: Field + Into<String>>(pairs: Seq<(T, Order<T>)>, d: DocumentView)
    -> bool
    decreases pairs,
{
    if pairs.len() == 0 {
        d == Seq::<(Seq<char>, BsonView)>::empty()
    } else {
        exists|before: DocumentView, name: String, value: BsonView|
            #![trigger sort_step(pairs, before, name, value)]
            {
                &&& sort_step(pairs, before, name, value)
                &&& sort_written(pairs.drop_last(), before)
                &&& order_written(pairs.last().1, value)
                &&& d == inserted(before, name@, value)
            }
    }
}

/// Whether the last field of a sort that is not empty turns into `name`.
pub open spec fn sort_step<T: Field + Into<String>>(
    pairs: Seq<(T, Order<T>)>,
    before: DocumentView,
    name: String,
    value: BsonView,
) -> bool {
    pairs.len() > 0 && field_named(pairs.last().0, name)
}

/// For fields whose names are stated, what a sort and an order are written
/// as is one document and one wire value.
pub proof fn lemma_sort_written<T: Field + Into<String>>(
    pairs: Seq<(T, Order<T>)>,
    d: DocumentView,
)
    requires
        T::obeys_into_spec(),
        sort_written(pairs, d),
    ensures
        d == sort_spec(pairs),
    decreases pairs,
{
    if pairs.len() > 0 {
        let (before, name, value) = choose|before: DocumentView, name: String, value: BsonView|
            #![trigger sort_step(pairs, before, name, value)]
            {
                &&& sort_step(pairs, before, name, value)
                &&& sort_written(pairs.drop_last(), before)
                &&& order_written(pairs.last().1, value)
                &&& d == inserted(before, name@, value)
            };
        lemma_sort_written(pairs.drop_last(), before);
        lemma_order_written(pairs.last().1, value);
    }
}

/// For fields whose names are stated, an order is written as one wire
/// value.
pub proof fn lemma_order_written<T: Field + Into<String>>(order: Order<T>, b: BsonView)
    requires
        T::obeys_into_spec(),
        order_written(order, b),
    ensures
        b == order_spec(order),
    decreases order,
{
    match order {
        Order::Nested(s) => {
            lemma_sort_written(s.0@, b->Document_0);
        },
        _ => {},
    }
}

/// Writes an order as a wire value.
pub fn order_into_bson<T: Field + Into<String>>(order: Order<T>) -> (r: Bson)
    ensures
        order_written(order, r@),
    decreases order,
{
    match order {
        // Mongo uses '1' and '-1' to denote sort order in the document
        // given to queries' '$sort' property
        Order::Asc => Bson::Int32(1),
        Order::Desc => Bson::Int32(-1),
        Order::Nested(s) => Bson::Document(s.into_document()),
    }
}

impl<T: Field + Into<String>> Sort<T> {
    /// Creates an empty `Sort`.
    pub fn new() -> (s: Self)
        ensures
            s.0@.len() == 0,
    {
        Sort(Vec::new())
    }

    /// Pushes a (`Field`, `Order`) pair into the sort.
    pub fn push(&mut self, field: T, order: Order<T>)
        ensures
            final(self).0@ == old(self).0@.push((field, order)),
    {
        self.0.push((field, order));
    }

    /// Converts the `Sort` into a BSON [`Document`].
    pub fn into_document(self) -> (d: Document)
        ensures
            sort_written(self.0@, d@),
        decreases self,
    {
        let mut doc = Document::new();
        let ghost all = self.0@;
        assert(all.take(0) =~= Seq::empty());
        for pair in it: self.0
            invariant
                all == it.seq(),
                all == self.0@,
                sort_written(all.take(it.index() as int), doc@),
        {
            let ghost before = doc@;
            let ghost i = it.index() as int;
            let (f, o) = pair;
            let name: String = f.into();
            let value = order_into_bson(o);
            let ghost written = value@;
            let _ = doc.insert(name, value);
            proof {
                let next = all.take(i + 1);
                assert(next.drop_last() =~= all.take(i));
                assert(next.last() == all[i]);
                assert(field_named(f, name));
                assert(sort_step(next, before, name, written));
                assert(sort_written(next.drop_last(), before));
                assert(order_written(next.last().1, written));
                assert(doc@ == inserted(before, name@, written));
            }
        }
        assert(all.take(all.len() as int) =~= all);
        doc
    }
}

impl<T: Field + Into<String>> Default for Sort<T> {
    fn default() -> (s: Self)
        ensures
            s.0@.len() == 0,
    {
        Self::new()
    }
}

impl<T: Field + Into<String>> From<Order<T>> for Bson {
    fn from(order: Order<T>) -> (r: Bson)
        ensures
            order_written(order, r@),
    {
        order_into_bson(order)
    }
}

impl<T: Field + Into<String>> FromSpecImpl<Order<T>> for Bson {
    open spec fn obeys_from_spec() -> bool {
        false
    }

    open spec fn from_spec(order: Order<T>) -> Bson {
        arbitrary()
    }
}

} // verus!
