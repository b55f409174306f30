//! What holds of derived conversions: a record that is written as a wire
//! value is read back from it.

use vstd::prelude::*;
use crate::bson::BsonView;
use crate::bson::DocumentView;
use crate::bson::contains_key;
use crate::bson::inserted;
use crate::bson::is_first;
use crate::bson::lookup;
use crate::bson::position;
use crate::bson::removed;
use crate::derive::bson::Body;
use crate::derive::bson::FieldPlan;
use crate::derive::bson::RecordView;
use crate::derive::bson::TYPE_KEY;
use crate::derive::record::Reading;
use crate::derive::record::field_conforms;
use crate::derive::record::fields_read;
use crate::derive::record::filled;
use crate::derive::record::first_missing;
use crate::derive::record::first_tagged;
use crate::derive::record::lemma_first_tagged_unique;
use crate::derive::record::read_fields;
use crate::derive::record::read_spec;
use crate::derive::record::record_fits;
use crate::derive::record::tagged;
use crate::derive::record::written_fields;
use crate::derive::record::written_spec;
use crate::ext::bson::de::CauseView;

verus! {

/// Whether the keys of the fields differ from each other and from the key
/// of the discriminator tag.
pub open spec fn well_keyed(fields: Seq<FieldPlan>) -> bool {
    &&& forall|i: int, j: int|
        0 <= i < j < fields.len() ==> (#[trigger] fields[i]).id@ != (#[trigger] fields[j]).id@
    &&& forall|i: int| 0 <= i < fields.len() ==> (#[trigger] fields[i]).id@ != TYPE_KEY@
}

/// Whether each value can be read as the declared type of its field.
pub open spec fn all_conform(fields: Seq<FieldPlan>, values: Seq<BsonView>) -> bool {
    &&& values.len() == fields.len()
    &&& forall|i: int|
        0 <= i < fields.len() ==> field_conforms(#[trigger] fields[i], values[i]) is Ok
}

/// Whether no entry of a document has the key of a field.
pub open spec fn lacks(d: DocumentView, fields: Seq<FieldPlan>) -> bool {
    forall|p: int, i: int|
        0 <= p < d.len() && 0 <= i < fields.len() ==> (#[trigger] d[p]).0 != (
        #[trigger] fields[i]).id@
}

/// The entries of the fields from position `from` up to position `to`, each
/// value under the key of its field.
pub open spec fn entries(fields: Seq<FieldPlan>, values: Seq<BsonView>, from: int, to: int)
    -> DocumentView {
    Seq::new((to - from) as nat, |i: int| (fields[from + i].id@, values[from + i]))
}

/// The slots that hold the first `k` values.
pub open spec fn found(values: Seq<BsonView>, k: int) -> Seq<Option<BsonView>> {
    Seq::new(k as nat, |i: int| Some(values[i]))
}

/// Fields with keys of their own are written one behind the other.
pub proof fn lemma_written_in_order(
    fields: Seq<FieldPlan>,
    values: Seq<BsonView>,
    d: DocumentView,
    k: int,
)
    requires
        well_keyed(fields),
        values.len() == fields.len(),
        lacks(d, fields),
        0 <= k <= fields.len(),
    ensures
        written_fields(fields.take(k), values, d) == d + entries(fields, values, 0, k),
    decreases k,
{
    if k == 0 {
        assert(fields.take(0) =~= Seq::empty());
        assert(d + entries(fields, values, 0, 0) =~= d);
    } else {
        lemma_written_in_order(fields, values, d, k - 1);
        assert(fields.take(k).drop_last() =~= fields.take(k - 1));
        assert(fields.take(k).last() == fields[k - 1]);
        let before = d + entries(fields, values, 0, k - 1);
        let key = fields[k - 1].id@;
        if contains_key(before, key) {
            let p = position(before, key);
            if p < d.len() {
                assert(d[p].0 != fields[k - 1].id@);
            } else {
                assert(fields[p - d.len()].id@ != fields[k - 1].id@);
            }
        }
        assert(inserted(before, key, values[k - 1]) =~= d + entries(fields, values, 0, k));
    }
}

/// Reading the first `k` fields of what was written takes their entries out
/// of the document and finds their values.
pub proof fn lemma_read_in_order(
    fields: Seq<FieldPlan>,
    values: Seq<BsonView>,
    d: DocumentView,
    k: int,
)
    requires
        well_keyed(fields),
        all_conform(fields, values),
        lacks(d, fields),
        0 <= k <= fields.len(),
    ensures
        read_fields(
            fields.take(k),
            Reading {
                doc: d + entries(fields, values, 0, fields.len() as int),
                slots: Seq::empty(),
                failed: None,
            },
        ) == (Reading {
            doc: d + entries(fields, values, k, fields.len() as int),
            slots: found(values, k),
            failed: None,
        }),
    decreases k,
{
    let n = fields.len() as int;
    if k == 0 {
        assert(fields.take(0) =~= Seq::empty());
        assert(found(values, 0) =~= Seq::empty());
    } else {
        lemma_read_in_order(fields, values, d, k - 1);
        assert(fields.take(k).drop_last() =~= fields.take(k - 1));
        assert(fields.take(k).last() == fields[k - 1]);
        let doc = d + entries(fields, values, k - 1, n);
        let key = fields[k - 1].id@;
        let at = d.len() as int;
        assert(doc[at] == (key, values[k - 1]));
        assert forall|j: int| 0 <= j < at implies (#[trigger] doc[j]).0 != key by {
            assert(d[j].0 != fields[k - 1].id@);
        }
        assert(is_first(doc, key, at));
        let p = position(doc, key);
        if p < at {
            assert(doc[p].0 != key);
        }
        if at < p {
            assert(doc[at].0 != key);
        }
        assert(lookup(doc, key) == Some(values[k - 1]));
        assert(field_conforms(fields[k - 1], values[k - 1]) is Ok);
        assert(removed(doc, key) =~= d + entries(fields, values, k, n));
        assert(found(values, k - 1).push(Some(values[k - 1])) =~= found(values, k));
    }
}

/// The values of a record are read back from the document that they are
/// written into, where the keys of the fields differ from each other and
/// each value can be read as the declared type of its field.
pub proof fn lemma_fields_round_trip(
    fields: Seq<FieldPlan>,
    values: Seq<BsonView>,
    d: DocumentView,
)
    requires
        well_keyed(fields),
        all_conform(fields, values),
        lacks(d, fields),
    ensures
        fields_read(fields, written_fields(fields, values, d)) == Ok::<Seq<BsonView>, CauseView>(
            values,
        ),
{
    let n = fields.len() as int;
    lemma_written_in_order(fields, values, d, n);
    lemma_read_in_order(fields, values, d, n);
    assert(fields.take(n) =~= fields);
    let end = read_fields(
        fields,
        Reading { doc: written_fields(fields, values, d), slots: Seq::empty(), failed: None },
    );
    assert(end.slots == found(values, n));
    assert forall|i: int| !first_missing(end.slots, i) by {
        if 0 <= i < end.slots.len() {
            assert(end.slots[i] is Some);
        }
    }
    assert(filled(end.slots) =~= values);
}

/// Whether a record can be told from its wire value: the keys of its fields
/// differ from each other and from the key of the discriminator tag, each of
/// its values can be read as the declared type of its field, and no earlier
/// variant of an enum has the same name on the wire.
pub open spec fn readable(body: Body, r: RecordView) -> bool {
    match body {
        Body::Struct(fields) => well_keyed(fields@) && all_conform(fields@, r.values),
        Body::EnumUnit(variants) => first_tagged(variants@, variants@[r.variant].value@, r.variant),
        Body::EnumStruct(variants) => {
            &&& first_tagged(variants@, variants@[r.variant].value@, r.variant)
            &&& well_keyed(variants@[r.variant].fields@)
            &&& all_conform(variants@[r.variant].fields@, r.values)
        },
    }
}

/// A record is read back from what it is written as: for every record that
/// has the shape of the type and can be told from its wire value, reading the
/// wire value that it is written as gives the record again.
pub proof fn lemma_record_round_trip(body: Body, r: RecordView)
    requires
        record_fits(body, r),
        readable(body, r),
    ensures
        read_spec(body, written_spec(body, r)) == Ok::<RecordView, CauseView>(r),
{
    let empty = Seq::<(Seq<char>, BsonView)>::empty();
    match body {
        Body::Struct(fields) => {
            lemma_fields_round_trip(fields@, r.values, empty);
        },
        Body::EnumUnit(variants) => {
            lemma_first_tagged_unique(variants@, variants@[r.variant].value@, r.variant);
            assert(r.values =~= Seq::empty());
        },
        Body::EnumStruct(variants) => {
            let v = variants@[r.variant];
            let fields = v.fields@;
            let tag = v.value@;
            let start = tagged(tag);
            lemma_first_tagged_unique(variants@, tag, r.variant);
            assert(start[0].0 == TYPE_KEY@);
            assert forall|p: int, i: int| 0 <= p < start.len() && 0 <= i < fields.len() implies (
            #[trigger] start[p]).0 != (#[trigger] fields[i]).id@ by {}
            lemma_written_in_order(fields, r.values, start, fields.len() as int);
            lemma_written_in_order(fields, r.values, empty, fields.len() as int);
            assert(fields.take(fields.len() as int) =~= fields);
            let doc = written_fields(fields, r.values, start);
            let rest = entries(fields, r.values, 0, fields.len() as int);
            assert(doc == start + rest);
            assert(doc[0] == (TYPE_KEY@, BsonView::String(tag)));
            assert(is_first(doc, TYPE_KEY@, 0));
            let p = position(doc, TYPE_KEY@);
            if 0 < p {
                assert(doc[0].0 != TYPE_KEY@);
            }
            assert(lookup(doc, TYPE_KEY@) == Some(BsonView::String(tag)));
            assert(removed(doc, TYPE_KEY@) =~= empty + rest);
            assert(written_fields(fields, r.values, empty) == empty + rest);
            lemma_fields_round_trip(fields, r.values, empty);
        },
    }
}

} // verus!
