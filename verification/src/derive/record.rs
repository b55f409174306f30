//! What the derived conversions do: writing a record as a wire value and
//! reading it back.

use vstd::prelude::*;
use vstd::string::StringExecFns;
use crate::bson;
use crate::bson::BsonView;
use crate::bson::DocumentView;
use crate::bson::array_view;
use crate::bson::inserted;
use crate::bson::lookup;
use crate::bson::removed;
use crate::derive::ast::Type;
use crate::derive::bson::Body;
use crate::derive::bson::Derived;
use crate::derive::bson::FieldPlan;
use crate::derive::bson::Record;
use crate::derive::bson::RecordView;
use crate::derive::bson::VariantPlan;
use crate::derive::bson::TYPE_KEY;
use crate::ext::bson::de::Cause;
use crate::ext::bson::de::CauseView;
use crate::ext::bson::de::Error;
use crate::ext::bson::de::Expected;
use crate::ext::bson::de::Target;
use crate::ext::bson::laws::read;
use crate::ext::bson::de::message_spec;
use crate::ext::bson::ser;

verus! {

/// The refusal of a wire value of another kind than the expected one.
pub open spec fn invalid(expected: Expected, found: BsonView) -> Result<(), CauseView> {
    Err(CauseView::InvalidVariant { expected, found })
}

/// Whether a wire value is a 32-bit integer between `lo` and `hi`, and the
/// refusal where it is not.
pub open spec fn int32_within(b: BsonView, lo: int, hi: int, target: Target) -> Result<
    (),
    CauseView,
> {
    match b {
        BsonView::Int32(i) => if lo <= i <= hi {
            Ok(())
        } else {
            Err(CauseView::OutOfRange { value: i as i64, target })
        },
        _ => invalid(Expected::Int32, b),
    }
}

/// Whether a wire value can be read as a value of the declared type, and the
/// refusal where it cannot.
pub open spec fn conforms_spec(ty: Type, b: BsonView) -> Result<(), CauseView>
    decreases ty, 0nat,
{
    match ty {
        Type::Bool => if b is Boolean {
            Ok(())
        } else {
            invalid(Expected::Bool, b)
        },
        Type::Char => match b {
            BsonView::String(s) => if s.len() == 1 {
                Ok(())
            } else {
                Err(CauseView::InvalidChar(s))
            },
            _ => invalid(Expected::String, b),
        },
        Type::I8 => int32_within(b, i8::MIN as int, i8::MAX as int, Target::I8),
        Type::I16 => int32_within(b, i16::MIN as int, i16::MAX as int, Target::I16),
        Type::U8 => int32_within(b, u8::MIN as int, u8::MAX as int, Target::U8),
        Type::U16 => int32_within(b, u16::MIN as int, u16::MAX as int, Target::U16),
        Type::I32 | Type::U32 => if b is Int32 {
            Ok(())
        } else {
            invalid(Expected::Int32, b)
        },
        Type::I64 | Type::U64 | Type::Usize => if b is Int64 {
            Ok(())
        } else {
            invalid(Expected::Int64, b)
        },
        Type::Isize => match b {
            BsonView::Int64(i) => if isize::MIN <= i <= isize::MAX {
                Ok(())
            } else {
                Err(CauseView::OutOfRange { value: i, target: Target::Isize })
            },
            _ => invalid(Expected::Int64, b),
        },
        Type::String => if b is String {
            Ok(())
        } else {
            invalid(Expected::String, b)
        },
        Type::Option(inner) => if b is Null {
            Ok(())
        } else {
            conforms_spec(*inner, b)
        },
        Type::Vec(inner) => match b {
            BsonView::Array(a) => first_error(*inner, a, 0),
            _ => invalid(Expected::Array, b),
        },
        Type::Bson | Type::Other => Ok(()),
    }
}

/// The refusal of the first element of `a`, from position `i` on, that
/// cannot be read as a value of the type `inner`.
pub open spec fn first_error(inner: Type, a: Seq<BsonView>, i: int) -> Result<(), CauseView>
    decreases inner, a.len() - i + 1,
{
    if i < 0 || i >= a.len() {
        Ok(())
    } else {
        match conforms_spec(inner, a[i]) {
            Ok(()) => first_error(inner, a, i + 1),
            Err(e) => Err(e),
        }
    }
}

/// Whether a check agrees with a reading: both succeed, or both fail for the
/// same reason.
pub open spec fn agrees<T>(check: Result<(), CauseView>, reading: Result<T, Error>) -> bool {
    match check {
        Ok(()) => reading is Ok,
        Err(cause) => reading is Err && reading->Err_0@ == cause,
    }
}

/// A wire value can be read as a value of a declared type exactly where the
/// conversion of that type reads it, and is refused for the same reason
/// where it does not.
pub proof fn lemma_conforms_agrees(b: bson::Bson)
    ensures
        agrees(conforms_spec(Type::Bool, b@), read::<bool>(crate::ext::bson::Bson(b))),
        agrees(conforms_spec(Type::Char, b@), read::<char>(crate::ext::bson::Bson(b))),
        agrees(conforms_spec(Type::I8, b@), read::<i8>(crate::ext::bson::Bson(b))),
        agrees(conforms_spec(Type::I16, b@), read::<i16>(crate::ext::bson::Bson(b))),
        agrees(conforms_spec(Type::I32, b@), read::<i32>(crate::ext::bson::Bson(b))),
        agrees(conforms_spec(Type::I64, b@), read::<i64>(crate::ext::bson::Bson(b))),
        agrees(conforms_spec(Type::Isize, b@), read::<isize>(crate::ext::bson::Bson(b))),
        agrees(conforms_spec(Type::U8, b@), read::<u8>(crate::ext::bson::Bson(b))),
        agrees(conforms_spec(Type::U16, b@), read::<u16>(crate::ext::bson::Bson(b))),
        agrees(conforms_spec(Type::U32, b@), read::<u32>(crate::ext::bson::Bson(b))),
        agrees(conforms_spec(Type::U64, b@), read::<u64>(crate::ext::bson::Bson(b))),
        agrees(conforms_spec(Type::Usize, b@), read::<usize>(crate::ext::bson::Bson(b))),
        agrees(conforms_spec(Type::String, b@), read::<String>(crate::ext::bson::Bson(b))),
{
}

/// The refusal of a wire value of another kind than the expected one.
fn refuse(expected: Expected, found: &bson::Bson) -> (r: Result<(), Error>)
    ensures
        r is Err,
        r->Err_0@ == (CauseView::InvalidVariant { expected, found: found@ }),
{
    Err(Error(Cause::InvalidVariant { expected, found: found.clone() }))
}

/// Checks that a wire value is a 32-bit integer between `lo` and `hi`.
fn check_int32(b: &bson::Bson, lo: i32, hi: i32, target: Target) -> (r: Result<(), Error>)
    ensures
        match r {
            Ok(()) => int32_within(b@, lo as int, hi as int, target) is Ok,
            Err(e) => int32_within(b@, lo as int, hi as int, target) == Err::<(), CauseView>(e@),
        },
{
    match b {
        bson::Bson::Int32(i) => {
            if *i < lo || *i > hi {
                Err(Error(Cause::OutOfRange { value: *i as i64, target }))
            } else {
                Ok(())
            }
        },
        _ => refuse(Expected::Int32, b),
    }
}

/// Checks that a wire value can be read as a value of the declared type.
pub fn conforms(ty: &Type, b: &bson::Bson) -> (r: Result<(), Error>)
    ensures
        match r {
            Ok(()) => conforms_spec(*ty, b@) is Ok,
            Err(e) => conforms_spec(*ty, b@) == Err::<(), CauseView>(e@),
        },
    decreases ty,
{
    match ty {
        Type::Bool => match b {
            bson::Bson::Boolean(_) => Ok(()),
            _ => refuse(Expected::Bool, b),
        },
        Type::Char => match b {
            bson::Bson::String(s) => {
                if s.as_str().unicode_len() == 1 {
                    Ok(())
                } else {
                    Err(Error(Cause::InvalidChar(s.clone())))
                }
            },
            _ => refuse(Expected::String, b),
        },
        Type::I8 => check_int32(b, i8::MIN as i32, i8::MAX as i32, Target::I8),
        Type::I16 => check_int32(b, i16::MIN as i32, i16::MAX as i32, Target::I16),
        Type::U8 => check_int32(b, u8::MIN as i32, u8::MAX as i32, Target::U8),
        Type::U16 => check_int32(b, u16::MIN as i32, u16::MAX as i32, Target::U16),
        Type::I32 | Type::U32 => match b {
            bson::Bson::Int32(_) => Ok(()),
            _ => refuse(Expected::Int32, b),
        },
        Type::I64 | Type::U64 | Type::Usize => match b {
            bson::Bson::Int64(_) => Ok(()),
            _ => refuse(Expected::Int64, b),
        },
        Type::Isize => match b {
            bson::Bson::Int64(i) => {
                if *i < (isize::MIN as i64) || *i > (isize::MAX as i64) {
                    Err(Error(Cause::OutOfRange { value: *i, target: Target::Isize }))
                } else {
                    Ok(())
                }
            },
            _ => refuse(Expected::Int64, b),
        },
        Type::String => match b {
            bson::Bson::String(_) => Ok(()),
            _ => refuse(Expected::String, b),
        },
        Type::Option(inner) => match b {
            bson::Bson::Null => Ok(()),
            _ => conforms(inner, b),
        },
        Type::Vec(inner) => match b {
            bson::Bson::Array(a) => {
                let mut i: usize = 0;
                while i < a.len()
                    invariant
                        i <= a.len(),
                        *ty == Type::Vec(*inner),
                        *b == bson::Bson::Array(*a),
                        first_error(**inner, array_view(a@), 0) == first_error(
                            **inner,
                            array_view(a@),
                            i as int,
                        ),
                    decreases a.len() - i,
                {
                    assert(array_view(a@)[i as int] == a@[i as int]@);
                    match conforms(inner, &a[i]) {
                        Ok(()) => {
                            assert(first_error(**inner, array_view(a@), i as int) == first_error(
                                **inner,
                                array_view(a@),
                                i as int + 1,
                            ));
                        },
                        Err(e) => {
                            assert(first_error(**inner, array_view(a@), i as int) == Err::<
                                (),
                                CauseView,
                            >(e@));
                            return Err(e);
                        },
                    }
                    i += 1;
                }
                assert(first_error(**inner, array_view(a@), i as int) is Ok);
                Ok(())
            },
            _ => refuse(Expected::Array, b),
        },
        Type::Bson | Type::Other => Ok(()),
    }
}

/// The document after the fields of a record are written into `d`: each
/// value under the key of its field, in declared order.
pub open spec fn written_fields(fields: Seq<FieldPlan>, values: Seq<BsonView>, d: DocumentView)
    -> DocumentView
    decreases fields.len(),
{
    if fields.len() == 0 {
        d
    } else {
        inserted(
            written_fields(fields.drop_last(), values, d),
            fields.last().id@,
            values[fields.len() - 1],
        )
    }
}

/// Whether a record has the shape of the type: a variant that exists, and as
/// many values as that variant has fields.
pub open spec fn record_fits(body: Body, r: RecordView) -> bool {
    match body {
        Body::Struct(fields) => r.variant == 0 && r.values.len() == fields@.len(),
        Body::EnumUnit(variants) => 0 <= r.variant < variants@.len() && r.values.len() == 0,
        Body::EnumStruct(variants) => 0 <= r.variant < variants@.len() && r.values.len()
            == variants@[r.variant].fields@.len(),
    }
}

/// The document that holds only the name of a variant, under `_type`.
pub open spec fn tagged(value: Seq<char>) -> DocumentView {
    seq![(TYPE_KEY@, BsonView::String(value))]
}

/// What a record that fits the type is written as.
pub open spec fn written_spec(body: Body, r: RecordView) -> BsonView {
    match body {
        Body::Struct(fields) => BsonView::Document(
            written_fields(fields@, r.values, Seq::empty()),
        ),
        Body::EnumUnit(variants) => BsonView::String(variants@[r.variant].value@),
        Body::EnumStruct(variants) => BsonView::Document(
            written_fields(
                variants@[r.variant].fields@,
                r.values,
                tagged(variants@[r.variant].value@),
            ),
        ),
    }
}

/// The message for a record that has not the shape of the type.
pub open spec fn misfit() -> Seq<char> {
    "the record does not fit the type"@
}

/// Where reading the fields of a record stands: what is left of the document,
/// the value found for each field read so far, and the refusal that ended the
/// reading, if any.
pub struct Reading {
    pub doc: DocumentView,
    pub slots: Seq<Option<BsonView>>,
    pub failed: Option<CauseView>,
}

/// Whether the value found for a field can be read: a field that the generic
/// serialization framework converts is not looked into.
pub open spec fn field_conforms(f: FieldPlan, w: BsonView) -> Result<(), CauseView> {
    if f.serde {
        Ok(())
    } else {
        conforms_spec(f.ty, w)
    }
}

/// Reading one more field: its entry is taken out of the document and
/// checked; a field without entry leaves an empty slot. After a refusal
/// nothing more is read.
pub open spec fn read_field(st: Reading, f: FieldPlan) -> Reading {
    if st.failed is Some {
        st
    } else {
        match lookup(st.doc, f.id@) {
            Some(w) => match field_conforms(f, w) {
                Ok(()) => Reading {
                    doc: removed(st.doc, f.id@),
                    slots: st.slots.push(Some(w)),
                    failed: None,
                },
                Err(e) => Reading {
                    doc: removed(st.doc, f.id@),
                    slots: st.slots,
                    failed: Some(e),
                },
            },
            None => Reading { doc: st.doc, slots: st.slots.push(None), failed: None },
        }
    }
}

/// Reading all fields, in declared order.
pub open spec fn read_fields(fields: Seq<FieldPlan>, st: Reading) -> Reading
    decreases fields.len(),
{
    if fields.len() == 0 {
        st
    } else {
        read_field(read_fields(fields.drop_last(), st), fields.last())
    }
}

/// Whether `i` is the first empty slot.
pub open spec fn first_missing(slots: Seq<Option<BsonView>>, i: int) -> bool {
    &&& 0 <= i < slots.len()
    &&& slots[i] is None
    &&& forall|j: int| 0 <= j < i ==> (#[trigger] slots[j]) is Some
}

/// The values of the slots, where none is empty.
pub open spec fn filled(slots: Seq<Option<BsonView>>) -> Seq<BsonView> {
    Seq::new(slots.len(), |i: int| slots[i].unwrap())
}

/// The values of a record read from the document `d`: the refusal of the
/// first value that cannot be read; else the first field in declared order
/// that the document lacks, as missing; else the values found.
pub open spec fn fields_read(fields: Seq<FieldPlan>, d: DocumentView) -> Result<
    Seq<BsonView>,
    CauseView,
> {
    let end = read_fields(fields, Reading { doc: d, slots: Seq::empty(), failed: None });
    if end.failed is Some {
        Err(end.failed.unwrap())
    } else if exists|i: int| first_missing(end.slots, i) {
        Err(CauseView::Missing(fields[choose|i: int| first_missing(end.slots, i)].id@))
    } else {
        Ok(filled(end.slots))
    }
}

/// Whether `i` is the first variant whose name on the wire is `tag`.
pub open spec fn first_tagged(variants: Seq<VariantPlan>, tag: Seq<char>, i: int) -> bool {
    &&& 0 <= i < variants.len()
    &&& variants[i].value@ == tag
    &&& forall|j: int| 0 <= j < i ==> (#[trigger] variants[j]).value@ != tag
}

/// The record with the given variant and values, or the refusal.
pub open spec fn as_record(variant: int, values: Result<Seq<BsonView>, CauseView>) -> Result<
    RecordView,
    CauseView,
> {
    match values {
        Ok(v) => Ok(RecordView { variant, values: v }),
        Err(e) => Err(e),
    }
}

/// What reading a wire value as a record of the type gives.
pub open spec fn read_spec(body: Body, b: BsonView) -> Result<RecordView, CauseView> {
    match body {
        Body::Struct(fields) => match b {
            BsonView::Document(d) => as_record(0, fields_read(fields@, d)),
            _ => Err(CauseView::NotDocument),
        },
        Body::EnumUnit(variants) => match b {
            BsonView::String(s) => if exists|i: int| first_tagged(variants@, s, i) {
                Ok(
                    RecordView {
                        variant: choose|i: int| first_tagged(variants@, s, i),
                        values: Seq::empty(),
                    },
                )
            } else {
                Err(CauseView::UnknownVariant)
            },
            _ => Err(CauseView::NotString),
        },
        Body::EnumStruct(variants) => match b {
            BsonView::Document(d) => match lookup(d, TYPE_KEY@) {
                Some(BsonView::String(s)) => if exists|i: int| first_tagged(variants@, s, i) {
                    let v = choose|i: int| first_tagged(variants@, s, i);
                    as_record(v, fields_read(variants@[v].fields@, removed(d, TYPE_KEY@)))
                } else {
                    Err(CauseView::UnknownVariant)
                },
                Some(_) => Err(CauseView::UnknownVariant),
                None => Err(CauseView::EnumTypeNotFound),
            },
            _ => Err(CauseView::NotDocument),
        },
    }
}

/// The views of the slots of a reading.
pub open spec fn slots_view(slots: Seq<Option<bson::Bson>>) -> Seq<Option<BsonView>> {
    Seq::new(
        slots.len(),
        |i: int|
            match slots[i] {
                Some(b) => Some(b@),
                None => None,
            },
    )
}

/// Writes the values of a record into a document, each under the key of its
/// field.
fn write_fields(fields: &Vec<FieldPlan>, values: Vec<bson::Bson>, doc: &mut bson::Document)
    requires
        values@.len() == fields@.len(),
    ensures
        final(doc)@ == written_fields(fields@, array_view(values@), old(doc)@),
{
    let ghost all = array_view(values@);
    let ghost start = doc@;
    let mut values = values;
    let mut i: usize = 0;
    assert(fields@.take(0) =~= Seq::empty());
    while i < fields.len()
        invariant
            i <= fields.len(),
            values@.len() == fields@.len(),
            all.len() == fields@.len(),
            forall|j: int| i <= j < fields@.len() ==> (#[trigger] values@[j])@ == all[j],
            doc@ == written_fields(fields@.take(i as int), all, start),
        decreases fields.len() - i,
    {
        proof {
            assert(fields@.take(i as int + 1).drop_last() =~= fields@.take(i as int));
            assert(fields@.take(i as int + 1).last() == fields@[i as int]);
        }
        let mut v = bson::Bson::Null;
        std::mem::swap(&mut values[i], &mut v);
        let _ = doc.insert(fields[i].id.clone(), v);
        i += 1;
    }
    assert(fields@.take(fields@.len() as int) =~= fields@);
}

/// Reads the fields of a record out of a document.
fn read_record_fields(fields: &Vec<FieldPlan>, doc: bson::Document) -> (r: Result<
    Vec<bson::Bson>,
    Error,
>)
    ensures
        match r {
            Ok(values) => fields_read(fields@, doc@) == Ok::<Seq<BsonView>, CauseView>(
                array_view(values@),
            ),
            Err(e) => fields_read(fields@, doc@) == Err::<Seq<BsonView>, CauseView>(e@),
        },
{
    let mut rest = doc;
    let ghost start = Reading { doc: doc@, slots: Seq::empty(), failed: None };
    let mut slots: Vec<Option<bson::Bson>> = Vec::new();
    let mut failed: Option<Error> = None;
    let mut i: usize = 0;
    assert(fields@.take(0) =~= Seq::empty());
    assert(slots_view(slots@) =~= Seq::empty());
    while i < fields.len()
        invariant
            i <= fields.len(),
            read_fields(fields@.take(i as int), start) == (Reading {
                doc: rest@,
                slots: slots_view(slots@),
                failed: match failed {
                    Some(e) => Some(e@),
                    None => None,
                },
            }),
            failed is None ==> slots@.len() == i,
        decreases fields.len() - i,
    {
        proof {
            assert(fields@.take(i as int + 1).drop_last() =~= fields@.take(i as int));
            assert(fields@.take(i as int + 1).last() == fields@[i as int]);
        }
        if failed.is_none() {
            let f = &fields[i];
            let ghost before = slots_view(slots@);
            match rest.remove(f.id.as_str()) {
                Some(w) => {
                    let checked = if f.serde {
                        Ok(())
                    } else {
                        conforms(&f.ty, &w)
                    };
                    match checked {
                        Ok(()) => {
                            slots.push(Some(w));
                            assert(slots_view(slots@) =~= before.push(Some(w@)));
                        },
                        Err(e) => {
                            failed = Some(e);
                        },
                    }
                },
                None => {
                    slots.push(None);
                    assert(slots_view(slots@) =~= before.push(None));
                },
            }
        }
        i += 1;
    }
    assert(fields@.take(fields@.len() as int) =~= fields@);
    match failed {
        Some(e) => {
            return Err(e);
        },
        None => {},
    }
    let ghost found = slots_view(slots@);
    let mut values: Vec<bson::Bson> = Vec::new();
    let mut i: usize = 0;
    while i < fields.len()
        invariant
            i <= fields.len(),
            slots@.len() == fields@.len(),
            found.len() == fields@.len(),
            forall|j: int| i <= j < fields@.len() ==> (#[trigger] slots_view(slots@)[j]) == found[j],
            values@.len() == i,
            forall|j: int| 0 <= j < i ==> (#[trigger] found[j]) == Some(values@[j]@),
            read_fields(fields@, start).slots == found,
            read_fields(fields@, start).failed is None,
            start == (Reading { doc: doc@, slots: Seq::empty(), failed: None }),
        decreases fields.len() - i,
    {
        let mut s: Option<bson::Bson> = None;
        assert(slots_view(slots@)[i as int] == found[i as int]);
        let ghost previous = slots@;
        std::mem::swap(&mut slots[i], &mut s);
        assert forall|j: int| i + 1 <= j < fields@.len() implies (#[trigger] slots_view(
            slots@,
        )[j]) == found[j] by {
            assert(slots@[j] == previous[j]);
            assert(slots_view(previous)[j] == found[j]);
        }
        match s {
            Some(value) => {
                values.push(value);
            },
            None => {
                assert(first_missing(found, i as int));
                assert forall|k: int| first_missing(found, k) implies k == i by {
                    if k < i {
                        assert(found[k] is Some);
                    }
                }
                return Err(Error(Cause::Missing(fields[i].id.clone())));
            },
        }
        i += 1;
    }
    assert(array_view(values@) =~= filled(found));
    assert forall|k: int| !first_missing(found, k) by {
        if 0 <= k < found.len() {
            assert(found[k] is Some);
        }
    }
    Ok(values)
}

/// The position of the first variant whose name on the wire is `tag`, or
/// the number of variants where there is none.
fn find_variant(variants: &Vec<VariantPlan>, tag: &String) -> (i: usize)
    ensures
        i <= variants@.len(),
        i < variants@.len() ==> first_tagged(variants@, tag@, i as int),
        i == variants@.len() ==> !exists|k: int| first_tagged(variants@, tag@, k),
{
    let mut i: usize = 0;
    while i < variants.len()
        invariant
            i <= variants.len(),
            forall|j: int| 0 <= j < i ==> (#[trigger] variants@[j]).value@ != tag@,
        decreases variants.len() - i,
    {
        if variants[i].value == *tag {
            return i;
        }
        i += 1;
    }
    i
}

/// The first variant with a given name on the wire is the only first one.
pub proof fn lemma_first_tagged_unique(variants: Seq<VariantPlan>, tag: Seq<char>, i: int)
    requires
        first_tagged(variants, tag, i),
    ensures
        (choose|k: int| first_tagged(variants, tag, k)) == i,
{
    let k = choose|k: int| first_tagged(variants, tag, k);
    if k < i {
        assert(variants[k].value@ != tag);
    }
    if i < k {
        assert(variants[i].value@ != tag);
    }
}

impl Derived {
    /// Writes a record as a wire value.
    ///
    /// A struct becomes a document with one entry per field, in declared
    /// order. A variant of an enum whose variants all have no fields becomes
    /// the string of its name on the wire; a variant of any other enum becomes
    /// a document that holds its name on the wire under `_type`, followed by
    /// one entry per field. A record that has not the shape of the type is
    /// refused.
    pub fn try_into_bson(&self, record: Record) -> (r: Result<bson::Bson, ser::Error>)
        requires
            self.into,
        ensures
            match r {
                Ok(b) => record_fits(self.body, record@) && b@ == written_spec(
                    self.body,
                    record@,
                ),
                Err(e) => !record_fits(self.body, record@) && e.0@ == misfit(),
            },
    {
        let Record { variant, values } = record;
        match &self.body {
            Body::Struct(fields) => {
                if variant != 0 || values.len() != fields.len() {
                    return Err(ser::Error(String::from_str("the record does not fit the type")));
                }
                let mut doc = bson::Document::new();
                write_fields(fields, values, &mut doc);
                Ok(bson::Bson::Document(doc))
            },
            Body::EnumUnit(variants) => {
                if variant >= variants.len() || values.len() != 0 {
                    return Err(ser::Error(String::from_str("the record does not fit the type")));
                }
                Ok(bson::Bson::String(variants[variant].value.clone()))
            },
            Body::EnumStruct(variants) => {
                if variant >= variants.len() || values.len() != variants[variant].fields.len() {
                    return Err(ser::Error(String::from_str("the record does not fit the type")));
                }
                let v = &variants[variant];
                let mut doc = bson::Document::new();
                let _ = doc.insert(String::from_str(TYPE_KEY), bson::Bson::String(v.value.clone()));
                proof {
                    let empty = Seq::<(Seq<char>, BsonView)>::empty();
                    assert(!bson::contains_key(empty, TYPE_KEY@));
                    assert(doc@ =~= tagged(v.value@));
                }
                write_fields(&v.fields, values, &mut doc);
                Ok(bson::Bson::Document(doc))
            },
        }
    }

    /// Reads a record from a wire value.
    ///
    /// For a struct the wire value has to be a document. Its fields are taken
    /// out of the document in declared order, whatever their order in the
    /// document; the first value that cannot be read as the declared type of
    /// its field is refused, and after that the first field that the document
    /// lacks is reported as missing. Entries that belong to no field are
    /// passed over.
    ///
    /// For an enum whose variants all have no fields the wire value has to be
    /// a string, and names the first variant with that name on the wire. For
    /// any other enum it has to be a document with the name of a variant
    /// under `_type`; the fields of that variant are read as those of a
    /// struct.
    pub fn try_from_bson(&self, b: bson::Bson) -> (r: Result<Record, Error>)
        requires
            self.from,
        ensures
            match r {
                Ok(record) => read_spec(self.body, b@) == Ok::<RecordView, CauseView>(record@),
                Err(e) => read_spec(self.body, b@) == Err::<RecordView, CauseView>(e@),
            },
    {
        match &self.body {
            Body::Struct(fields) => match b {
                bson::Bson::Document(doc) => match read_record_fields(fields, doc) {
                    Ok(values) => Ok(Record { variant: 0, values }),
                    Err(e) => Err(e),
                },
                _ => Err(Error(Cause::NotDocument)),
            },
            Body::EnumUnit(variants) => match b {
                bson::Bson::String(s) => {
                    let i = find_variant(variants, &s);
                    if i < variants.len() {
                        proof {
                            lemma_first_tagged_unique(variants@, s@, i as int);
                        }
                        let record = Record { variant: i, values: Vec::new() };
                        assert(record@.values =~= Seq::empty());
                        Ok(record)
                    } else {
                        Err(Error(Cause::UnknownVariant))
                    }
                },
                _ => Err(Error(Cause::NotString)),
            },
            Body::EnumStruct(variants) => match b {
                bson::Bson::Document(doc) => {
                    let mut doc = doc;
                    match doc.remove(TYPE_KEY) {
                        Some(bson::Bson::String(s)) => {
                            let i = find_variant(variants, &s);
                            if i < variants.len() {
                                proof {
                                    lemma_first_tagged_unique(variants@, s@, i as int);
                                }
                                match read_record_fields(&variants[i].fields, doc) {
                                    Ok(values) => Ok(Record { variant: i, values }),
                                    Err(e) => Err(e),
                                }
                            } else {
                                Err(Error(Cause::UnknownVariant))
                            }
                        },
                        Some(_) => Err(Error(Cause::UnknownVariant)),
                        None => Err(Error(Cause::EnumTypeNotFound)),
                    }
                },
                _ => Err(Error(Cause::NotDocument)),
            },
        }
    }
}

/// The description of a record that is written as something else than a
/// document.
pub open spec fn not_a_document() -> Seq<char> {
    "not a bson document"@
}

/// What writing a record as a document gives: the document that the record
/// is written as; an invalid document where the record has not the shape of
/// the type, or is written as something else than a document.
pub open spec fn document_written(body: Body, r: RecordView) -> Result<
    DocumentView,
    crate::error::ErrorView,
> {
    if !record_fits(body, r) {
        Err(crate::error::invalid(misfit()))
    } else {
        match written_spec(body, r) {
            BsonView::Document(d) => Ok(d),
            _ => Err(crate::error::invalid(not_a_document())),
        }
    }
}

/// What reading a record from a document gives: the record, or an invalid
/// document that says why the document cannot be read.
pub open spec fn document_read(body: Body, d: DocumentView) -> Result<
    RecordView,
    crate::error::ErrorView,
> {
    match read_spec(body, BsonView::Document(d)) {
        Ok(r) => Ok(r),
        Err(cause) => Err(crate::error::invalid(message_spec(cause))),
    }
}

impl Derived {
    /// Writes a record as the document that is stored in a collection.
    ///
    /// # Errors
    ///
    /// A record that cannot be written, or that is written as something
    /// else than a document, is an invalid document.
    pub fn into_document(&self, record: Record) -> (r: crate::error::Result<bson::Document>)
        requires
            self.into,
        ensures
            match r {
                Ok(d) => document_written(self.body, record@) == Ok::<
                    DocumentView,
                    crate::error::ErrorView,
                >(d@),
                Err(e) => document_written(self.body, record@) == Err::<
                    DocumentView,
                    crate::error::ErrorView,
                >(e@),
            },
    {
        match self.try_into_bson(record) {
            Ok(bson::Bson::Document(doc)) => Ok(doc),
            Ok(_) => Err(crate::error::Error::invalid_document("not a bson document")),
            Err(e) => Err(crate::error::Error::from(e)),
        }
    }

    /// Reads a record from a document that was stored in a collection.
    ///
    /// # Errors
    ///
    /// A document that cannot be read is an invalid document; the error says
    /// why.
    pub fn from_document(&self, document: bson::Document) -> (r: crate::error::Result<Record>)
        requires
            self.from,
        ensures
            match r {
                Ok(record) => document_read(self.body, document@) == Ok::<
                    RecordView,
                    crate::error::ErrorView,
                >(record@),
                Err(e) => document_read(self.body, document@) == Err::<
                    RecordView,
                    crate::error::ErrorView,
                >(e@),
            },
    {
        match self.try_from_bson(bson::Bson::Document(document)) {
            Ok(record) => Ok(record),
            Err(e) => Err(crate::error::Error::from(e)),
        }
    }
}

} // verus!
