//! The companions of a record type that are derived from its schema: the
//! collection that stores it, the names of its fields, its filter and its
//! update.
//!
//! A filter has one optional comparator per field, and an update one optional
//! value per field. Fields that are marked to be skipped have no place in
//! either of them, nor among the field names.

use vstd::prelude::*;
use vstd::string::StringExecFns;
use crate::bson;
use crate::bson::BsonView;
use crate::bson::DocumentView;
use crate::bson::contains_key;
use crate::bson::inserted;
use crate::bson::lemma_key_found;
use crate::bson::lemma_lookup_inserted;
use crate::derive::ast::CompileError;
use crate::derive::ast::Container;
use crate::derive::ast::Data;
use crate::derive::ast::DeriveInput;
use crate::derive::ast::Field;
use crate::derive::ast::Member;
use crate::derive::ast::Style;
use crate::derive::ast::Type;
use crate::derive::ast::container_errors;
use crate::derive::ast::copy_type;
use crate::derive::ast::data_read;
use crate::derive::ast::messages;
use crate::derive::attr;
use crate::derive::attr::BsonMode;
use crate::derive::bson::Record;
use crate::derive::bson::member_id_spec;
use crate::derive::bson::member_to_id;
use crate::error::Error;
use crate::filter::Comparator;
use crate::filter::wire_comparator;
use crate::filter::wire_comparator_spec;
use crate::inflect::pascal_case;
use crate::inflect::snake_case;
use crate::inflect::to_pascal_case;
use crate::inflect::to_snake_case;

verus! {

/// The key of the object identifier of a document.
pub const ID_KEY: &'static str = "_id";

/// How a record type is stored: the name of its collection and the way its
/// documents are converted.
#[derive(Debug, PartialEq, Eq)]
pub struct CollectionPlan {
    pub name: String,
    pub bson: BsonMode,
}

/// One field name: the variant that stands for it and the name it turns into.
#[derive(Debug, PartialEq, Eq)]
pub struct FieldVariant {
    /// The name of the variant: the `PascalCase` form of the field's name.
    pub ident: String,
    /// The name of the field as declared.
    pub name: String,
}

/// The place of one field in a filter or in an update.
#[derive(Debug, PartialEq, Eq)]
pub struct Slot {
    /// The position of the field in the record.
    pub index: usize,
    /// The name of the field as declared.
    pub name: String,
    /// The key of the field in documents.
    pub id: String,
    /// The declared type of the field.
    pub ty: Type,
    /// Whether the generic serialization framework converts the value.
    pub serde: bool,
}

/// The shape of the filter of a record type.
#[derive(Debug, PartialEq, Eq)]
pub struct FilterPlan {
    /// Whether the filter has a place for the object identifier.
    pub oid: bool,
    pub slots: Vec<Slot>,
}

/// The shape of the update of a record type.
#[derive(Debug, PartialEq, Eq)]
pub struct UpdatePlan {
    pub bson: BsonMode,
    pub slots: Vec<Slot>,
}

/// The companions derived for a struct.
#[derive(Debug, PartialEq, Eq)]
pub struct Parts {
    pub collection: Option<CollectionPlan>,
    pub field: Option<Vec<FieldVariant>>,
    pub filter: Option<FilterPlan>,
    pub update: Option<UpdatePlan>,
}

/// Everything derived for a record type.
#[derive(Debug, PartialEq, Eq)]
pub struct Mongo {
    /// The name of the type.
    pub name: String,
    /// The name of the module that holds the companions: the `snake_case`
    /// form of the name of the type.
    pub namespace: String,
    /// Whether the generic serialization framework is needed.
    pub serde: bool,
    pub parts: Parts,
}

/// The fields that are not marked to be skipped, in declared order.
pub open spec fn included(fields: Seq<Field>) -> Seq<Field>
    decreases fields.len(),
{
    if fields.len() == 0 {
        Seq::empty()
    } else if fields.last().attrs.skip {
        included(fields.drop_last())
    } else {
        included(fields.drop_last()).push(fields.last())
    }
}

/// The positions in the record of the fields that are not marked to be
/// skipped.
pub open spec fn included_positions(fields: Seq<Field>) -> Seq<int>
    decreases fields.len(),
{
    if fields.len() == 0 {
        Seq::empty()
    } else if fields.last().attrs.skip {
        included_positions(fields.drop_last())
    } else {
        included_positions(fields.drop_last()).push(fields.len() - 1)
    }
}

/// Whether every field that is not marked to be skipped has a name.
pub open spec fn all_named(fields: Seq<Field>) -> bool {
    forall|i: int|
        0 <= i < fields.len() && !(#[trigger] fields[i]).attrs.skip ==> fields[i].member is Named
}

/// Whether `slot` is the place of the field `f`, which stands at `index`.
pub open spec fn slot_planned(f: Field, index: int, slot: Slot, serde: bool) -> bool {
    &&& f.member is Named
    &&& slot.index == index
    &&& slot.name == f.member->Named_0
    &&& slot.id@ == member_id_spec(f.member)
    &&& slot.ty == f.ty
    &&& slot.serde == (f.attrs.serde || serde)
}

/// Whether `slots` are the places of the fields that are not skipped, one
/// place per field and in declared order.
pub open spec fn slots_planned(fields: Seq<Field>, slots: Seq<Slot>, serde: bool) -> bool {
    &&& slots.len() == included(fields).len()
    &&& forall|i: int|
        0 <= i < slots.len() ==> slot_planned(
            included(fields)[i],
            included_positions(fields)[i],
            #[trigger] slots[i],
            serde,
        )
}

/// Whether `variants` are the names of the fields that are not skipped, one
/// per field and in declared order.
pub open spec fn names_planned(fields: Seq<Field>, variants: Seq<FieldVariant>) -> bool {
    &&& variants.len() == included(fields).len()
    &&& forall|i: int|
        0 <= i < variants.len() ==> name_planned(included(fields)[i], #[trigger] variants[i])
}

/// Whether `variant` is the name of the field `f`: it turns into the name
/// of the field as declared, and is itself called by the `PascalCase` form of
/// that name.
pub open spec fn name_planned(f: Field, variant: FieldVariant) -> bool {
    &&& f.member is Named
    &&& variant.name == f.member->Named_0
    &&& variant.ident@ == pascal_case(variant.name@)
}

/// The fields that are not skipped are as many as their positions, and each
/// stands at its position.
pub proof fn lemma_included_positions(fields: Seq<Field>)
    ensures
        included(fields).len() == included_positions(fields).len(),
        forall|i: int|
            0 <= i < included(fields).len() ==> {
                &&& 0 <= (#[trigger] included_positions(fields)[i]) < fields.len()
                &&& included(fields)[i] == fields[included_positions(fields)[i]]
                &&& !fields[included_positions(fields)[i]].attrs.skip
            },
    decreases fields.len(),
{
    if fields.len() > 0 {
        lemma_included_positions(fields.drop_last());
        let inc = included(fields);
        let pos = included_positions(fields);
        assert forall|i: int| 0 <= i < inc.len() implies {
            &&& 0 <= (#[trigger] pos[i]) < fields.len()
            &&& inc[i] == fields[pos[i]]
            &&& !fields[pos[i]].attrs.skip
        } by {
            if i < included(fields.drop_last()).len() {
                assert(pos[i] == included_positions(fields.drop_last())[i]);
                assert(fields.drop_last()[pos[i]] == fields[pos[i]]);
            }
        }
    }
}

/// The places of the fields that are not skipped.
fn plan_slots(fields: &Vec<Field>, serde: bool) -> (slots: Vec<Slot>)
    requires
        all_named(fields@),
    ensures
        slots_planned(fields@, slots@, serde),
{
    let mut slots: Vec<Slot> = Vec::new();
    let mut i: usize = 0;
    assert(fields@.take(0) =~= Seq::empty());
    while i < fields.len()
        invariant
            i <= fields.len(),
            all_named(fields@),
            slots_planned(fields@.take(i as int), slots@, serde),
        decreases fields.len() - i,
    {
        let f = &fields[i];
        proof {
            assert(fields@.take(i as int + 1).drop_last() =~= fields@.take(i as int));
            assert(fields@.take(i as int + 1).last() == fields@[i as int]);
        }
        let ghost before = slots@;
        if !f.attrs.skip {
            match &f.member {
                Member::Named(name) => {
                    slots.push(
                        Slot {
                            index: i,
                            name: name.clone(),
                            id: member_to_id(&f.member),
                            ty: copy_type(&f.ty),
                            serde: f.attrs.serde || serde,
                        },
                    );
                },
                Member::Unnamed(_) => {
                    assert(false);
                },
            }
        }
        proof {
            let prev = fields@.take(i as int);
            let next = fields@.take(i as int + 1);
            assert(included(next) == if f.attrs.skip {
                included(prev)
            } else {
                included(prev).push(*f)
            });
            assert(included_positions(next) == if f.attrs.skip {
                included_positions(prev)
            } else {
                included_positions(prev).push(i as int)
            });
            lemma_included_positions(prev);
            lemma_included_positions(next);
            assert forall|j: int| 0 <= j < slots@.len() implies slot_planned(
                included(next)[j],
                included_positions(next)[j],
                #[trigger] slots@[j],
                serde,
            ) by {
                if j < before.len() {
                    assert(slot_planned(
                        included(prev)[j],
                        included_positions(prev)[j],
                        before[j],
                        serde,
                    ));
                }
            }
        }
        i += 1;
    }
    assert(fields@.take(fields@.len() as int) =~= fields@);
    slots
}

/// The names of the fields that are not skipped.
fn plan_names(fields: &Vec<Field>) -> (variants: Vec<FieldVariant>)
    requires
        all_named(fields@),
    ensures
        names_planned(fields@, variants@),
{
    let mut variants: Vec<FieldVariant> = Vec::new();
    let mut i: usize = 0;
    assert(fields@.take(0) =~= Seq::empty());
    while i < fields.len()
        invariant
            i <= fields.len(),
            all_named(fields@),
            names_planned(fields@.take(i as int), variants@),
        decreases fields.len() - i,
    {
        let f = &fields[i];
        proof {
            assert(fields@.take(i as int + 1).drop_last() =~= fields@.take(i as int));
            assert(fields@.take(i as int + 1).last() == fields@[i as int]);
        }
        let ghost before = variants@;
        if !f.attrs.skip {
            match &f.member {
                Member::Named(name) => {
                    variants.push(
                        FieldVariant { ident: to_pascal_case(name.as_str()), name: name.clone() },
                    );
                },
                Member::Unnamed(_) => {
                    assert(false);
                },
            }
        }
        proof {
            let prev = fields@.take(i as int);
            let next = fields@.take(i as int + 1);
            assert(included(next) == if f.attrs.skip {
                included(prev)
            } else {
                included(prev).push(*f)
            });
            assert forall|j: int| 0 <= j < variants@.len() implies name_planned(
                included(next)[j],
                #[trigger] variants@[j],
            ) by {
                if j < before.len() {
                    assert(name_planned(included(prev)[j], before[j]));
                }
            }
        }
        i += 1;
    }
    assert(fields@.take(fields@.len() as int) =~= fields@);
    variants
}

/// Whether the options ask for a companion that is made of the fields.
pub open spec fn asks_for_fields(attrs: attr::Container) -> bool {
    attrs.field || attrs.filter || attrs.update
}

/// Whether `parts` are the companions of a struct with the given fields and
/// options.
pub open spec fn parts_planned(fields: Seq<Field>, attrs: attr::Container, parts: Parts) -> bool {
    &&& match attrs.collection {
        Some(name) => parts.collection == Some(CollectionPlan { name, bson: attrs.bson }),
        None => parts.collection is None,
    }
    &&& if attrs.field {
        parts.field is Some && names_planned(fields, parts.field->Some_0@)
    } else {
        parts.field is None
    }
    &&& if attrs.filter {
        &&& parts.filter is Some
        &&& parts.filter->Some_0.oid == attrs.oid
        &&& slots_planned(fields, parts.filter->Some_0.slots@, attrs.bson == BsonMode::Serde)
    } else {
        parts.filter is None
    }
    &&& if attrs.update {
        &&& parts.update is Some
        &&& parts.update->Some_0.bson == attrs.bson
        &&& slots_planned(fields, parts.update->Some_0.slots@, false)
    } else {
        parts.update is None
    }
}

/// Derives the companions of a struct, each only where the options ask for
/// it: the collection, with the declared name; the field names, one per field;
/// the filter and the update, with one place per field. Fields that are
/// marked to be skipped are left out everywhere.
pub fn impl_struct(name: &String, _style: &Style, fields: &Vec<Field>, attrs: &attr::Container)
    -> (parts: Parts)
    requires
        asks_for_fields(*attrs) ==> all_named(fields@),
    ensures
        parts_planned(fields@, *attrs, parts),
{
    let serde = match attrs.bson {
        BsonMode::Serde => true,
        BsonMode::Convert => false,
    };
    let collection = match &attrs.collection {
        Some(col) => Some(CollectionPlan { name: col.clone(), bson: attrs.bson }),
        None => None,
    };
    let field = if attrs.field {
        Some(plan_names(fields))
    } else {
        None
    };
    let filter = if attrs.filter {
        Some(FilterPlan { oid: attrs.oid, slots: plan_slots(fields, serde) })
    } else {
        None
    };
    let update = if attrs.update {
        Some(UpdatePlan { bson: attrs.bson, slots: plan_slots(fields, false) })
    } else {
        None
    };
    Parts { collection, field, filter, update }
}

/// The message for a declaration that is no struct.
pub open spec fn structs_only() -> Seq<char> {
    "#[derive(Mongo)] can only be derived on structs"@
}

/// Whether `m` holds what is derived for the schema `c` of a struct.
pub open spec fn mongo_from(c: Container, m: Mongo) -> bool {
    &&& c.data is Struct
    &&& m.name == c.ident
    &&& m.namespace@ == snake_case(c.ident@)
    &&& m.serde == (c.attrs.bson == BsonMode::Serde)
    &&& parts_planned(c.data->Struct_1@, c.attrs, m.parts)
}

/// Whether the companions can be derived for the declaration: where any
/// companion made of the fields is asked for, the fields of a struct that are
/// not skipped have to be named.
pub open spec fn mongo_derivable(input: DeriveInput) -> bool {
    forall|c: Container|
        #![trigger data_read(input.data, c.data)]
        c.attrs == attr::container_options(input.attrs@) && data_read(input.data, c.data)
            && c.data is Struct && asks_for_fields(c.attrs) ==> all_named(c.data->Struct_1@)
}

/// What is derived for the schema of a struct.
fn derive_from(container: Container) -> (m: Mongo)
    requires
        container.data is Struct,
        asks_for_fields(container.attrs) ==> all_named(container.data->Struct_1@),
    ensures
        mongo_from(container, m),
{
    let parts = match &container.data {
        Data::Struct(style, fields) => impl_struct(
            &container.ident,
            style,
            fields,
            &container.attrs,
        ),
        Data::Enum(_) => Parts { collection: None, field: None, filter: None, update: None },
    };
    let namespace = to_snake_case(container.ident.as_str());
    let serde = match container.attrs.bson {
        BsonMode::Serde => true,
        BsonMode::Convert => false,
    };
    Mongo { name: container.ident.clone(), namespace, serde, parts }
}

/// The problem of a declaration that is no struct.
fn not_a_struct() -> (errors: Vec<CompileError>)
    ensures
        messages(errors@) == seq![structs_only()],
{
    let mut errors: Vec<CompileError> = Vec::new();
    errors.push(
        CompileError {
            message: String::from_str("#[derive(Mongo)] can only be derived on structs"),
        },
    );
    assert(messages(errors@) =~= seq![structs_only()]);
    errors
}

/// Derives the companions of a declared type.
///
/// The schema is read from the declaration; a declaration with problems is
/// refused with all of them, and so is a declaration that is no struct.
pub fn expand_derive_mongo(input: &DeriveInput) -> (r: Result<Mongo, Vec<CompileError>>)
    requires
        mongo_derivable(*input),
    ensures
        match r {
            Ok(m) => container_errors(*input).len() == 0 && exists|c: Container|
                {
                    &&& c.ident == input.ident
                    &&& c.attrs == attr::container_options(input.attrs@)
                    &&& data_read(input.data, c.data)
                    &&& #[trigger] mongo_from(c, m)
                },
            Err(errors) => errors@.len() > 0 && if container_errors(*input).len() > 0 {
                messages(errors@) == container_errors(*input)
            } else {
                input.data is Enum && messages(errors@) == seq![structs_only()]
            },
        },
{
    let container = match Container::from(input) {
        Ok(container) => container,
        Err(errors) => {
            return Err(errors);
        },
    };
    match &container.data {
        Data::Struct(_, _) => {},
        _ => {
            let errors = not_a_struct();
            assert(errors@.len() == messages(errors@).len());
            return Err(errors);
        },
    }
    let ghost c = container;
    let m = derive_from(container);
    assert(mongo_from(c, m));
    Ok(m)
}

/// The message for a struct whose fields are not all named.
pub open spec fn named_only() -> Seq<char> {
    "#[derive(Mongo)] can only be derived on named structs"@
}

/// Checks that every field that is not marked to be skipped has a name.
fn check_named(fields: &Vec<Field>) -> (b: bool)
    ensures
        b == all_named(fields@),
{
    let mut i: usize = 0;
    while i < fields.len()
        invariant
            i <= fields.len(),
            forall|j: int|
                0 <= j < i && !(#[trigger] fields@[j]).attrs.skip ==> fields@[j].member is Named,
        decreases fields.len() - i,
    {
        if !fields[i].attrs.skip {
            match &fields[i].member {
                Member::Named(_) => {},
                Member::Unnamed(_) => {
                    return false;
                },
            }
        }
        i += 1;
    }
    true
}

/// Derives the companions of a declared type, whatever the declaration.
///
/// A declaration with problems is refused with all of them. A declaration
/// that is no struct is refused, and so is a struct with a field that has no
/// name and is not skipped, where a companion made of the fields is asked
/// for.
pub fn derive_collection(input: &DeriveInput) -> (r: Result<Mongo, Vec<CompileError>>)
    ensures
        match r {
            Ok(m) => container_errors(*input).len() == 0 && exists|c: Container|
                {
                    &&& c.ident == input.ident
                    &&& c.attrs == attr::container_options(input.attrs@)
                    &&& data_read(input.data, c.data)
                    &&& #[trigger] mongo_from(c, m)
                },
            Err(errors) => errors@.len() > 0 && if container_errors(*input).len() > 0 {
                messages(errors@) == container_errors(*input)
            } else if input.data is Enum {
                messages(errors@) == seq![structs_only()]
            } else {
                messages(errors@) == seq![named_only()]
            },
        },
{
    let container = match Container::from(input) {
        Ok(container) => container,
        Err(errors) => {
            return Err(errors);
        },
    };
    match &container.data {
        Data::Struct(_, fields) => {
            let asks = container.attrs.field || container.attrs.filter || container.attrs.update;
            if asks && !check_named(fields) {
                let mut errors: Vec<CompileError> = Vec::new();
                errors.push(
                    CompileError {
                        message: String::from_str(
                            "#[derive(Mongo)] can only be derived on named structs",
                        ),
                    },
                );
                assert(messages(errors@) =~= seq![named_only()]);
                return Err(errors);
            }
        },
        _ => {
            let errors = not_a_struct();
            assert(errors@.len() == messages(errors@).len());
            return Err(errors);
        },
    }
    let ghost c = container;
    let m = derive_from(container);
    assert(mongo_from(c, m));
    Ok(m)
}

/// The filter of a record type: an optional comparator for the object
/// identifier, and one for each field under the key of the field.
///
/// A filter is made by the plan of its record type, which gives it its
/// places; afterwards only what the places hold can be changed.
#[derive(Debug, PartialEq)]
pub struct Filter {
    oid: bool,
    _id: Option<Comparator<bson::Bson>>,
    fields: Vec<(String, Option<Comparator<bson::Bson>>)>,
}

/// The update of a record type: one optional wire value for each field under
/// the key of the field.
///
/// An update is made by the plan of its record type, which gives it its
/// places; afterwards only what the places hold can be changed.
#[derive(Debug, PartialEq)]
pub struct Update {
    fields: Vec<(String, Option<bson::Bson>)>,
}

/// The keys of a list of places.
pub open spec fn keys_of<T>(places: Seq<(String, T)>) -> Seq<Seq<char>> {
    Seq::new(places.len(), |i: int| places[i].0@)
}

impl Filter {
    /// The places of the filter: the key of each field with its comparator.
    pub closed spec fn places(self) -> Seq<(String, Option<Comparator<bson::Bson>>)> {
        self.fields@
    }

    /// The comparator for the object identifier.
    pub closed spec fn id_spec(self) -> Option<Comparator<bson::Bson>> {
        self._id
    }

    /// Whether the filter has a place for the object identifier.
    pub closed spec fn oid_spec(self) -> bool {
        self.oid
    }

    /// The number of places.
    pub fn len(&self) -> (n: usize)
        ensures
            n == self.places().len(),
    {
        self.fields.len()
    }

    /// The key of a place.
    pub fn key(&self, place: usize) -> (k: &String)
        requires
            place < self.places().len(),
        ensures
            *k == self.places()[place as int].0,
    {
        &self.fields[place].0
    }

    /// What a place holds.
    pub fn get(&self, place: usize) -> (c: &Option<Comparator<bson::Bson>>)
        requires
            place < self.places().len(),
        ensures
            *c == self.places()[place as int].1,
    {
        &self.fields[place].1
    }

    /// Puts a comparator into a place, or empties the place. A place that the
    /// filter has not changes nothing. No place is added and no key changes.
    pub fn set(&mut self, place: usize, comparator: Option<Comparator<bson::Bson>>) -> (done: bool)
        ensures
            done == (place < old(self).places().len()),
            final(self).id_spec() == old(self).id_spec(),
            final(self).oid_spec() == old(self).oid_spec(),
            keys_of(final(self).places()) == keys_of(old(self).places()),
            done ==> final(self).places() == old(self).places().update(
                place as int,
                (old(self).places()[place as int].0, comparator),
            ),
            !done ==> final(self).places() == old(self).places(),
    {
        if place >= self.fields.len() {
            return false;
        }
        let mut entry: (String, Option<Comparator<bson::Bson>>) = (String::new(), None);
        std::mem::swap(&mut self.fields[place], &mut entry);
        let mut fresh = (entry.0, comparator);
        std::mem::swap(&mut self.fields[place], &mut fresh);
        assert(keys_of(self.places()) =~= keys_of(old(self).places()));
        assert(self.places() =~= old(self).places().update(
            place as int,
            (old(self).places()[place as int].0, comparator),
        ));
        true
    }

    /// Puts a comparator for the object identifier into the filter, or takes
    /// it out. A filter without a place for the object identifier does not
    /// change.
    pub fn set_id(&mut self, comparator: Option<Comparator<bson::Bson>>) -> (done: bool)
        ensures
            done == old(self).oid_spec(),
            final(self).oid_spec() == old(self).oid_spec(),
            final(self).places() == old(self).places(),
            final(self).id_spec() == if done {
                comparator
            } else {
                old(self).id_spec()
            },
    {
        if !self.oid {
            return false;
        }
        self._id = comparator;
        true
    }
}

impl Update {
    /// The places of the update: the key of each field with its value.
    pub closed spec fn places(self) -> Seq<(String, Option<bson::Bson>)> {
        self.fields@
    }

    /// The number of places.
    pub fn len(&self) -> (n: usize)
        ensures
            n == self.places().len(),
    {
        self.fields.len()
    }

    /// The key of a place.
    pub fn key(&self, place: usize) -> (k: &String)
        requires
            place < self.places().len(),
        ensures
            *k == self.places()[place as int].0,
    {
        &self.fields[place].0
    }

    /// What a place holds.
    pub fn get(&self, place: usize) -> (v: &Option<bson::Bson>)
        requires
            place < self.places().len(),
        ensures
            *v == self.places()[place as int].1,
    {
        &self.fields[place].1
    }

    /// Puts a value into a place, or empties the place. A place that the
    /// update has not changes nothing. No place is added and no key changes.
    pub fn set(&mut self, place: usize, value: Option<bson::Bson>) -> (done: bool)
        ensures
            done == (place < old(self).places().len()),
            keys_of(final(self).places()) == keys_of(old(self).places()),
            done ==> final(self).places() == old(self).places().update(
                place as int,
                (old(self).places()[place as int].0, value),
            ),
            !done ==> final(self).places() == old(self).places(),
    {
        if place >= self.fields.len() {
            return false;
        }
        let mut entry: (String, Option<bson::Bson>) = (String::new(), None);
        std::mem::swap(&mut self.fields[place], &mut entry);
        let mut fresh = (entry.0, value);
        std::mem::swap(&mut self.fields[place], &mut fresh);
        assert(keys_of(self.places()) =~= keys_of(old(self).places()));
        assert(self.places() =~= old(self).places().update(
            place as int,
            (old(self).places()[place as int].0, value),
        ));
        true
    }
}

/// The document `d` with each value that is present, under its key and in
/// order.
pub open spec fn with_present(entries: Seq<(Seq<char>, Option<BsonView>)>, d: DocumentView)
    -> DocumentView
    decreases entries.len(),
{
    if entries.len() == 0 {
        d
    } else {
        let rest = with_present(entries.drop_last(), d);
        match entries.last().1 {
            Some(v) => inserted(rest, entries.last().0, v),
            None => rest,
        }
    }
}

/// What one place of a filter holds: its key, and what its comparator is
/// written as where it has one.
pub open spec fn filter_entry(e: (String, Option<Comparator<bson::Bson>>)) -> (
    Seq<char>,
    Option<BsonView>,
) {
    (
        e.0@,
        match e.1 {
            Some(c) => Some(wire_comparator_spec(c)),
            None => None,
        },
    )
}

/// What the places of a filter hold, place by place.
pub open spec fn filter_entries(fields: Seq<(String, Option<Comparator<bson::Bson>>)>) -> Seq<
    (Seq<char>, Option<BsonView>),
> {
    Seq::new(fields.len(), |i: int| filter_entry(fields[i]))
}

/// What one place of an update holds: its key, and its value where it has
/// one.
pub open spec fn update_entry(e: (String, Option<bson::Bson>)) -> (Seq<char>, Option<BsonView>) {
    (
        e.0@,
        match e.1 {
            Some(v) => Some(v@),
            None => None,
        },
    )
}

/// What the places of an update hold, place by place.
pub open spec fn update_entries(fields: Seq<(String, Option<bson::Bson>)>) -> Seq<
    (Seq<char>, Option<BsonView>),
> {
    Seq::new(fields.len(), |i: int| update_entry(fields[i]))
}

/// The document that starts a filter: the comparator of the object
/// identifier under `_id`, where there is one.
pub open spec fn filter_start(id: Option<Comparator<bson::Bson>>) -> DocumentView {
    match id {
        Some(c) => seq![(ID_KEY@, wire_comparator_spec(c))],
        None => Seq::empty(),
    }
}

/// What a filter is written as: the comparator of the object identifier
/// first, then the comparator of each field, each only where it is present
/// and under the key of its field.
pub open spec fn filter_spec(f: Filter) -> DocumentView {
    with_present(filter_entries(f.places()), filter_start(f.id_spec()))
}

/// What an update is written as: the value of each field, each only where
/// it is present and under the key of its field.
pub open spec fn update_spec(u: Update) -> DocumentView {
    with_present(update_entries(u.places()), Seq::empty())
}

/// The keys of the places of a plan.
pub open spec fn slot_keys(slots: Seq<Slot>) -> Seq<Seq<char>> {
    Seq::new(slots.len(), |i: int| slots[i].id@)
}

/// Whether a filter has the shape of the plan: a place for the object
/// identifier exactly where the plan has one, and the keys of the plan.
pub open spec fn filter_shaped(plan: FilterPlan, f: Filter) -> bool {
    &&& f.oid_spec() == plan.oid
    &&& f.id_spec() is Some ==> plan.oid
    &&& keys_of(f.places()) == slot_keys(plan.slots@)
}

/// Whether an update has the shape of the plan: the keys of the plan.
pub open spec fn update_shaped(plan: UpdatePlan, u: Update) -> bool {
    keys_of(u.places()) == slot_keys(plan.slots@)
}

/// A key of a document that was filled with present values was in the
/// document before, or is the key of one of the values.
pub proof fn lemma_with_present_keys(
    entries: Seq<(Seq<char>, Option<BsonView>)>,
    d: DocumentView,
    key: Seq<char>,
)
    requires
        contains_key(with_present(entries, d), key),
    ensures
        contains_key(d, key) || exists|i: int|
            0 <= i < entries.len() && (#[trigger] entries[i]).0 == key && entries[i].1 is Some,
    decreases entries.len(),
{
    if entries.len() > 0 {
        let rest = with_present(entries.drop_last(), d);
        let last = entries.last();
        if last.1 is Some && last.0 == key {
            assert(entries[entries.len() - 1].0 == key);
        } else {
            if last.1 is Some {
                lemma_lookup_inserted(rest, last.0, last.1->Some_0, key);
            }
            lemma_with_present_keys(entries.drop_last(), d, key);
            if !contains_key(d, key) {
                let i = choose|i: int|
                    0 <= i < entries.drop_last().len() && (#[trigger] entries.drop_last()[i]).0
                        == key && entries.drop_last()[i].1 is Some;
                assert(entries[i] == entries.drop_last()[i]);
            }
        }
    }
}

/// The key of every place of a plan is the key of a field that is not marked
/// to be skipped.
pub proof fn lemma_slot_keys(fields: Seq<Field>, slots: Seq<Slot>, serde: bool, i: int)
    requires
        slots_planned(fields, slots, serde),
        0 <= i < slots.len(),
    ensures
        exists|j: int|
            0 <= j < fields.len() && !(#[trigger] fields[j]).attrs.skip && slots[i].id@
                == member_id_spec(fields[j].member),
{
    lemma_included_positions(fields);
    let j = included_positions(fields)[i];
    assert(slot_planned(included(fields)[i], j, slots[i], serde));
    assert(!fields[j].attrs.skip && slots[i].id@ == member_id_spec(fields[j].member));
}

/// A filter never holds a field that is marked to be skipped: every key of
/// the document of a filter is `_id`, where the plan has a place for the
/// object identifier, or the key of a field that is not marked to be skipped.
pub proof fn lemma_filter_excludes(
    fields: Seq<Field>,
    plan: FilterPlan,
    serde: bool,
    f: Filter,
    key: Seq<char>,
)
    requires
        slots_planned(fields, plan.slots@, serde),
        filter_shaped(plan, f),
        contains_key(filter_spec(f), key),
    ensures
        (plan.oid && key == ID_KEY@) || exists|j: int|
            0 <= j < fields.len() && !(#[trigger] fields[j]).attrs.skip && key == member_id_spec(
                fields[j].member,
            ),
{
    let entries = filter_entries(f.places());
    let start = filter_start(f.id_spec());
    lemma_with_present_keys(entries, start, key);
    if contains_key(start, key) {
        let p = crate::bson::position(start, key);
        assert(start[p].0 == key);
    } else {
        let i = choose|i: int|
            0 <= i < entries.len() && (#[trigger] entries[i]).0 == key && entries[i].1 is Some;
        assert(keys_of(f.places()).len() == f.places().len());
        assert(slot_keys(plan.slots@).len() == plan.slots@.len());
        assert(keys_of(f.places())[i] == f.places()[i].0@);
        assert(slot_keys(plan.slots@)[i] == plan.slots@[i].id@);
        lemma_slot_keys(fields, plan.slots@, serde, i);
    }
}

/// An update never holds a field that is marked to be skipped: every key of
/// the document of an update is the key of a field that is not marked to be
/// skipped.
pub proof fn lemma_update_excludes(
    fields: Seq<Field>,
    plan: UpdatePlan,
    serde: bool,
    u: Update,
    key: Seq<char>,
)
    requires
        slots_planned(fields, plan.slots@, serde),
        update_shaped(plan, u),
        contains_key(update_spec(u), key),
    ensures
        exists|j: int|
            0 <= j < fields.len() && !(#[trigger] fields[j]).attrs.skip && key == member_id_spec(
                fields[j].member,
            ),
{
    let entries = update_entries(u.places());
    let empty = Seq::<(Seq<char>, BsonView)>::empty();
    lemma_with_present_keys(entries, empty, key);
    assert(!contains_key(empty, key));
    let i = choose|i: int|
        0 <= i < entries.len() && (#[trigger] entries[i]).0 == key && entries[i].1 is Some;
    assert(keys_of(u.places()).len() == u.places().len());
    assert(slot_keys(plan.slots@).len() == plan.slots@.len());
    assert(keys_of(u.places())[i] == u.places()[i].0@);
    assert(slot_keys(plan.slots@)[i] == plan.slots@[i].id@);
    lemma_slot_keys(fields, plan.slots@, serde, i);
}

/// The message for a record that has not the shape of the type.
pub open spec fn misfit() -> Seq<char> {
    "the record does not fit the type"@
}

/// Whether a record has a value for every place of a plan.
pub open spec fn covers(slots: Seq<Slot>, values: int) -> bool {
    forall|i: int| 0 <= i < slots.len() ==> (#[trigger] slots[i]).index < values
}

/// Checks that a record has a value for every place of a plan.
fn check_covers(slots: &Vec<Slot>, values: usize) -> (b: bool)
    ensures
        b == covers(slots@, values as int),
{
    let mut i: usize = 0;
    while i < slots.len()
        invariant
            i <= slots.len(),
            forall|j: int| 0 <= j < i ==> (#[trigger] slots@[j]).index < values,
        decreases slots.len() - i,
    {
        if slots[i].index >= values {
            return false;
        }
        i += 1;
    }
    true
}

impl FilterPlan {
    /// The filter that compares nothing: every place is empty.
    pub fn filter(&self) -> (f: Filter)
        ensures
            filter_shaped(*self, f),
            f.id_spec() is None,
            forall|i: int| 0 <= i < f.places().len() ==> (#[trigger] f.places()[i]).1 is None,
    {
        let mut fields: Vec<(String, Option<Comparator<bson::Bson>>)> = Vec::new();
        let mut i: usize = 0;
        while i < self.slots.len()
            invariant
                i <= self.slots.len(),
                fields@.len() == i,
                forall|j: int|
                    0 <= j < i ==> (#[trigger] fields@[j]).0@ == self.slots@[j].id@ && fields@[j].1
                        is None,
            decreases self.slots.len() - i,
        {
            fields.push((self.slots[i].id.clone(), None));
            i += 1;
        }
        proof {
            assert(keys_of(fields@) =~= slot_keys(self.slots@));
        }
        Filter { oid: self.oid, _id: None, fields }
    }

    /// The filter that matches the documents equal to a record in every
    /// field that has a place: each place compares for equality with the
    /// value of its field. A record that lacks the value of a place is
    /// refused.
    pub fn into_filter(&self, record: &Record) -> (r: Result<Filter, Error>)
        ensures
            match r {
                Ok(f) => {
                    &&& covers(self.slots@, record.values@.len() as int)
                    &&& filter_shaped(*self, f)
                    &&& f.id_spec() is None
                    &&& forall|i: int|
                        0 <= i < f.places().len() ==> {
                            &&& (#[trigger] f.places()[i]).1 is Some
                            &&& f.places()[i].1->Some_0 is Eq
                            &&& f.places()[i].1->Some_0->Eq_0@
                                == record.values@[self.slots@[i].index as int]@
                        }
                },
                Err(e) => !covers(self.slots@, record.values@.len() as int) && e@
                    == crate::error::invalid(misfit()),
            },
    {
        if !check_covers(&self.slots, record.values.len()) {
            return Err(Error::invalid_document("the record does not fit the type"));
        }
        let mut fields: Vec<(String, Option<Comparator<bson::Bson>>)> = Vec::new();
        let mut i: usize = 0;
        while i < self.slots.len()
            invariant
                i <= self.slots.len(),
                covers(self.slots@, record.values@.len() as int),
                fields@.len() == i,
                forall|j: int|
                    0 <= j < i ==> {
                        &&& (#[trigger] fields@[j]).0@ == self.slots@[j].id@
                        &&& fields@[j].1 is Some
                        &&& fields@[j].1->Some_0 is Eq
                        &&& fields@[j].1->Some_0->Eq_0@
                            == record.values@[self.slots@[j].index as int]@
                    },
            decreases self.slots.len() - i,
        {
            let slot = &self.slots[i];
            let value = record.values[slot.index].clone();
            fields.push((slot.id.clone(), Some(Comparator::Eq(value))));
            i += 1;
        }
        proof {
            assert(keys_of(fields@) =~= slot_keys(self.slots@));
        }
        Ok(Filter { oid: self.oid, _id: None, fields })
    }
}

impl UpdatePlan {
    /// The update that changes nothing: every place is empty.
    pub fn update(&self) -> (u: Update)
        ensures
            update_shaped(*self, u),
            forall|i: int| 0 <= i < u.places().len() ==> (#[trigger] u.places()[i]).1 is None,
    {
        let mut fields: Vec<(String, Option<bson::Bson>)> = Vec::new();
        let mut i: usize = 0;
        while i < self.slots.len()
            invariant
                i <= self.slots.len(),
                fields@.len() == i,
                forall|j: int|
                    0 <= j < i ==> (#[trigger] fields@[j]).0@ == self.slots@[j].id@ && fields@[j].1
                        is None,
            decreases self.slots.len() - i,
        {
            fields.push((self.slots[i].id.clone(), None));
            i += 1;
        }
        proof {
            assert(keys_of(fields@) =~= slot_keys(self.slots@));
        }
        Update { fields }
    }

    /// The update that sets every field that has a place to its value in a
    /// record. A record that lacks the value of a place is refused.
    pub fn into_update(&self, record: &Record) -> (r: Result<Update, Error>)
        ensures
            match r {
                Ok(u) => {
                    &&& covers(self.slots@, record.values@.len() as int)
                    &&& update_shaped(*self, u)
                    &&& forall|i: int|
                        0 <= i < u.places().len() ==> {
                            &&& (#[trigger] u.places()[i]).1 is Some
                            &&& u.places()[i].1->Some_0@
                                == record.values@[self.slots@[i].index as int]@
                        }
                },
                Err(e) => !covers(self.slots@, record.values@.len() as int) && e@
                    == crate::error::invalid(misfit()),
            },
    {
        if !check_covers(&self.slots, record.values.len()) {
            return Err(Error::invalid_document("the record does not fit the type"));
        }
        let mut fields: Vec<(String, Option<bson::Bson>)> = Vec::new();
        let mut i: usize = 0;
        while i < self.slots.len()
            invariant
                i <= self.slots.len(),
                covers(self.slots@, record.values@.len() as int),
                fields@.len() == i,
                forall|j: int|
                    0 <= j < i ==> {
                        &&& (#[trigger] fields@[j]).0@ == self.slots@[j].id@
                        &&& fields@[j].1 is Some
                        &&& fields@[j].1->Some_0@ == record.values@[self.slots@[j].index as int]@
                    },
            decreases self.slots.len() - i,
        {
            let slot = &self.slots[i];
            let value = record.values[slot.index].clone();
            fields.push((slot.id.clone(), Some(value)));
            i += 1;
        }
        proof {
            assert(keys_of(fields@) =~= slot_keys(self.slots@));
        }
        Ok(Update { fields })
    }
}

impl crate::filter::Filter for Filter {
    /// The filter without any place.
    fn new() -> (f: Filter)
        ensures
            f.id_spec() is None,
            f.places().len() == 0,
    {
        Filter { oid: false, _id: None, fields: Vec::new() }
    }

    /// Writes the filter as a document: the comparator of the object
    /// identifier first, then the comparator of each field, each only where
    /// it is present and under the key of its field.
    fn into_document(self) -> (r: Result<bson::Document, Error>)
        ensures
            r is Ok,
            r->Ok_0@ == filter_spec(self),
    {
        let Filter { oid: _, _id, fields } = self;
        let mut fields = fields;
        let ghost all = filter_entries(fields@);
        let mut doc = bson::Document::new();
        match _id {
            Some(c) => {
                let _ = doc.insert(String::from_str(ID_KEY), wire_comparator(c));
                proof {
                    let empty = Seq::<(Seq<char>, BsonView)>::empty();
                    assert(!contains_key(empty, ID_KEY@));
                    assert(doc@ =~= filter_start(Some(c)));
                }
            },
            None => {},
        }
        let mut i: usize = 0;
        assert(all.take(0) =~= Seq::empty());
        while i < fields.len()
            invariant
                i <= fields.len(),
                all.len() == fields@.len(),
                forall|j: int| i <= j < fields@.len() ==> filter_entry(#[trigger] fields@[j]) == all[j],
                doc@ == with_present(all.take(i as int), filter_start(_id)),
            decreases fields.len() - i,
        {
            proof {
                assert(all.take(i as int + 1).drop_last() =~= all.take(i as int));
                assert(all.take(i as int + 1).last() == all[i as int]);
                assert(filter_entry(fields@[i as int]) == all[i as int]);
            }
            let ghost previous = fields@;
            let mut entry: (String, Option<Comparator<bson::Bson>>) = (String::new(), None);
            std::mem::swap(&mut fields[i], &mut entry);
            assert forall|j: int| i + 1 <= j < fields@.len() implies filter_entry(
                #[trigger] fields@[j],
            ) == all[j] by {
                assert(fields@[j] == previous[j]);
            }
            match entry.1 {
                Some(c) => {
                    let _ = doc.insert(entry.0, wire_comparator(c));
                },
                None => {},
            }
            i += 1;
        }
        assert(all.take(all.len() as int) =~= all);
        Ok(doc)
    }
}

impl crate::update::Update for Update {
    /// The update without any place.
    fn new() -> (u: Update)
        ensures
            u.places().len() == 0,
    {
        Update { fields: Vec::new() }
    }

    /// Writes the update as a document: the value of each field, each only
    /// where it is present and under the key of its field.
    fn into_document(self) -> (r: Result<bson::Document, Error>)
        ensures
            r is Ok,
            r->Ok_0@ == update_spec(self),
    {
        let mut fields = self.fields;
        let ghost all = update_entries(fields@);
        let mut doc = bson::Document::new();
        let mut i: usize = 0;
        assert(all.take(0) =~= Seq::empty());
        while i < fields.len()
            invariant
                i <= fields.len(),
                all.len() == fields@.len(),
                forall|j: int| i <= j < fields@.len() ==> update_entry(#[trigger] fields@[j]) == all[j],
                doc@ == with_present(all.take(i as int), Seq::empty()),
            decreases fields.len() - i,
        {
            proof {
                assert(all.take(i as int + 1).drop_last() =~= all.take(i as int));
                assert(all.take(i as int + 1).last() == all[i as int]);
                assert(update_entry(fields@[i as int]) == all[i as int]);
            }
            let ghost previous = fields@;
            let mut entry: (String, Option<bson::Bson>) = (String::new(), None);
            std::mem::swap(&mut fields[i], &mut entry);
            assert forall|j: int| i + 1 <= j < fields@.len() implies update_entry(
                #[trigger] fields@[j],
            ) == all[j] by {
                assert(fields@[j] == previous[j]);
            }
            match entry.1 {
                Some(v) => {
                    let _ = doc.insert(entry.0, v);
                },
                None => {},
            }
            i += 1;
        }
        assert(all.take(all.len() as int) =~= all);
        Ok(doc)
    }
}

} // verus!
