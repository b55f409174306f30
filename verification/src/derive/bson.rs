//! The conversion between records and wire values that is derived from a
//! schema.
//!
//! A struct is written as a document with one entry per field, keyed by the
//! canonical name of the field. An enum whose variants all have no fields is
//! written as the string of the canonical name of the variant; any other enum
//! is written as a document that holds the canonical name of the variant under
//! `_type`, followed by the fields of the variant.
//!
//! A record is handled here in wire form: one wire value per field, as the
//! conversions of [`crate::ext::bson`] write it. Reading a record checks that
//! each value found can be read as the declared type of its field.

use vstd::prelude::*;
use vstd::string::StringExecFns;
use crate::bson;
use crate::bson::BsonView;
use crate::bson::DocumentView;
use crate::bson::inserted;
use crate::bson::lookup;
use crate::bson::removed;
use crate::derive::ast::CompileError;
use crate::derive::ast::Container;
use crate::derive::ast::Data;
use crate::derive::ast::DeriveInput;
use crate::derive::ast::Field;
use crate::derive::ast::Fields;
use crate::derive::ast::InputData;
use crate::derive::ast::Member;
use crate::derive::ast::Style;
use crate::derive::ast::Type;
use crate::derive::ast::Variant;
use crate::derive::ast::container_errors;
use crate::derive::ast::copy_type;
use crate::derive::ast::data_read;
use crate::derive::ast::messages;
use crate::derive::attr;
use crate::ext::bson::de::Cause;
use crate::ext::bson::de::CauseView;
use crate::ext::bson::de::Error;
use crate::ext::bson::de::Expected;
use crate::ext::bson::de::Target;
use crate::ext::bson::ser;
use crate::inflect::decimal;
use crate::inflect::decimal_spec;
use crate::inflect::snake_case;
use crate::inflect::to_snake_case;

verus! {

/// The key under which the name of the variant of an enum is written.
pub const TYPE_KEY: &'static str = "_type";

/// How one field is written and read.
#[derive(Debug, PartialEq, Eq)]
pub struct FieldPlan {
    /// What the field is reached by.
    pub member: Member,
    /// The name of the variable that holds the field while it is read.
    pub ident: String,
    /// The key of the field in the document.
    pub id: String,
    /// The declared type of the field.
    pub ty: Type,
    /// Whether the generic serialization framework converts the field.
    pub serde: bool,
    /// Whether the declared type is an `Option`, for which a wire null stands
    /// for `None`.
    pub optional: bool,
}

/// How one variant of an enum is written and read.
#[derive(Debug, PartialEq, Eq)]
pub struct VariantPlan {
    /// The name of the variant.
    pub ident: String,
    /// The name of the variant on the wire.
    pub value: String,
    pub style: Style,
    pub fields: Vec<FieldPlan>,
}

/// The shape of what a type is written as.
#[derive(Debug, PartialEq, Eq)]
pub enum Body {
    /// A document of the fields of a struct.
    Struct(Vec<FieldPlan>),
    /// The name of a variant without fields, as a string.
    EnumUnit(Vec<VariantPlan>),
    /// A document of the name of a variant and of its fields.
    EnumStruct(Vec<VariantPlan>),
}

/// The conversions derived for a type.
#[derive(Debug, PartialEq, Eq)]
pub struct Derived {
    /// The name of the type.
    pub name: String,
    /// Whether the type can be written as a wire value.
    pub into: bool,
    /// Whether the type can be read from a wire value.
    pub from: bool,
    pub body: Body,
}

/// A value of a derived type in wire form: the position of its variant (zero
/// for a struct) and the wire values of its fields, in declared order.
#[derive(Debug, PartialEq)]
pub struct Record {
    pub variant: usize,
    pub values: Vec<bson::Bson>,
}

/// The mathematical value of a [`Record`].
pub struct RecordView {
    pub variant: int,
    pub values: Seq<BsonView>,
}

impl View for Record {
    type V = RecordView;

    open spec fn view(&self) -> RecordView {
        RecordView { variant: self.variant as int, values: bson::array_view(self.values@) }
    }
}

/// The key of a field in a document: the `snake_case` form of its name, or
/// its position in decimal.
pub open spec fn member_id_spec(member: Member) -> Seq<char> {
    match member {
        Member::Named(name) => snake_case(name@),
        Member::Unnamed(index) => decimal_spec(index as nat),
    }
}

/// The name of the variable for a field: its own name, or its position in
/// decimal behind an underscore.
pub open spec fn member_ident_spec(member: Member) -> Seq<char> {
    match member {
        Member::Named(name) => name@,
        Member::Unnamed(index) => "_"@ + decimal_spec(index as nat),
    }
}

/// The key of a field in a document.
pub fn member_to_id(member: &Member) -> (id: String)
    ensures
        id@ == member_id_spec(*member),
{
    match member {
        Member::Named(name) => to_snake_case(name.as_str()),
        Member::Unnamed(index) => decimal(*index),
    }
}

/// The name of the variable for a field.
pub fn member_to_ident(member: &Member) -> (ident: String)
    ensures
        ident@ == member_ident_spec(*member),
{
    match member {
        Member::Named(name) => name.clone(),
        Member::Unnamed(index) => {
            let digits = decimal(*index);
            String::from_str("_").concat(digits.as_str())
        },
    }
}

/// Whether a declared type is an `Option`.
pub fn is_option(ty: &Type) -> (b: bool)
    ensures
        b == (*ty is Option),
{
    match ty {
        Type::Option(_) => true,
        _ => false,
    }
}

/// Whether `plan` is how the field `f` is written and read.
pub open spec fn field_planned(f: Field, plan: FieldPlan) -> bool {
    &&& plan.member == f.member
    &&& plan.ident@ == member_ident_spec(f.member)
    &&& plan.id@ == member_id_spec(f.member)
    &&& plan.ty == f.ty
    &&& plan.serde == f.attrs.serde
    &&& plan.optional == (f.ty is Option)
}

/// Whether `plans` is how the fields `fields` are written and read, one plan
/// per field and in the same order.
pub open spec fn fields_planned(fields: Seq<Field>, plans: Seq<FieldPlan>) -> bool {
    &&& plans.len() == fields.len()
    &&& forall|i: int| 0 <= i < fields.len() ==> field_planned(fields[i], #[trigger] plans[i])
}

/// Whether `plan` is how the variant `v` is written and read.
pub open spec fn variant_planned(v: Variant, plan: VariantPlan) -> bool {
    &&& plan.ident == v.ident
    &&& plan.value@ == snake_case(v.ident@)
    &&& plan.style == v.style
    &&& fields_planned(v.fields@, plan.fields@)
}

/// Whether `plans` is how the variants `variants` are written and read, one
/// plan per variant and in the same order.
pub open spec fn variants_planned(variants: Seq<Variant>, plans: Seq<VariantPlan>) -> bool {
    &&& plans.len() == variants.len()
    &&& forall|i: int|
        0 <= i < variants.len() ==> variant_planned(variants[i], #[trigger] plans[i])
}

/// Whether every variant is without fields.
pub open spec fn all_unit(variants: Seq<Variant>) -> bool {
    forall|i: int| 0 <= i < variants.len() ==> (#[trigger] variants[i]).style == Style::Unit
}

/// A copy of a member.
fn copy_member(member: &Member) -> (r: Member)
    ensures
        r == *member,
{
    match member {
        Member::Named(name) => Member::Named(name.clone()),
        Member::Unnamed(index) => Member::Unnamed(*index),
    }
}

/// How a field is read from a document: through the generic serialization
/// framework where the field asks for it, with a wire null read as `None`
/// where the declared type is an `Option`, and by the conversion of the
/// declared type otherwise.
pub fn impl_struct_try_from_bson_field(f: &Field) -> (plan: FieldPlan)
    ensures
        field_planned(*f, plan),
{
    let ident = member_to_ident(&f.member);
    let id = member_to_id(&f.member);
    let optional = is_option(&f.ty);
    FieldPlan {
        member: copy_member(&f.member),
        ident,
        id,
        ty: copy_type(&f.ty),
        serde: f.attrs.serde,
        optional,
    }
}

/// The plans of a list of fields.
fn plan_fields(fields: &Vec<Field>) -> (plans: Vec<FieldPlan>)
    ensures
        fields_planned(fields@, plans@),
{
    let mut plans: Vec<FieldPlan> = Vec::new();
    let mut i: usize = 0;
    while i < fields.len()
        invariant
            i <= fields.len(),
            plans@.len() == i,
            forall|j: int| 0 <= j < i ==> field_planned(fields@[j], #[trigger] plans@[j]),
        decreases fields.len() - i,
    {
        plans.push(impl_struct_try_from_bson_field(&fields[i]));
        i += 1;
    }
    plans
}

/// The plans of a list of variants.
fn plan_variants(variants: &Vec<Variant>) -> (plans: Vec<VariantPlan>)
    ensures
        variants_planned(variants@, plans@),
{
    let mut plans: Vec<VariantPlan> = Vec::new();
    let mut i: usize = 0;
    while i < variants.len()
        invariant
            i <= variants.len(),
            plans@.len() == i,
            forall|j: int| 0 <= j < i ==> variant_planned(variants@[j], #[trigger] plans@[j]),
        decreases variants.len() - i,
    {
        let v = &variants[i];
        plans.push(
            VariantPlan {
                ident: v.ident.clone(),
                value: to_snake_case(v.ident.as_str()),
                style: v.style,
                fields: plan_fields(&v.fields),
            },
        );
        i += 1;
    }
    plans
}

/// Derives the conversions of a struct: a document with one entry per field,
/// in declared order, each under the key of its field. The directions are
/// those that the options ask for.
pub fn impl_struct(name: &String, _style: &Style, fields: &Vec<Field>, attrs: &attr::Container)
    -> (d: Derived)
    ensures
        d.name == *name,
        d.into == attrs.into,
        d.from == attrs.from,
        d.body is Struct,
        fields_planned(fields@, d.body->Struct_0@),
{
    Derived {
        name: name.clone(),
        into: attrs.into,
        from: attrs.from,
        body: Body::Struct(plan_fields(fields)),
    }
}

/// Derives the conversions of an enum whose variants all have no fields: the
/// string of the `snake_case` name of the variant.
pub fn impl_enum_unit(name: &String, variants: &Vec<Variant>, attrs: &attr::Container) -> (d:
    Derived)
    ensures
        d.name == *name,
        d.into == attrs.into,
        d.from == attrs.from,
        d.body is EnumUnit,
        variants_planned(variants@, d.body->EnumUnit_0@),
{
    Derived {
        name: name.clone(),
        into: attrs.into,
        from: attrs.from,
        body: Body::EnumUnit(plan_variants(variants)),
    }
}

/// Derives the conversions of an enum with fields: a document that holds the
/// `snake_case` name of the variant under `_type`, and the fields of the
/// variant under their keys.
pub fn impl_enum_struct(name: &String, variants: &Vec<Variant>, attrs: &attr::Container) -> (d:
    Derived)
    ensures
        d.name == *name,
        d.into == attrs.into,
        d.from == attrs.from,
        d.body is EnumStruct,
        variants_planned(variants@, d.body->EnumStruct_0@),
{
    Derived {
        name: name.clone(),
        into: attrs.into,
        from: attrs.from,
        body: Body::EnumStruct(plan_variants(variants)),
    }
}

/// Derives the conversions of an enum. The encoding is chosen once for the
/// whole enum: a string where every variant is without fields, a tagged
/// document otherwise.
pub fn impl_enum(name: &String, variants: &Vec<Variant>, attrs: &attr::Container) -> (d: Derived)
    ensures
        d.name == *name,
        d.into == attrs.into,
        d.from == attrs.from,
        all_unit(variants@) ==> d.body is EnumUnit && variants_planned(
            variants@,
            d.body->EnumUnit_0@,
        ),
        !all_unit(variants@) ==> d.body is EnumStruct && variants_planned(
            variants@,
            d.body->EnumStruct_0@,
        ),
{
    let mut i: usize = 0;
    let mut unit = true;
    while i < variants.len()
        invariant
            i <= variants.len(),
            unit == all_unit(variants@.take(i as int)),
        decreases variants.len() - i,
    {
        proof {
            let next = variants@.take(i as int + 1);
            if all_unit(next) {
                assert forall|j: int| 0 <= j < i implies (#[trigger] variants@.take(
                    i as int,
                )[j]).style == Style::Unit by {
                    assert(next[j].style == Style::Unit);
                }
                assert(next[i as int].style == Style::Unit);
            }
            if all_unit(variants@.take(i as int)) && variants@[i as int].style == Style::Unit {
                assert forall|j: int| 0 <= j < next.len() implies (#[trigger] next[j]).style
                    == Style::Unit by {
                    if j < i {
                        assert(variants@.take(i as int)[j].style == Style::Unit);
                    }
                }
            }
        }
        match variants[i].style {
            Style::Unit => {},
            _ => {
                unit = false;
            },
        }
        i += 1;
    }
    assert(variants@.take(variants@.len() as int) =~= variants@);
    if unit {
        impl_enum_unit(name, variants, attrs)
    } else {
        impl_enum_struct(name, variants, attrs)
    }
}

/// Whether conversions can be derived for the declaration: a struct has to
/// have named fields.
pub open spec fn derivable(input: DeriveInput) -> bool {
    input.data is Struct ==> input.data->Struct_0 is Named
}

/// Whether `d` holds the conversions of the schema `c`.
pub open spec fn derived_from(c: Container, d: Derived) -> bool {
    &&& d.name == c.ident
    &&& d.into == c.attrs.into
    &&& d.from == c.attrs.from
    &&& match c.data {
        Data::Struct(style, fields) => d.body is Struct && fields_planned(
            fields@,
            d.body->Struct_0@,
        ),
        Data::Enum(variants) => if all_unit(variants@) {
            d.body is EnumUnit && variants_planned(variants@, d.body->EnumUnit_0@)
        } else {
            d.body is EnumStruct && variants_planned(variants@, d.body->EnumStruct_0@)
        },
    }
}

/// Derives the conversions between a declared type and wire values.
///
/// The schema is read from the declaration; a declaration with problems is
/// refused with all of them.
pub fn expand_derive_bson(input: &DeriveInput) -> (r: Result<Derived, Vec<CompileError>>)
    requires
        derivable(*input),
    ensures
        match r {
            Ok(d) => container_errors(*input).len() == 0 && exists|c: Container|
                {
                    &&& c.ident == input.ident
                    &&& c.attrs == attr::container_options(input.attrs@)
                    &&& data_read(input.data, c.data)
                    &&& #[trigger] derived_from(c, d)
                },
            Err(errors) => errors@.len() > 0 && messages(errors@) == container_errors(*input),
        },
{
    let container = match Container::from(input) {
        Ok(container) => container,
        Err(errors) => {
            return Err(errors);
        },
    };
    let body = match &container.data {
        Data::Struct(style, fields) => impl_struct(
            &container.ident,
            style,
            fields,
            &container.attrs,
        ),
        Data::Enum(variants) => impl_enum(&container.ident, variants, &container.attrs),
    };
    assert(derived_from(container, body));
    Ok(body)
}

/// The message for a struct whose fields are not named.
pub open spec fn named_only() -> Seq<char> {
    "#[derive(Bson)] can only be derived on named structs"@
}

/// Derives the conversions between a declared type and wire values, whatever
/// the declaration.
///
/// A declaration with problems is refused with all of them; a struct whose
/// fields are not named is refused.
pub fn derive_bson(input: &DeriveInput) -> (r: Result<Derived, Vec<CompileError>>)
    ensures
        match r {
            Ok(d) => derivable(*input) && container_errors(*input).len() == 0 && exists|
                c: Container,
            |
                {
                    &&& c.ident == input.ident
                    &&& c.attrs == attr::container_options(input.attrs@)
                    &&& data_read(input.data, c.data)
                    &&& #[trigger] derived_from(c, d)
                },
            Err(errors) => errors@.len() > 0 && if container_errors(*input).len() > 0 {
                messages(errors@) == container_errors(*input)
            } else {
                !derivable(*input) && messages(errors@) == seq![named_only()]
            },
        },
{
    let named = match &input.data {
        InputData::Struct(fields) => match fields {
            Fields::Named(_) => true,
            _ => false,
        },
        _ => true,
    };
    if named {
        return expand_derive_bson(input);
    }
    match Container::from(input) {
        Ok(_) => {
            let mut errors: Vec<CompileError> = Vec::new();
            errors.push(
                CompileError {
                    message: String::from_str(
                        "#[derive(Bson)] can only be derived on named structs",
                    ),
                },
            );
            assert(messages(errors@) =~= seq![named_only()]);
            Err(errors)
        },
        Err(errors) => Err(errors),
    }
}

} // verus!
