//! The shape of a record type: what the declaration of a struct or an enum
//! says, and the schema that is read from it.

use vstd::prelude::*;
use vstd::string::StringExecFns;
use crate::derive::attr;

verus! {

pub const BSON: &'static str = "bson";

pub const COLLECTION: &'static str = "collection";

pub const FIELD: &'static str = "field";

pub const FILTER: &'static str = "filter";

pub const FROM: &'static str = "from";

pub const INTO: &'static str = "into";

pub const MONGO: &'static str = "mongo";

pub const OID: &'static str = "oid";

pub const SERDE: &'static str = "serde";

pub const SKIP: &'static str = "skip";

pub const UPDATE: &'static str = "update";

/// A problem found in a declaration, reported where the type is compiled.
#[derive(Debug, PartialEq, Eq)]
pub struct CompileError {
    pub message: String,
}

/// A literal inside an attribute.
#[derive(Debug, PartialEq, Eq)]
pub enum Lit {
    /// A string literal with its suffix, which is empty for a plain one.
    Str { value: String, suffix: String },
    /// Any other literal or expression.
    Other,
}

/// A named item inside the brackets of an attribute.
#[derive(Debug, PartialEq, Eq)]
pub enum MetaItem {
    /// A word, as `filter`.
    Path(String),
    /// A word with a value, as `collection = "users"`.
    NameValue { path: String, lit: Lit },
    /// A word with its own brackets.
    List(String),
}

/// An item inside the brackets of an attribute.
#[derive(Debug, PartialEq, Eq)]
pub enum NestedMeta {
    Meta(MetaItem),
    Lit(Lit),
}

/// What follows the name of an attribute.
#[derive(Debug, PartialEq, Eq)]
pub enum Meta {
    /// Nothing, as in `#[mongo]`.
    Path,
    /// Items in brackets, as in `#[mongo(filter, update)]`.
    List(Vec<NestedMeta>),
    /// A value, as in `#[mongo = "..."]`.
    NameValue,
}

/// An attribute on a type, a variant or a field.
#[derive(Debug, PartialEq, Eq)]
pub struct Attribute {
    /// The name of the attribute.
    pub path: String,
    pub meta: Meta,
}

/// The declared type of a field, as far as conversions are chosen by it.
#[derive(Debug, PartialEq, Eq)]
pub enum Type {
    Bool,
    Char,
    I8,
    I16,
    I32,
    I64,
    Isize,
    U8,
    U16,
    U32,
    U64,
    Usize,
    String,
    /// `Option` of a type.
    Option(Box<Type>),
    /// `Vec` of a type.
    Vec(Box<Type>),
    /// A wire value that is kept as it is.
    Bson,
    /// Any other type, whose values are not looked into.
    Other,
}

/// A field as declared.
#[derive(Debug, PartialEq, Eq)]
pub struct InputField {
    pub attrs: Vec<Attribute>,
    /// The name of the field, where it has one.
    pub ident: Option<String>,
    pub ty: Type,
}

/// The fields of a struct or of a variant, as declared.
#[derive(Debug, PartialEq, Eq)]
pub enum Fields {
    Named(Vec<InputField>),
    Unnamed(Vec<InputField>),
    Unit,
}

/// A variant of an enum, as declared.
#[derive(Debug, PartialEq, Eq)]
pub struct InputVariant {
    pub attrs: Vec<Attribute>,
    pub ident: String,
    pub fields: Fields,
}

/// The body of a declaration.
#[derive(Debug, PartialEq, Eq)]
pub enum InputData {
    Struct(Fields),
    Enum(Vec<InputVariant>),
    Union,
}

/// The declaration of a type that something is derived for.
#[derive(Debug, PartialEq, Eq)]
pub struct DeriveInput {
    pub attrs: Vec<Attribute>,
    pub ident: String,
    pub data: InputData,
}

/// How the fields of a struct or of a variant are written.
#[derive(Clone, Copy, Debug, PartialEq, Eq, Structural)]
pub enum Style {
    /// Named fields.
    Struct,
    /// Positional fields.
    Tuple,
    /// No fields.
    Unit,
}

/// What a field is reached by: its name or its position.
#[derive(Debug, PartialEq, Eq)]
pub enum Member {
    Named(String),
    Unnamed(usize),
}

/// A field of the schema.
#[derive(Debug, PartialEq, Eq)]
pub struct Field {
    pub member: Member,
    pub attrs: attr::Field,
    pub ty: Type,
}

/// A variant of the schema.
#[derive(Debug, PartialEq, Eq)]
pub struct Variant {
    pub ident: String,
    pub attrs: attr::Variant,
    pub fields: Vec<Field>,
    pub style: Style,
}

/// The body of the schema.
#[derive(Debug, PartialEq, Eq)]
pub enum Data {
    Enum(Vec<Variant>),
    Struct(Style, Vec<Field>),
}

/// The schema of a record type.
#[derive(Debug, PartialEq, Eq)]
pub struct Container {
    pub ident: String,
    pub attrs: attr::Container,
    pub data: Data,
}

/// The messages of a list of problems.
pub open spec fn messages(errors: Seq<CompileError>) -> Seq<Seq<char>> {
    errors.map_values(|e: CompileError| e.message@)
}

/// A copy of a declared type.
pub fn copy_type(ty: &Type) -> (r: Type)
    ensures
        r == *ty,
    decreases ty,
{
    match ty {
        Type::Bool => Type::Bool,
        Type::Char => Type::Char,
        Type::I8 => Type::I8,
        Type::I16 => Type::I16,
        Type::I32 => Type::I32,
        Type::I64 => Type::I64,
        Type::Isize => Type::Isize,
        Type::U8 => Type::U8,
        Type::U16 => Type::U16,
        Type::U32 => Type::U32,
        Type::U64 => Type::U64,
        Type::Usize => Type::Usize,
        Type::String => Type::String,
        Type::Option(inner) => Type::Option(Box::new(copy_type(inner))),
        Type::Vec(inner) => Type::Vec(Box::new(copy_type(inner))),
        Type::Bson => Type::Bson,
        Type::Other => Type::Other,
    }
}

/// The style that declared fields are written in.
pub open spec fn style_spec(fields: Fields) -> Style {
    match fields {
        Fields::Named(_) => Style::Struct,
        Fields::Unnamed(_) => Style::Tuple,
        Fields::Unit => Style::Unit,
    }
}

/// The declared fields themselves.
pub open spec fn field_list(fields: Fields) -> Seq<InputField> {
    match fields {
        Fields::Named(list) => list@,
        Fields::Unnamed(list) => list@,
        Fields::Unit => Seq::empty(),
    }
}

/// What the field at position `i` is reached by: its name where it has one,
/// else its position.
pub open spec fn member_spec(field: InputField, i: int) -> Member {
    match field.ident {
        Some(name) => Member::Named(name),
        None => Member::Unnamed(i as usize),
    }
}

/// Whether `field` is the schema's reading of the declared field `input` at
/// position `i`.
pub open spec fn field_read(input: InputField, i: int, field: Field) -> bool {
    &&& field.member == member_spec(input, i)
    &&& field.ty == input.ty
    &&& attr::field_errors(input.attrs@).len() == 0
    &&& field.attrs == attr::field_options(input.attrs@)
}

/// Whether `fields` is the schema's reading of the declared fields `input`,
/// each at its position.
pub open spec fn fields_read(input: Seq<InputField>, fields: Seq<Field>) -> bool {
    &&& fields.len() == input.len()
    &&& forall|i: int| 0 <= i < input.len() ==> field_read(input[i], i, #[trigger] fields[i])
}

/// The problems of the attributes of declared fields, field by field.
pub open spec fn fields_errors(input: Seq<InputField>) -> Seq<Seq<char>>
    decreases input.len(),
{
    if input.len() == 0 {
        Seq::empty()
    } else {
        fields_errors(input.drop_last()) + attr::field_errors(input.last().attrs@)
    }
}

/// Whether `variant` is the schema's reading of the declared variant `input`.
pub open spec fn variant_read(input: InputVariant, variant: Variant) -> bool {
    &&& variant.ident == input.ident
    &&& variant.style == style_spec(input.fields)
    &&& fields_read(field_list(input.fields), variant.fields@)
}

/// Whether `variants` is the schema's reading of the declared variants
/// `input`, in order.
pub open spec fn variants_read(input: Seq<InputVariant>, variants: Seq<Variant>) -> bool {
    &&& variants.len() == input.len()
    &&& forall|i: int| 0 <= i < input.len() ==> variant_read(input[i], #[trigger] variants[i])
}

/// The problems of the fields of declared variants, variant by variant.
pub open spec fn variants_errors(input: Seq<InputVariant>) -> Seq<Seq<char>>
    decreases input.len(),
{
    if input.len() == 0 {
        Seq::empty()
    } else {
        variants_errors(input.drop_last()) + fields_errors(field_list(input.last().fields))
    }
}

/// The problems of the body of a declaration.
pub open spec fn data_errors(data: InputData) -> Seq<Seq<char>> {
    match data {
        InputData::Enum(variants) => variants_errors(variants@),
        InputData::Struct(fields) => fields_errors(field_list(fields)),
        InputData::Union => seq!["Mongo does not support derive for unions"@],
    }
}

/// Whether `data` is the schema's reading of the body `input`.
pub open spec fn data_read(input: InputData, data: Data) -> bool {
    match input {
        InputData::Enum(variants) => data is Enum && variants_read(variants@, data->Enum_0@),
        InputData::Struct(fields) => data is Struct && data->Struct_0 == style_spec(fields)
            && fields_read(field_list(fields), data->Struct_1@),
        InputData::Union => false,
    }
}

/// All problems of a declaration: those of its own attributes, then those of
/// its body.
pub open spec fn container_errors(input: DeriveInput) -> Seq<Seq<char>> {
    attr::container_errors(input.attrs@) + data_errors(input.data)
}

/// Appends the problems `more` to `errors`.
pub fn extend(errors: &mut Vec<CompileError>, more: Vec<CompileError>)
    ensures
        final(errors)@ == old(errors)@ + more@,
        messages(final(errors)@) == messages(old(errors)@) + messages(more@),
{
    let ghost all = more@;
    let mut more = more;
    errors.append(&mut more);
    assert(messages(errors@) =~= messages(old(errors)@) + messages(all));
}

/// Reads the schema of declared fields. Each field is reached by its name, or
/// by its position where it has none. Where the attributes of any field have
/// problems, all of them are returned instead, field by field.
pub fn fields_from(fields: &Vec<InputField>) -> (r: Result<Vec<Field>, Vec<CompileError>>)
    ensures
        match r {
            Ok(list) => fields_errors(fields@).len() == 0 && fields_read(fields@, list@),
            Err(errors) => errors@.len() > 0 && messages(errors@) == fields_errors(fields@),
        },
{
    let mut errors: Vec<CompileError> = Vec::new();
    let mut list: Vec<Field> = Vec::new();
    let mut i: usize = 0;
    assert(fields@.take(0) =~= Seq::empty());
    assert(messages(errors@) =~= Seq::empty());
    while i < fields.len()
        invariant
            i <= fields.len(),
            messages(errors@) == fields_errors(fields@.take(i as int)),
            errors@.len() == 0 ==> fields_read(fields@.take(i as int), list@),
        decreases fields.len() - i,
    {
        let f = &fields[i];
        proof {
            assert(fields@.take(i as int + 1).drop_last() =~= fields@.take(i as int));
            assert(fields@.take(i as int + 1).last() == fields@[i as int]);
        }
        let ghost before = errors@;
        match attr::Field::from(i, f) {
            Ok(attrs) => {
                let member = match &f.ident {
                    Some(ident) => Member::Named(ident.clone()),
                    None => Member::Unnamed(i),
                };
                list.push(Field { member, attrs, ty: copy_type(&f.ty) });
                assert(messages(errors@) =~= fields_errors(fields@.take(i as int + 1)));
                proof {
                    if errors@.len() == 0 {
                        assert(fields_read(fields@.take(i as int + 1), list@));
                    }
                }
            },
            Err(errs) => {
                extend(&mut errors, errs);
                assert(messages(errors@).len() > 0);
                assert(messages(errors@) =~= fields_errors(fields@.take(i as int + 1)));
            },
        }
        i += 1;
    }
    assert(fields@.take(fields@.len() as int) =~= fields@);
    if errors.len() > 0 {
        return Err(errors);
    }
    Ok(list)
}

/// Reads the style and the schema of the fields of a struct or of a variant.
pub fn struct_from(fields: &Fields) -> (r: Result<(Style, Vec<Field>), Vec<CompileError>>)
    ensures
        match r {
            Ok((style, list)) => fields_errors(field_list(*fields)).len() == 0 && style
                == style_spec(*fields) && fields_read(field_list(*fields), list@),
            Err(errors) => errors@.len() > 0 && messages(errors@) == fields_errors(
                field_list(*fields),
            ),
        },
{
    match fields {
        Fields::Named(named) => match fields_from(named) {
            Ok(list) => Ok((Style::Struct, list)),
            Err(errors) => Err(errors),
        },
        Fields::Unnamed(unnamed) => match fields_from(unnamed) {
            Ok(list) => Ok((Style::Tuple, list)),
            Err(errors) => Err(errors),
        },
        Fields::Unit => Ok((Style::Unit, Vec::new())),
    }
}

/// Reads the schema of the variants of an enum, in order. Where the fields
/// of any variant have problems, all of them are returned instead.
pub fn enum_from(variants: &Vec<InputVariant>) -> (r: Result<Vec<Variant>, Vec<CompileError>>)
    ensures
        match r {
            Ok(list) => variants_errors(variants@).len() == 0 && variants_read(
                variants@,
                list@,
            ),
            Err(errors) => errors@.len() > 0 && messages(errors@) == variants_errors(variants@),
        },
{
    let mut errors: Vec<CompileError> = Vec::new();
    let mut list: Vec<Variant> = Vec::new();
    let mut i: usize = 0;
    assert(variants@.take(0) =~= Seq::empty());
    assert(messages(errors@) =~= Seq::empty());
    while i < variants.len()
        invariant
            i <= variants.len(),
            messages(errors@) == variants_errors(variants@.take(i as int)),
            errors@.len() == 0 ==> variants_read(variants@.take(i as int), list@),
        decreases variants.len() - i,
    {
        let v = &variants[i];
        proof {
            assert(variants@.take(i as int + 1).drop_last() =~= variants@.take(i as int));
            assert(variants@.take(i as int + 1).last() == variants@[i as int]);
        }
        let attrs = attr::Variant::from(v);
        match struct_from(&v.fields) {
            Ok((style, fields)) => {
                list.push(Variant { ident: v.ident.clone(), attrs, fields, style });
                assert(messages(errors@) =~= variants_errors(variants@.take(i as int + 1)));
                proof {
                    if errors@.len() == 0 {
                        assert(variants_read(variants@.take(i as int + 1), list@));
                    }
                }
            },
            Err(errs) => {
                extend(&mut errors, errs);
                assert(messages(errors@).len() > 0);
                assert(messages(errors@) =~= variants_errors(variants@.take(i as int + 1)));
            },
        }
        i += 1;
    }
    assert(variants@.take(variants@.len() as int) =~= variants@);
    if errors.len() > 0 {
        return Err(errors);
    }
    Ok(list)
}

impl Container {
    /// Reads the schema of a declaration: its name, its options and its
    /// fields or variants.
    ///
    /// A union has no schema. Where the declaration has problems, all of them
    /// are returned: those of the attributes of the type first, then those of
    /// its body.
    pub fn from(input: &DeriveInput) -> (r: Result<Container, Vec<CompileError>>)
        ensures
            match r {
                Ok(container) => {
                    &&& container_errors(*input).len() == 0
                    &&& container.ident == input.ident
                    &&& container.attrs == attr::container_options(input.attrs@)
                    &&& data_read(input.data, container.data)
                },
                Err(errors) => errors@.len() > 0 && messages(errors@) == container_errors(
                    *input,
                ),
            },
    {
        let mut errors: Vec<CompileError> = Vec::new();
        assert(messages(errors@) =~= Seq::empty());
        let attrs = match attr::Container::from(input) {
            Ok(attrs) => Some(attrs),
            Err(errs) => {
                extend(&mut errors, errs);
                None
            },
        };
        assert(messages(errors@) =~= attr::container_errors(input.attrs@));
        let data = match &input.data {
            InputData::Enum(variants) => match enum_from(variants) {
                Ok(v) => Some(Data::Enum(v)),
                Err(errs) => {
                    extend(&mut errors, errs);
                    None
                },
            },
            InputData::Struct(fields) => match struct_from(fields) {
                Ok((s, f)) => Some(Data::Struct(s, f)),
                Err(errs) => {
                    extend(&mut errors, errs);
                    None
                },
            },
            InputData::Union => {
                errors.push(
                    CompileError {
                        message: String::from_str("Mongo does not support derive for unions"),
                    },
                );
                None
            },
        };
        assert(messages(errors@) =~= container_errors(*input));
        match (attrs, data) {
            (Some(attrs), Some(data)) => {
                assert(errors@.len() == messages(errors@).len());
                Ok(Container { ident: input.ident.clone(), attrs, data })
            },
            _ => {
                assert(errors@.len() == messages(errors@).len());
                Err(errors)
            },
        }
    }
}

} // verus!
