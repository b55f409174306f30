use std::convert::TryFrom;

use mongod::bson::{self, Bson, Document};
use mongod::derive::ast::{
    Attribute, CompileError, Container, Data, DeriveInput, Fields, InputData, InputField,
    InputVariant, Lit, Member, Meta, MetaItem, NestedMeta, Style, Type,
};
use mongod::derive::attr::{self, BsonMode};
use mongod::derive::bson::{
    expand_derive_bson, is_option, member_to_id, member_to_ident, Body, Derived, Record,
};
use mongod::derive::mongo::{expand_derive_mongo, CollectionPlan, FieldVariant};
use mongod::derive::record::conforms;
use mongod::ext::bson::de::{Cause, Error, Expected, Target};
use mongod::filter::Comparator;
use mongod::{Filter, Update};

fn word(name: &str) -> NestedMeta {
    NestedMeta::Meta(MetaItem::Path(name.to_owned()))
}

fn value(name: &str, text: &str) -> NestedMeta {
    NestedMeta::Meta(MetaItem::NameValue {
        path: name.to_owned(),
        lit: Lit::Str {
            value: text.to_owned(),
            suffix: String::new(),
        },
    })
}

fn attribute(name: &str, items: Vec<NestedMeta>) -> Attribute {
    Attribute {
        path: name.to_owned(),
        meta: Meta::List(items),
    }
}

fn named(name: &str, ty: Type, attrs: Vec<Attribute>) -> InputField {
    InputField {
        attrs,
        ident: Some(name.to_owned()),
        ty,
    }
}

fn unnamed(ty: Type) -> InputField {
    InputField {
        attrs: vec![],
        ident: None,
        ty,
    }
}

fn optional(ty: Type) -> Type {
    Type::Option(Box::new(ty))
}

fn user(attrs: Vec<Attribute>) -> DeriveInput {
    DeriveInput {
        attrs,
        ident: "User".to_owned(),
        data: InputData::Struct(Fields::Named(vec![
            named("name", Type::String, vec![]),
            named("age", optional(Type::U32), vec![]),
        ])),
    }
}

fn messages(errors: &[CompileError]) -> Vec<&str> {
    errors.iter().map(|e| e.message.as_str()).collect()
}

fn document(entries: Vec<(&str, Bson)>) -> Document {
    let mut doc = Document::new();
    for (k, v) in entries {
        doc.insert(k.to_owned(), v);
    }
    doc
}

fn text(s: &str) -> Bson {
    Bson::String(s.to_owned())
}

fn shape() -> DeriveInput {
    DeriveInput {
        attrs: vec![],
        ident: "Shape".to_owned(),
        data: InputData::Enum(vec![
            InputVariant {
                attrs: vec![],
                ident: "Point".to_owned(),
                fields: Fields::Named(vec![
                    named("x", Type::I32, vec![]),
                    named("y", Type::I32, vec![]),
                ]),
            },
            InputVariant {
                attrs: vec![],
                ident: "Pair".to_owned(),
                fields: Fields::Unnamed(vec![unnamed(Type::I32), unnamed(Type::String)]),
            },
            InputVariant {
                attrs: vec![],
                ident: "Empty".to_owned(),
                fields: Fields::Unit,
            },
        ]),
    }
}

fn colour() -> DeriveInput {
    DeriveInput {
        attrs: vec![],
        ident: "Colour".to_owned(),
        data: InputData::Enum(vec![
            InputVariant {
                attrs: vec![],
                ident: "DarkRed".to_owned(),
                fields: Fields::Unit,
            },
            InputVariant {
                attrs: vec![],
                ident: "Blue".to_owned(),
                fields: Fields::Unit,
            },
        ]),
    }
}

#[test]
fn container_options_are_read_from_attributes() {
    let input = user(vec![
        attribute("derive", vec![word("Debug")]),
        attribute(
            "mongo",
            vec![
                value("collection", "users"),
                word("field"),
                word("filter"),
                word("update"),
                word("oid"),
                value("bson", "serde"),
            ],
        ),
        attribute("bson", vec![word("from")]),
    ]);
    let options = attr::Container::from(&input).unwrap();
    assert_eq!(
        options,
        attr::Container {
            bson: BsonMode::Serde,
            collection: Some("users".to_owned()),
            field: true,
            filter: true,
            from: true,
            into: false,
            oid: true,
            update: true,
        }
    );
}

#[test]
fn both_directions_are_derived_by_default() {
    let options = attr::Container::from(&user(vec![])).unwrap();
    assert!(options.from && options.into);
    assert_eq!(options.bson, BsonMode::Convert);
    assert_eq!(options.collection, None);
    let options = attr::Container::from(&user(vec![attribute("bson", vec![word("into")])]))
        .unwrap();
    assert!(!options.from && options.into);
    let options = attr::Container::from(&user(vec![attribute(
        "bson",
        vec![word("into"), word("from")],
    )]))
    .unwrap();
    assert!(options.from && options.into);
}

#[test]
fn unknown_attributes_are_reported() {
    let input = user(vec![
        attribute("bson", vec![word("sideways"), word("from")]),
        attribute("mongo", vec![word("field"), word("nope"), word("filter")]),
        attribute("mongo", vec![value("bson", "yaml"), value("collection", "c")]),
        Attribute {
            path: "mongo".to_owned(),
            meta: Meta::Path,
        },
        attribute("bson", vec![NestedMeta::Lit(Lit::Other)]),
    ]);
    let errors = attr::Container::from(&input).unwrap_err();
    assert_eq!(
        messages(&errors),
        vec![
            "unknown bson container attribute `sideways`",
            "unexpected literal in bson container attribute",
            "unknown mongo container attribute `nope`",
            "unknown mongo container attribute value `yaml`",
            "expected #[mongo(...)]",
        ]
    );
}

#[test]
fn literal_values_have_to_be_plain_strings() {
    let suffixed = NestedMeta::Meta(MetaItem::NameValue {
        path: "collection".to_owned(),
        lit: Lit::Str {
            value: "users".to_owned(),
            suffix: "u8".to_owned(),
        },
    });
    let number = NestedMeta::Meta(MetaItem::NameValue {
        path: "bson".to_owned(),
        lit: Lit::Other,
    });
    let errors =
        attr::Container::from(&user(vec![attribute("mongo", vec![suffixed, number])])).unwrap_err();
    assert_eq!(
        messages(&errors),
        vec![
            "unexpected suffix `u8` on string literal",
            "expected mongo bson attribute to be a string: `bson = \"...\"`",
        ]
    );
    assert_eq!(
        attr::get_lit_str(
            "collection",
            &Lit::Str {
                value: "users".to_owned(),
                suffix: String::new()
            }
        )
        .unwrap(),
        "users"
    );
    assert_eq!(BsonMode::from_str("convert"), Ok(BsonMode::Convert));
    assert_eq!(BsonMode::from_str("serde"), Ok(BsonMode::Serde));
    assert_eq!(
        BsonMode::from_str("json"),
        Err("unknown `BsonMode` variant json".to_owned())
    );
}

#[test]
fn meta_items_are_those_of_a_list() {
    let a = attribute("bson", vec![word("from")]);
    assert_eq!(attr::get_bson_meta_items(&a).unwrap().unwrap().len(), 1);
    assert_eq!(attr::get_mongo_meta_items(&a).unwrap(), None);
    let bare = Attribute {
        path: "bson".to_owned(),
        meta: Meta::NameValue,
    };
    assert_eq!(
        attr::get_bson_meta_items(&bare).unwrap_err().message,
        "expected #[bson(...)]"
    );
    assert_eq!(attr::get_mongo_meta_items(&bare).unwrap(), None);
}

#[test]
fn field_options_are_read_from_attributes() {
    let f = named(
        "age",
        Type::U32,
        vec![
            attribute("mongo", vec![word("skip")]),
            attribute("bson", vec![word("serde")]),
        ],
    );
    assert_eq!(
        attr::Field::from(0, &f).unwrap(),
        attr::Field {
            serde: true,
            skip: true
        }
    );
    let f = named("age", Type::U32, vec![attribute("bson", vec![word("skip")])]);
    assert_eq!(
        messages(&attr::Field::from(0, &f).unwrap_err()),
        vec!["unknown bson field attribute `skip`"]
    );
    let f = named("age", Type::U32, vec![attribute("mongo", vec![word("oid")])]);
    assert_eq!(
        messages(&attr::Field::from(0, &f).unwrap_err()),
        vec!["unknown mongo field attribute `oid`"]
    );
}

#[test]
fn schema_is_read_from_a_declaration() {
    let c = Container::from(&user(vec![])).unwrap();
    assert_eq!(c.ident, "User");
    match c.data {
        Data::Struct(style, fields) => {
            assert_eq!(style, Style::Struct);
            assert_eq!(fields.len(), 2);
            assert_eq!(fields[0].member, Member::Named("name".to_owned()));
            assert_eq!(fields[0].ty, Type::String);
            assert_eq!(fields[1].member, Member::Named("age".to_owned()));
            assert_eq!(fields[1].ty, optional(Type::U32));
            assert!(is_option(&fields[1].ty));
            assert!(!is_option(&fields[0].ty));
        }
        Data::Enum(_) => panic!("a struct was declared"),
    }
    let c = Container::from(&shape()).unwrap();
    match c.data {
        Data::Enum(variants) => {
            assert_eq!(variants.len(), 3);
            assert_eq!(variants[0].style, Style::Struct);
            assert_eq!(variants[1].style, Style::Tuple);
            assert_eq!(variants[1].fields[1].member, Member::Unnamed(1));
            assert_eq!(variants[2].style, Style::Unit);
            assert!(variants[2].fields.is_empty());
        }
        Data::Struct(..) => panic!("an enum was declared"),
    }
}

#[test]
fn unions_and_bad_fields_are_refused() {
    let union = DeriveInput {
        attrs: vec![attribute("bson", vec![word("x")])],
        ident: "U".to_owned(),
        data: InputData::Union,
    };
    assert_eq!(
        messages(&Container::from(&union).unwrap_err()),
        vec![
            "unknown bson container attribute `x`",
            "Mongo does not support derive for unions"
        ]
    );
    let bad = DeriveInput {
        attrs: vec![],
        ident: "S".to_owned(),
        data: InputData::Struct(Fields::Named(vec![
            named("a", Type::Bool, vec![attribute("bson", vec![word("x")])]),
            named("b", Type::Bool, vec![]),
            named("c", Type::Bool, vec![attribute("mongo", vec![word("y")])]),
        ])),
    };
    assert_eq!(
        messages(&Container::from(&bad).unwrap_err()),
        vec![
            "unknown bson field attribute `x`",
            "unknown mongo field attribute `y`"
        ]
    );
}

#[test]
fn names_on_the_wire_are_canonical() {
    assert_eq!(member_to_id(&Member::Named("userName".to_owned())), "user_name");
    assert_eq!(member_to_id(&Member::Named("name".to_owned())), "name");
    assert_eq!(member_to_id(&Member::Named("HTTPServer".to_owned())), "http_server");
    assert_eq!(member_to_id(&Member::Unnamed(0)), "0");
    assert_eq!(member_to_id(&Member::Unnamed(12)), "12");
    assert_eq!(member_to_id(&Member::Unnamed(4096)), "4096");
    assert_eq!(member_to_ident(&Member::Named("userName".to_owned())), "userName");
    assert_eq!(member_to_ident(&Member::Unnamed(3)), "_3");
    assert_eq!(mongod::inflect::decimal(usize::MAX), usize::MAX.to_string());
    assert_eq!(mongod::inflect::decimal(10), "10");
    assert_eq!(mongod::inflect::decimal(9), "9");
}

fn derived_user() -> Derived {
    expand_derive_bson(&user(vec![])).unwrap()
}

#[test]
fn struct_is_written_field_by_field() {
    let d = derived_user();
    assert_eq!(d.name, "User");
    assert!(d.into && d.from);
    let record = Record {
        variant: 0,
        values: vec![text("foo"), Bson::Int32(30)],
    };
    let b = d.try_into_bson(record).unwrap();
    assert_eq!(
        b,
        Bson::Document(document(vec![("name", text("foo")), ("age", Bson::Int32(30))]))
    );
    let short = Record {
        variant: 0,
        values: vec![text("foo")],
    };
    assert_eq!(
        d.try_into_bson(short).unwrap_err().message(),
        "the record does not fit the type"
    );
    let other = Record {
        variant: 1,
        values: vec![text("foo"), Bson::Null],
    };
    assert!(d.try_into_bson(other).is_err());
}

#[test]
fn struct_is_read_whatever_the_order_of_the_document() {
    let d = derived_user();
    let doc = document(vec![
        ("age", Bson::Int32(30)),
        ("extra", Bson::Boolean(true)),
        ("name", text("foo")),
    ]);
    let record = d.try_from_bson(Bson::Document(doc)).unwrap();
    assert_eq!(
        record,
        Record {
            variant: 0,
            values: vec![text("foo"), Bson::Int32(30)]
        }
    );
}

#[test]
fn missing_field_is_named() {
    let d = derived_user();
    let doc = document(vec![("name", text("foo"))]);
    let e = d.try_from_bson(Bson::Document(doc)).unwrap_err();
    assert_eq!(e, Error(Cause::Missing("age".to_owned())));
    assert_eq!(e.message(), "'age' is missing");
    let e = d.try_from_bson(Bson::Document(Document::new())).unwrap_err();
    assert_eq!(e, Error(Cause::Missing("name".to_owned())));
    let e = d.try_from_bson(Bson::Int32(1)).unwrap_err();
    assert_eq!(e, Error(Cause::NotDocument));
    assert_eq!(e.message(), "not a BSON Document");
}

#[test]
fn a_value_of_the_wrong_kind_comes_before_a_missing_field() {
    let d = derived_user();
    let doc = document(vec![("name", Bson::Int32(5))]);
    let e = d.try_from_bson(Bson::Document(doc)).unwrap_err();
    assert_eq!(
        e,
        Error(Cause::InvalidVariant {
            expected: Expected::String,
            found: Bson::Int32(5)
        })
    );
    let doc = document(vec![("age", text("old")), ("name", text("foo"))]);
    let e = d.try_from_bson(Bson::Document(doc)).unwrap_err();
    assert_eq!(
        e,
        Error(Cause::InvalidVariant {
            expected: Expected::Int32,
            found: text("old")
        })
    );
}

#[test]
fn optional_field_round_trips_through_null() {
    let d = derived_user();
    let none: Option<u32> = None;
    let record = Record {
        variant: 0,
        values: vec![
            text("foo"),
            mongod::ext::bson::Bson::try_from(none).unwrap().0,
        ],
    };
    let b = d.try_into_bson(record).unwrap();
    assert_eq!(
        b,
        Bson::Document(document(vec![("name", text("foo")), ("age", Bson::Null)]))
    );
    let back = d.try_from_bson(b).unwrap();
    assert_eq!(back.values[1], Bson::Null);
    assert_eq!(
        Option::<Bson>::from(mongod::ext::bson::Bson(back.values[1].clone())),
        None
    );
}

#[test]
fn enum_with_fields_is_tagged() {
    let d = expand_derive_bson(&shape()).unwrap();
    assert!(matches!(d.body, Body::EnumStruct(_)));
    let point = Record {
        variant: 0,
        values: vec![Bson::Int32(1), Bson::Int32(2)],
    };
    let b = d.try_into_bson(point).unwrap();
    assert_eq!(
        b,
        Bson::Document(document(vec![
            ("_type", text("point")),
            ("x", Bson::Int32(1)),
            ("y", Bson::Int32(2)),
        ]))
    );
    let back = d.try_from_bson(b).unwrap();
    assert_eq!(
        back,
        Record {
            variant: 0,
            values: vec![Bson::Int32(1), Bson::Int32(2)]
        }
    );
    let pair = Record {
        variant: 1,
        values: vec![Bson::Int32(7), text("seven")],
    };
    let b = d.try_into_bson(pair).unwrap();
    assert_eq!(
        b,
        Bson::Document(document(vec![
            ("_type", text("pair")),
            ("0", Bson::Int32(7)),
            ("1", text("seven")),
        ]))
    );
    assert_eq!(d.try_from_bson(b).unwrap().variant, 1);
    let empty = Record {
        variant: 2,
        values: vec![],
    };
    let b = d.try_into_bson(empty).unwrap();
    assert_eq!(b, Bson::Document(document(vec![("_type", text("empty"))])));
    assert_eq!(
        d.try_from_bson(b).unwrap(),
        Record {
            variant: 2,
            values: vec![]
        }
    );
}

#[test]
fn enum_documents_with_bad_tags_are_refused() {
    let d = expand_derive_bson(&shape()).unwrap();
    let unknown = document(vec![("_type", text("unknown")), ("x", Bson::Int32(1))]);
    let e = d.try_from_bson(Bson::Document(unknown)).unwrap_err();
    assert_eq!(e, Error(Cause::UnknownVariant));
    assert_eq!(e.message(), "invalid variant");
    let untagged = document(vec![("x", Bson::Int32(1)), ("y", Bson::Int32(2))]);
    let e = d.try_from_bson(Bson::Document(untagged)).unwrap_err();
    assert_eq!(e, Error(Cause::EnumTypeNotFound));
    assert_eq!(e.message(), "enum type not found");
    let numbered = document(vec![("_type", Bson::Int32(0))]);
    let e = d.try_from_bson(Bson::Document(numbered)).unwrap_err();
    assert_eq!(e, Error(Cause::UnknownVariant));
    let partial = document(vec![("_type", text("point")), ("x", Bson::Int32(1))]);
    let e = d.try_from_bson(Bson::Document(partial)).unwrap_err();
    assert_eq!(e, Error(Cause::Missing("y".to_owned())));
    let e = d.try_from_bson(text("point")).unwrap_err();
    assert_eq!(e, Error(Cause::NotDocument));
}

#[test]
fn enum_without_fields_is_a_string() {
    let d = expand_derive_bson(&colour()).unwrap();
    assert!(matches!(d.body, Body::EnumUnit(_)));
    let b = d
        .try_into_bson(Record {
            variant: 0,
            values: vec![],
        })
        .unwrap();
    assert_eq!(b, text("dark_red"));
    assert_eq!(d.try_from_bson(b).unwrap().variant, 0);
    assert_eq!(d.try_from_bson(text("blue")).unwrap().variant, 1);
    let e = d.try_from_bson(text("Blue")).unwrap_err();
    assert_eq!(e, Error(Cause::UnknownVariant));
    let e = d.try_from_bson(Bson::Int32(1)).unwrap_err();
    assert_eq!(e, Error(Cause::NotString));
    assert_eq!(e.message(), "not a BSON String");
    assert!(d
        .try_into_bson(Record {
            variant: 2,
            values: vec![]
        })
        .is_err());
}

#[test]
fn declared_types_decide_what_can_be_read() {
    assert!(conforms(&Type::Bool, &Bson::Boolean(false)).is_ok());
    assert!(conforms(&Type::U32, &Bson::Int32(-1)).is_ok());
    assert!(conforms(&Type::U64, &Bson::Int64(-1)).is_ok());
    assert!(conforms(&Type::Usize, &Bson::Int64(1)).is_ok());
    assert!(conforms(&Type::Isize, &Bson::Int64(1)).is_ok());
    assert!(conforms(&Type::Char, &text("a")).is_ok());
    assert_eq!(
        conforms(&Type::Char, &text("ab")).unwrap_err(),
        Error(Cause::InvalidChar("ab".to_owned()))
    );
    assert_eq!(
        conforms(&Type::I8, &Bson::Int32(200)).unwrap_err(),
        Error(Cause::OutOfRange {
            value: 200,
            target: Target::I8
        })
    );
    assert_eq!(
        conforms(&Type::U16, &Bson::Int32(-1)).unwrap_err(),
        Error(Cause::OutOfRange {
            value: -1,
            target: Target::U16
        })
    );
    let list = Type::Vec(Box::new(optional(Type::I16)));
    let good = Bson::Array(vec![Bson::Int32(1), Bson::Null, Bson::Int32(-3)]);
    assert!(conforms(&list, &good).is_ok());
    let bad = Bson::Array(vec![Bson::Int32(1), Bson::Int32(40000), text("x")]);
    assert_eq!(
        conforms(&list, &bad).unwrap_err(),
        Error(Cause::OutOfRange {
            value: 40000,
            target: Target::I16
        })
    );
    assert_eq!(
        conforms(&list, &Bson::Null).unwrap_err(),
        Error(Cause::InvalidVariant {
            expected: Expected::Array,
            found: Bson::Null
        })
    );
    assert!(conforms(&Type::Bson, &Bson::MinKey).is_ok());
    assert!(conforms(&Type::Other, &Bson::MinKey).is_ok());
}

#[test]
fn fields_converted_by_the_serializer_are_not_looked_into() {
    let input = DeriveInput {
        attrs: vec![],
        ident: "S".to_owned(),
        data: InputData::Struct(Fields::Named(vec![named(
            "age",
            Type::U8,
            vec![attribute("bson", vec![word("serde")])],
        )])),
    };
    let d = expand_derive_bson(&input).unwrap();
    let doc = document(vec![("age", text("whatever"))]);
    let record = d.try_from_bson(Bson::Document(doc)).unwrap();
    assert_eq!(record.values, vec![text("whatever")]);
}

fn companions() -> mongod::derive::mongo::Mongo {
    let input = DeriveInput {
        attrs: vec![attribute(
            "mongo",
            vec![
                value("collection", "users"),
                word("field"),
                word("filter"),
                word("update"),
                word("oid"),
            ],
        )],
        ident: "UserAccount".to_owned(),
        data: InputData::Struct(Fields::Named(vec![
            named("userName", Type::String, vec![]),
            named(
                "secret",
                Type::String,
                vec![attribute("mongo", vec![word("skip")])],
            ),
            named("age", optional(Type::U32), vec![]),
        ])),
    };
    expand_derive_mongo(&input).unwrap()
}

#[test]
fn companions_are_derived_where_asked_for() {
    let m = companions();
    assert_eq!(m.name, "UserAccount");
    assert_eq!(m.namespace, "user_account");
    assert!(!m.serde);
    assert_eq!(
        m.parts.collection,
        Some(CollectionPlan {
            name: "users".to_owned(),
            bson: BsonMode::Convert
        })
    );
    assert_eq!(
        m.parts.field,
        Some(vec![
            FieldVariant {
                ident: "UserName".to_owned(),
                name: "userName".to_owned()
            },
            FieldVariant {
                ident: "Age".to_owned(),
                name: "age".to_owned()
            },
        ])
    );
    let filter = m.parts.filter.unwrap();
    assert!(filter.oid);
    assert_eq!(filter.slots.len(), 2);
    assert_eq!(filter.slots[0].id, "user_name");
    assert_eq!(filter.slots[0].index, 0);
    assert_eq!(filter.slots[1].id, "age");
    assert_eq!(filter.slots[1].index, 2);
    let update = m.parts.update.unwrap();
    assert_eq!(update.slots.len(), 2);
    let plain = expand_derive_mongo(&user(vec![])).unwrap();
    assert_eq!(plain.parts.collection, None);
    assert_eq!(plain.parts.field, None);
    assert_eq!(plain.parts.filter, None);
    assert_eq!(plain.parts.update, None);
    let e = expand_derive_mongo(&colour()).unwrap_err();
    assert_eq!(
        messages(&e),
        vec!["#[derive(Mongo)] can only be derived on structs"]
    );
}

#[test]
fn skipped_fields_never_reach_a_filter_or_an_update() {
    let m = companions();
    let record = Record {
        variant: 0,
        values: vec![text("foo"), text("hunter2"), Bson::Int32(30)],
    };
    let filter_plan = m.parts.filter.unwrap();
    let filter = filter_plan.into_filter(&record).unwrap();
    let doc = filter.into_document().unwrap();
    assert!(!doc.contains_key("secret"));
    assert_eq!(
        doc,
        document(vec![
            (
                "user_name",
                Bson::Document(document(vec![("$eq", text("foo"))]))
            ),
            (
                "age",
                Bson::Document(document(vec![("$eq", Bson::Int32(30))]))
            ),
        ])
    );
    let update_plan = m.parts.update.unwrap();
    let update = update_plan.into_update(&record).unwrap();
    let doc = update.into_document().unwrap();
    assert!(!doc.contains_key("secret"));
    assert_eq!(
        doc,
        document(vec![("user_name", text("foo")), ("age", Bson::Int32(30))])
    );
    let short = Record {
        variant: 0,
        values: vec![text("foo")],
    };
    let e = filter_plan.into_filter(&short).err().unwrap();
    assert_eq!(
        e.to_string(),
        "invalid document: the record does not fit the type"
    );
    assert!(update_plan.into_update(&short).is_err());
}

#[test]
fn only_present_places_are_written() {
    let m = companions();
    let plan = m.parts.filter.unwrap();
    let mut filter = plan.filter();
    assert_eq!(filter.len(), 2);
    assert_eq!(filter.key(1), "age");
    assert_eq!(filter.get(1), &None);
    assert_eq!(
        mongod::derive::mongo::Filter::new().into_document().unwrap(),
        Document::new()
    );
    assert!(filter.set(1, Some(Comparator::Gt(Bson::Int32(18)))));
    assert!(!filter.set(2, Some(Comparator::Gt(Bson::Int32(18)))));
    assert!(filter.set_id(Some(Comparator::Eq(Bson::ObjectId(
        bson::ObjectId { bytes: [1; 12] }
    )))));
    let mut bare = mongod::derive::mongo::Filter::new();
    assert!(!bare.set_id(Some(Comparator::Eq(Bson::Null))));
    assert!(!bare.set(0, None));
    assert_eq!(bare.into_document().unwrap(), Document::new());
    let doc = filter.into_document().unwrap();
    assert_eq!(
        doc,
        document(vec![
            (
                "_id",
                Bson::Document(document(vec![(
                    "$eq",
                    Bson::ObjectId(bson::ObjectId { bytes: [1; 12] })
                )]))
            ),
            (
                "age",
                Bson::Document(document(vec![("$gt", Bson::Int32(18))]))
            ),
        ])
    );
    let plan = m.parts.update.unwrap();
    let mut update = plan.update();
    assert!(update.set(1, Some(Bson::Null)));
    assert!(!update.set(5, Some(Bson::Null)));
    assert_eq!(update.len(), 2);
    assert_eq!(update.key(0), "user_name");
    assert_eq!(update.get(1), &Some(Bson::Null));
    assert_eq!(
        update.into_document().unwrap(),
        document(vec![("age", Bson::Null)])
    );
    assert_eq!(
        mongod::derive::mongo::Update::new().into_document().unwrap(),
        Document::new()
    );
}

#[test]
fn records_are_stored_as_documents() {
    let d = derived_user();
    let record = Record {
        variant: 0,
        values: vec![text("foo"), Bson::Null],
    };
    let doc = d.into_document(record).unwrap();
    assert_eq!(doc, document(vec![("name", text("foo")), ("age", Bson::Null)]));
    let back = d.from_document(doc).unwrap();
    assert_eq!(back.values, vec![text("foo"), Bson::Null]);
    let e = d.from_document(document(vec![("name", text("foo"))])).err().unwrap();
    assert_eq!(*e.kind(), mongod::ErrorKind::InvalidDocument);
    assert_eq!(e.to_string(), "invalid document: 'age' is missing");
    let short = Record {
        variant: 0,
        values: vec![],
    };
    assert_eq!(
        d.into_document(short).err().unwrap().to_string(),
        "invalid document: the record does not fit the type"
    );
    let c = expand_derive_bson(&colour()).unwrap();
    let e = c
        .into_document(Record {
            variant: 0,
            values: vec![],
        })
        .err()
        .unwrap();
    assert_eq!(e.to_string(), "invalid document: not a bson document");
    let e = c.from_document(Document::new()).err().unwrap();
    assert_eq!(e.to_string(), "invalid document: not a BSON String");
}

#[test]
fn declarations_that_cannot_be_derived_are_refused() {
    let tuple = DeriveInput {
        attrs: vec![attribute("mongo", vec![word("filter")])],
        ident: "Pair".to_owned(),
        data: InputData::Struct(Fields::Unnamed(vec![unnamed(Type::I32)])),
    };
    assert_eq!(
        messages(&mongod::derive::bson::derive_bson(&tuple).unwrap_err()),
        vec!["#[derive(Bson)] can only be derived on named structs"]
    );
    assert_eq!(
        messages(&mongod::derive::mongo::derive_collection(&tuple).unwrap_err()),
        vec!["#[derive(Mongo)] can only be derived on named structs"]
    );
    let quiet = DeriveInput {
        attrs: vec![attribute("mongo", vec![value("collection", "pairs")])],
        ident: "Pair".to_owned(),
        data: InputData::Struct(Fields::Unnamed(vec![unnamed(Type::I32)])),
    };
    let m = mongod::derive::mongo::derive_collection(&quiet).unwrap();
    assert_eq!(m.namespace, "pair");
    let bad = DeriveInput {
        attrs: vec![attribute("bson", vec![word("x")])],
        ident: "Pair".to_owned(),
        data: InputData::Struct(Fields::Unnamed(vec![unnamed(Type::I32)])),
    };
    assert_eq!(
        messages(&mongod::derive::bson::derive_bson(&bad).unwrap_err()),
        vec!["unknown bson container attribute `x`"]
    );
    assert!(mongod::derive::bson::derive_bson(&user(vec![])).is_ok());
    assert!(mongod::derive::mongo::derive_collection(&colour()).is_err());
}

#[test]
fn numbers_with_a_sign_are_written_in_decimal() {
    assert_eq!(mongod::inflect::signed_decimal(0), "0");
    assert_eq!(mongod::inflect::signed_decimal(-1), "-1");
    assert_eq!(mongod::inflect::signed_decimal(200), "200");
    assert_eq!(mongod::inflect::signed_decimal(i64::MIN), i64::MIN.to_string());
    assert_eq!(mongod::inflect::signed_decimal(i64::MAX), i64::MAX.to_string());
    assert_eq!(mongod::inflect::decimal_u64(u64::MAX), u64::MAX.to_string());
    let e = Error(Cause::OutOfRange {
        value: -129,
        target: Target::I8,
    });
    assert_eq!(
        e.message(),
        "invalid value, could not coerce `-129` into an i8"
    );
    let e = Error(Cause::InvalidVariant {
        expected: Expected::Array,
        found: Bson::Document(Document::new()),
    });
    assert_eq!(
        e.message(),
        "invalid variant, expected `Bson::Array(...)` but found `Bson::Document(...)`"
    );
    assert_eq!(
        mongod::ext::bson::de::kind(&Bson::MaxKey),
        "Bson::MaxKey"
    );
}
