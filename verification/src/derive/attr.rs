//! The options that attributes set on a record type and on its fields.
//!
//! Options are read from the attributes named `bson` and `mongo`. The items of
//! one attribute are read in order; an item that is not known is reported and
//! ends the reading of that attribute.

use vstd::prelude::*;
use vstd::string::StringExecFns;
use crate::derive::ast::Attribute;
use crate::derive::ast::CompileError;
use crate::derive::ast::DeriveInput;
use crate::derive::ast::InputField;
use crate::derive::ast::InputVariant;
use crate::derive::ast::Lit;
use crate::derive::ast::Meta;
use crate::derive::ast::MetaItem;
use crate::derive::ast::NestedMeta;
use crate::derive::ast::messages;
use crate::derive::ast::BSON;
use crate::derive::ast::COLLECTION;
use crate::derive::ast::FIELD;
use crate::derive::ast::FILTER;
use crate::derive::ast::FROM;
use crate::derive::ast::INTO;
use crate::derive::ast::MONGO;
use crate::derive::ast::OID;
use crate::derive::ast::SERDE;
use crate::derive::ast::SKIP;
use crate::derive::ast::UPDATE;

verus! {

/// How the documents of a record type are converted.
#[derive(Clone, Copy, Debug, PartialEq, Eq, Structural)]
pub enum BsonMode {
    /// Field by field, through the conversions of this crate.
    Convert,
    /// As a whole, through the generic serialization framework.
    Serde,
}

/// The options of a record type.
#[derive(Debug, PartialEq, Eq)]
pub struct Container {
    pub bson: BsonMode,
    pub collection: Option<String>,
    pub field: bool,
    pub filter: bool,
    pub from: bool,
    pub into: bool,
    pub oid: bool,
    pub update: bool,
}

/// The options of a field.
#[derive(Clone, Copy, Debug, PartialEq, Eq, Structural)]
pub struct Field {
    pub serde: bool,
    pub skip: bool,
}

/// The options of a variant: there are none.
#[derive(Clone, Copy, Debug, PartialEq, Eq, Structural)]
pub struct Variant {}

/// Where an attribute stands and what it is named.
#[derive(Clone, Copy, Debug, PartialEq, Eq, Structural)]
pub enum Scope {
    /// `bson` on a type.
    BsonContainer,
    /// `mongo` on a type.
    MongoContainer,
    /// `bson` on a field.
    BsonField,
    /// `mongo` on a field.
    MongoField,
}

/// The options read so far, with the problems found so far.
pub struct Options {
    pub bson: BsonMode,
    pub collection: Option<String>,
    pub field: bool,
    pub filter: bool,
    pub from: bool,
    pub into: bool,
    pub oid: bool,
    pub update: bool,
    pub serde: bool,
    pub skip: bool,
    pub errors: Vec<CompileError>,
}

/// The mathematical value of [`Options`].
pub struct OptionsView {
    pub bson: BsonMode,
    pub collection: Option<String>,
    pub field: bool,
    pub filter: bool,
    pub from: bool,
    pub into: bool,
    pub oid: bool,
    pub update: bool,
    pub serde: bool,
    pub skip: bool,
    pub errors: Seq<Seq<char>>,
}

impl View for Options {
    type V = OptionsView;

    open spec fn view(&self) -> OptionsView {
        OptionsView {
            bson: self.bson,
            collection: self.collection,
            field: self.field,
            filter: self.filter,
            from: self.from,
            into: self.into,
            oid: self.oid,
            update: self.update,
            serde: self.serde,
            skip: self.skip,
            errors: messages(self.errors@),
        }
    }
}

/// The options before any attribute is read.
pub open spec fn no_options() -> OptionsView {
    OptionsView {
        bson: BsonMode::Convert,
        collection: None,
        field: false,
        filter: false,
        from: false,
        into: false,
        oid: false,
        update: false,
        serde: false,
        skip: false,
        errors: Seq::empty(),
    }
}

/// The conversion mode that a word names, if it names one.
pub open spec fn bson_mode_spec(s: Seq<char>) -> Option<BsonMode> {
    if s == "convert"@ {
        Some(BsonMode::Convert)
    } else if s == "serde"@ {
        Some(BsonMode::Serde)
    } else {
        None
    }
}

impl BsonMode {
    /// Reads a conversion mode from its name, `convert` or `serde`. Any other
    /// word is refused with a message that quotes it.
    pub fn from_str(s: &str) -> (r: Result<BsonMode, String>)
        ensures
            match r {
                Ok(mode) => bson_mode_spec(s@) == Some(mode),
                Err(message) => bson_mode_spec(s@).is_none() && message@
                    == "unknown `BsonMode` variant "@ + s@,
            },
    {
        let word = s.to_owned();
        if word == String::from_str("convert") {
            Ok(BsonMode::Convert)
        } else if word == String::from_str("serde") {
            Ok(BsonMode::Serde)
        } else {
            Err(String::from_str("unknown `BsonMode` variant ").concat(s))
        }
    }
}

impl Scope {
    /// The name of the attributes of this scope.
    pub open spec fn attribute(self) -> Seq<char> {
        match self {
            Scope::BsonContainer | Scope::BsonField => BSON@,
            Scope::MongoContainer | Scope::MongoField => MONGO@,
        }
    }

    /// What messages call an attribute of this scope.
    pub open spec fn described(self) -> Seq<char> {
        match self {
            Scope::BsonContainer => "bson container attribute"@,
            Scope::MongoContainer => "mongo container attribute"@,
            Scope::BsonField => "bson field attribute"@,
            Scope::MongoField => "mongo field attribute"@,
        }
    }

    /// The name of the attributes of this scope.
    pub fn attribute_name(self) -> (s: &'static str)
        ensures
            s@ == self.attribute(),
    {
        match self {
            Scope::BsonContainer | Scope::BsonField => BSON,
            Scope::MongoContainer | Scope::MongoField => MONGO,
        }
    }

    /// What messages call an attribute of this scope.
    pub fn description(self) -> (s: &'static str)
        ensures
            s@ == self.described(),
    {
        match self {
            Scope::BsonContainer => "bson container attribute",
            Scope::MongoContainer => "mongo container attribute",
            Scope::BsonField => "bson field attribute",
            Scope::MongoField => "mongo field attribute",
        }
    }
}

/// The word that names an item.
pub open spec fn item_path(item: MetaItem) -> Seq<char> {
    match item {
        MetaItem::Path(path) => path@,
        MetaItem::NameValue { path, lit } => path@,
        MetaItem::List(path) => path@,
    }
}

/// The string that a literal holds, or the message that says why it holds
/// none for the option `attr_name`: a string literal with a suffix, and
/// anything that is no string literal, are refused.
pub open spec fn lit_str_spec(attr_name: Seq<char>, lit: Lit) -> Result<String, Seq<char>> {
    match lit {
        Lit::Str { value, suffix } => if suffix@.len() == 0 {
            Ok(value)
        } else {
            Err("unexpected suffix `"@ + suffix@ + "` on string literal"@)
        },
        Lit::Other => Err(
            "expected mongo "@ + attr_name + " attribute to be a string: `"@ + attr_name
                + " = \"...\"`"@,
        ),
    }
}

/// The string that a literal holds.
pub fn get_lit_str(attr_name: &'static str, lit: &Lit) -> (r: Result<String, CompileError>)
    ensures
        match r {
            Ok(s) => lit_str_spec(attr_name@, *lit) == Ok::<String, Seq<char>>(s),
            Err(e) => lit_str_spec(attr_name@, *lit) == Err::<String, Seq<char>>(e.message@),
        },
{
    match lit {
        Lit::Str { value, suffix } => {
            if suffix.as_str().unicode_len() == 0 {
                Ok(value.clone())
            } else {
                Err(
                    CompileError {
                        message: String::from_str("unexpected suffix `").concat(
                            suffix.as_str(),
                        ).concat("` on string literal"),
                    },
                )
            }
        },
        Lit::Other => Err(
            CompileError {
                message: String::from_str("expected mongo ").concat(attr_name).concat(
                    " attribute to be a string: `",
                ).concat(attr_name).concat(" = \"...\"`"),
            },
        ),
    }
}

/// The options with one more problem.
pub open spec fn with_error(o: OptionsView, message: Seq<char>) -> OptionsView {
    OptionsView { errors: o.errors.push(message), ..o }
}

/// The message for an item that the scope does not know.
pub open spec fn unknown_spec(scope: Scope, path: Seq<char>) -> Seq<char> {
    "unknown "@ + scope.described() + " `"@ + path + "`"@
}

/// The message for a literal where a named item should stand.
pub open spec fn literal_spec(scope: Scope) -> Seq<char> {
    "unexpected literal in "@ + scope.described()
}

/// The message for an attribute of the scope that is not a list.
pub open spec fn expected_list_spec(scope: Scope) -> Seq<char> {
    "expected #["@ + scope.attribute() + "(...)]"@
}

/// Whether the scope knows the item: whether reading goes on after it.
pub open spec fn known(scope: Scope, item: NestedMeta) -> bool {
    match item {
        NestedMeta::Lit(_) => false,
        NestedMeta::Meta(m) => match scope {
            Scope::BsonContainer => m is Path && (item_path(m) == FROM@ || item_path(m) == INTO@),
            Scope::MongoContainer => (m is NameValue && (item_path(m) == BSON@ || item_path(m)
                == COLLECTION@)) || (m is Path && (item_path(m) == FIELD@ || item_path(m)
                == FILTER@ || item_path(m) == OID@ || item_path(m) == UPDATE@)),
            Scope::BsonField => m is Path && item_path(m) == SERDE@,
            Scope::MongoField => m is Path && (item_path(m) == SERDE@ || item_path(m) == SKIP@),
        },
    }
}

/// The options after one item of an attribute of the scope is read.
pub open spec fn apply_item(scope: Scope, o: OptionsView, item: NestedMeta) -> OptionsView {
    match item {
        NestedMeta::Lit(_) => with_error(o, literal_spec(scope)),
        NestedMeta::Meta(m) => if !known(scope, item) {
            with_error(o, unknown_spec(scope, item_path(m)))
        } else {
            match scope {
                Scope::BsonContainer => if item_path(m) == FROM@ {
                    OptionsView { from: true, ..o }
                } else {
                    OptionsView { into: true, ..o }
                },
                Scope::MongoContainer => if m is NameValue && item_path(m) == BSON@ {
                    match lit_str_spec(BSON@, m->lit) {
                        Ok(s) => match bson_mode_spec(s@) {
                            Some(mode) => OptionsView { bson: mode, ..o },
                            None => with_error(
                                o,
                                "unknown mongo container attribute value `"@ + s@ + "`"@,
                            ),
                        },
                        Err(message) => with_error(o, message),
                    }
                } else if m is NameValue {
                    match lit_str_spec(COLLECTION@, m->lit) {
                        Ok(s) => OptionsView { collection: Some(s), ..o },
                        Err(message) => with_error(o, message),
                    }
                } else if item_path(m) == FIELD@ {
                    OptionsView { field: true, ..o }
                } else if item_path(m) == FILTER@ {
                    OptionsView { filter: true, ..o }
                } else if item_path(m) == OID@ {
                    OptionsView { oid: true, ..o }
                } else {
                    OptionsView { update: true, ..o }
                },
                Scope::BsonField => OptionsView { serde: true, ..o },
                Scope::MongoField => if item_path(m) == SERDE@ {
                    OptionsView { serde: true, ..o }
                } else {
                    OptionsView { skip: true, ..o }
                },
            }
        },
    }
}

/// The options after the items of one attribute are read from position
/// `from` on: in order, up to and including the first that is not known.
pub open spec fn apply_items(scope: Scope, o: OptionsView, items: Seq<NestedMeta>, from: int)
    -> OptionsView
    decreases items.len() - from,
{
    if from < 0 || from >= items.len() {
        o
    } else if known(scope, items[from]) {
        apply_items(scope, apply_item(scope, o, items[from]), items, from + 1)
    } else {
        apply_item(scope, o, items[from])
    }
}

/// The options after one attribute is read: an attribute of another name
/// changes nothing, one that is no list is a problem.
pub open spec fn apply_attribute(scope: Scope, o: OptionsView, attr: Attribute) -> OptionsView {
    if attr.path@ != scope.attribute() {
        o
    } else {
        match attr.meta {
            Meta::List(items) => apply_items(scope, o, items@, 0),
            _ => with_error(o, expected_list_spec(scope)),
        }
    }
}

/// The options after all attributes are read for the scope, in order.
pub open spec fn apply_attributes(scope: Scope, o: OptionsView, attrs: Seq<Attribute>)
    -> OptionsView
    decreases attrs.len(),
{
    if attrs.len() == 0 {
        o
    } else {
        apply_attribute(scope, apply_attributes(scope, o, attrs.drop_last()), attrs.last())
    }
}

/// What the attributes of a type say: first all `bson` attributes are read,
/// then all `mongo` attributes.
pub open spec fn container_read(attrs: Seq<Attribute>) -> OptionsView {
    apply_attributes(
        Scope::MongoContainer,
        apply_attributes(Scope::BsonContainer, no_options(), attrs),
        attrs,
    )
}

/// The problems of the attributes of a type.
pub open spec fn container_errors(attrs: Seq<Attribute>) -> Seq<Seq<char>> {
    container_read(attrs).errors
}

/// The options of a type. Where neither direction of conversion is asked
/// for, both are given.
pub open spec fn container_options(attrs: Seq<Attribute>) -> Container {
    let o = container_read(attrs);
    Container {
        bson: o.bson,
        collection: o.collection,
        field: o.field,
        filter: o.filter,
        from: o.from || !o.into,
        into: o.into || !o.from,
        oid: o.oid,
        update: o.update,
    }
}

/// What the attributes of a field say: first all `bson` attributes are read,
/// then all `mongo` attributes.
pub open spec fn field_read(attrs: Seq<Attribute>) -> OptionsView {
    apply_attributes(
        Scope::MongoField,
        apply_attributes(Scope::BsonField, no_options(), attrs),
        attrs,
    )
}

/// The problems of the attributes of a field.
pub open spec fn field_errors(attrs: Seq<Attribute>) -> Seq<Seq<char>> {
    field_read(attrs).errors
}

/// The options of a field.
pub open spec fn field_options(attrs: Seq<Attribute>) -> Field {
    let o = field_read(attrs);
    Field { serde: o.serde, skip: o.skip }
}

/// Whether two strings hold the same text.
fn same(a: &String, b: &str) -> (r: bool)
    ensures
        r == (a@ == b@),
{
    *a == b.to_owned()
}

impl Options {
    /// The options before any attribute is read.
    fn new() -> (o: Options)
        ensures
            o@ == no_options(),
    {
        let o = Options {
            bson: BsonMode::Convert,
            collection: None,
            field: false,
            filter: false,
            from: false,
            into: false,
            oid: false,
            update: false,
            serde: false,
            skip: false,
            errors: Vec::new(),
        };
        assert(messages(o.errors@) =~= Seq::empty());
        o
    }

    /// Records a problem.
    fn error(&mut self, message: String)
        ensures
            final(self)@ == with_error(old(self)@, message@),
    {
        self.errors.push(CompileError { message });
        assert(messages(self.errors@) =~= messages(old(self).errors@).push(message@));
    }

    /// Reads one item of an attribute of the scope, and says whether the
    /// scope knows it.
    fn apply_item(&mut self, scope: Scope, item: &NestedMeta) -> (go_on: bool)
        ensures
            final(self)@ == apply_item(scope, old(self)@, *item),
            go_on == known(scope, *item),
    {
        match item {
            NestedMeta::Lit(_) => {
                self.error(String::from_str("unexpected literal in ").concat(scope.description()));
                false
            },
            NestedMeta::Meta(m) => {
                let path: &String = match m {
                    MetaItem::Path(path) => path,
                    MetaItem::NameValue { path, lit } => path,
                    MetaItem::List(path) => path,
                };
                let mut known = true;
                match (scope, m) {
                    (Scope::BsonContainer, MetaItem::Path(_)) => {
                        if same(path, FROM) {
                            self.from = true;
                        } else if same(path, INTO) {
                            self.into = true;
                        } else {
                            known = false;
                        }
                    },
                    (Scope::MongoContainer, MetaItem::NameValue { path: _, lit }) => {
                        if same(path, BSON) {
                            match get_lit_str(BSON, lit) {
                                Ok(s) => match BsonMode::from_str(s.as_str()) {
                                    Ok(mode) => {
                                        self.bson = mode;
                                    },
                                    Err(_) => {
                                        self.error(
                                            String::from_str(
                                                "unknown mongo container attribute value `",
                                            ).concat(s.as_str()).concat("`"),
                                        );
                                    },
                                },
                                Err(e) => {
                                    self.error(e.message);
                                },
                            }
                        } else if same(path, COLLECTION) {
                            match get_lit_str(COLLECTION, lit) {
                                Ok(s) => {
                                    self.collection = Some(s);
                                },
                                Err(e) => {
                                    self.error(e.message);
                                },
                            }
                        } else {
                            known = false;
                        }
                    },
                    (Scope::MongoContainer, MetaItem::Path(_)) => {
                        if same(path, FIELD) {
                            self.field = true;
                        } else if same(path, FILTER) {
                            self.filter = true;
                        } else if same(path, OID) {
                            self.oid = true;
                        } else if same(path, UPDATE) {
                            self.update = true;
                        } else {
                            known = false;
                        }
                    },
                    (Scope::BsonField, MetaItem::Path(_)) => {
                        if same(path, SERDE) {
                            self.serde = true;
                        } else {
                            known = false;
                        }
                    },
                    (Scope::MongoField, MetaItem::Path(_)) => {
                        if same(path, SERDE) {
                            self.serde = true;
                        } else if same(path, SKIP) {
                            self.skip = true;
                        } else {
                            known = false;
                        }
                    },
                    _ => {
                        known = false;
                    },
                }
                if !known {
                    self.error(
                        String::from_str("unknown ").concat(scope.description()).concat(
                            " `",
                        ).concat(path.as_str()).concat("`"),
                    );
                }
                known
            },
        }
    }

    /// Reads one attribute for the scope.
    fn apply_attribute(&mut self, scope: Scope, attr: &Attribute)
        ensures
            final(self)@ == apply_attribute(scope, old(self)@, *attr),
    {
        if !same(&attr.path, scope.attribute_name()) {
            return ;
        }
        match &attr.meta {
            Meta::List(items) => {
                let mut i: usize = 0;
                while i < items.len()
                    invariant
                        i <= items.len(),
                        attr.path@ == scope.attribute(),
                        attr.meta is List,
                        attr.meta->List_0 == *items,
                        apply_items(scope, self@, items@, i as int) == apply_items(
                            scope,
                            old(self)@,
                            items@,
                            0,
                        ),
                    decreases items.len() - i,
                {
                    let ghost before = self@;
                    let go_on = self.apply_item(scope, &items[i]);
                    assert(apply_items(scope, before, items@, i as int) == if go_on {
                        apply_items(scope, self@, items@, i as int + 1)
                    } else {
                        self@
                    });
                    if !go_on {
                        return ;
                    }
                    i += 1;
                }
            },
            _ => {
                self.error(
                    String::from_str("expected #[").concat(scope.attribute_name()).concat(
                        "(...)]",
                    ),
                );
            },
        }
    }

    /// Reads all attributes for the scope, in order.
    fn apply_attributes(&mut self, scope: Scope, attrs: &Vec<Attribute>)
        ensures
            final(self)@ == apply_attributes(scope, old(self)@, attrs@),
    {
        let mut i: usize = 0;
        assert(attrs@.take(0) =~= Seq::empty());
        while i < attrs.len()
            invariant
                i <= attrs.len(),
                self@ == apply_attributes(scope, old(self)@, attrs@.take(i as int)),
            decreases attrs.len() - i,
        {
            proof {
                assert(attrs@.take(i as int + 1).drop_last() =~= attrs@.take(i as int));
                assert(attrs@.take(i as int + 1).last() == attrs@[i as int]);
            }
            self.apply_attribute(scope, &attrs[i]);
            i += 1;
        }
        assert(attrs@.take(attrs@.len() as int) =~= attrs@);
    }
}

/// The items of a `bson` attribute: none for an attribute of another name.
/// A `bson` attribute that is no list is refused.
pub fn get_bson_meta_items(attr: &Attribute) -> (r: Result<Option<&Vec<NestedMeta>>, CompileError>)
    ensures
        meta_items_read(Scope::BsonContainer, *attr, r),
{
    get_meta_items(Scope::BsonContainer, attr)
}

/// The items of a `mongo` attribute: none for an attribute of another name.
/// A `mongo` attribute that is no list is refused.
pub fn get_mongo_meta_items(attr: &Attribute) -> (r: Result<
    Option<&Vec<NestedMeta>>,
    CompileError,
>)
    ensures
        meta_items_read(Scope::MongoContainer, *attr, r),
{
    get_meta_items(Scope::MongoContainer, attr)
}

/// What reading the items of an attribute for a scope gives.
pub open spec fn meta_items_read(
    scope: Scope,
    attr: Attribute,
    r: Result<Option<&Vec<NestedMeta>>, CompileError>,
) -> bool {
    if attr.path@ != scope.attribute() {
        r == Ok::<Option<&Vec<NestedMeta>>, CompileError>(None)
    } else {
        match attr.meta {
            Meta::List(items) => r == Ok::<Option<&Vec<NestedMeta>>, CompileError>(Some(&items)),
            _ => r is Err && r->Err_0.message@ == expected_list_spec(scope),
        }
    }
}

/// The items of an attribute of the scope.
fn get_meta_items(scope: Scope, attr: &Attribute) -> (r: Result<
    Option<&Vec<NestedMeta>>,
    CompileError,
>)
    ensures
        meta_items_read(scope, *attr, r),
{
    if !same(&attr.path, scope.attribute_name()) {
        return Ok(None);
    }
    match &attr.meta {
        Meta::List(items) => Ok(Some(items)),
        _ => Err(
            CompileError {
                message: String::from_str("expected #[").concat(scope.attribute_name()).concat(
                    "(...)]",
                ),
            },
        ),
    }
}

impl Container {
    /// Reads the options of a type from its attributes.
    ///
    /// Where any attribute has a problem, all problems are returned instead,
    /// in the order in which they were found.
    pub fn from(item: &DeriveInput) -> (r: Result<Container, Vec<CompileError>>)
        ensures
            match r {
                Ok(c) => container_errors(item.attrs@).len() == 0 && c == container_options(
                    item.attrs@,
                ),
                Err(errors) => errors@.len() > 0 && messages(errors@) == container_errors(
                    item.attrs@,
                ),
            },
    {
        let mut o = Options::new();
        o.apply_attributes(Scope::BsonContainer, &item.attrs);
        o.apply_attributes(Scope::MongoContainer, &item.attrs);
        let mut from = o.from;
        let mut into = o.into;
        if !from && !into {
            from = true;
            into = true;
        }
        assert(o.errors@.len() == messages(o.errors@).len());
        if o.errors.len() > 0 {
            return Err(o.errors);
        }
        Ok(
            Container {
                bson: o.bson,
                collection: o.collection,
                field: o.field,
                filter: o.filter,
                from,
                into,
                oid: o.oid,
                update: o.update,
            },
        )
    }
}

impl Field {
    /// Reads the options of a field from its attributes.
    ///
    /// Where any attribute has a problem, all problems are returned instead,
    /// in the order in which they were found.
    pub fn from(_index: usize, field: &InputField) -> (r: Result<Field, Vec<CompileError>>)
        ensures
            match r {
                Ok(f) => field_errors(field.attrs@).len() == 0 && f == field_options(
                    field.attrs@,
                ),
                Err(errors) => errors@.len() > 0 && messages(errors@) == field_errors(
                    field.attrs@,
                ),
            },
    {
        let mut o = Options::new();
        o.apply_attributes(Scope::BsonField, &field.attrs);
        o.apply_attributes(Scope::MongoField, &field.attrs);
        assert(o.errors@.len() == messages(o.errors@).len());
        if o.errors.len() > 0 {
            return Err(o.errors);
        }
        Ok(Field { serde: o.serde, skip: o.skip })
    }
}

impl Variant {
    /// Reads the options of a variant: there are none to read.
    pub fn from(_variant: &InputVariant) -> (v: Variant)
        ensures
            v == (Variant {  }),
    {
        Variant {  }
    }
}

} // verus!
