use std::collections::HashMap;
use std::convert::TryFrom;
use std::time::Duration;

use mongod::blocking::{Request, Response};
use mongod::bson::{Bson, Document, ObjectId};
use mongod::ext;
use mongod::options::{
    Collation, CursorType, DeleteOptions, DeleteResult, FindOptions, Hint, InsertManyOptions,
    InsertManyResult, ReadConcern, ReadConcernLevel, ReadPreference, ReplaceOptions,
    SelectionCriteria, UpdateOptions, UpdateResult, WriteConcern,
};
use mongod::query::{Delete, Find, Insert, Replace, Update};
use mongod::sort::{Order, Sort};
use mongod::{
    AsField, AsFilter, AsUpdate, Client, Collection, Comparator, Error, ErrorKind, Field, Filter,
    Query, Updates,
};

pub struct User {
    pub name: String,
    pub age: Option<u32>,
}

impl Collection for User {
    const COLLECTION: &'static str = "users";

    fn from_document(document: Document) -> Result<Self, Error> {
        let mut document = document;
        let name = match document.remove("name") {
            Some(Bson::String(s)) => s,
            _ => return Err(Error::invalid_document("missing required field `name`")),
        };
        Ok(User { name, age: None })
    }

    fn into_document(self) -> Result<Document, Error> {
        if self.name.is_empty() {
            return Err(Error::invalid_document("a user needs a name"));
        }
        let mut doc = Document::new();
        doc.insert("name".to_owned(), Bson::String(self.name));
        doc.insert("age".to_owned(), ext::bson::Bson::try_from(self.age)?.0);
        Ok(doc)
    }
}

pub enum UserField {
    Name,
    Age,
}

impl Field for UserField {}

impl AsField<UserField> for User {}

impl From<UserField> for String {
    fn from(field: UserField) -> String {
        match field {
            UserField::Name => "name".to_owned(),
            UserField::Age => "age".to_owned(),
        }
    }
}

#[derive(Default)]
pub struct UserFilter {
    pub name: Option<Comparator<String>>,
    pub broken: bool,
}

impl Filter for UserFilter {
    fn new() -> Self {
        Self::default()
    }

    fn into_document(self) -> Result<Document, Error> {
        if self.broken {
            return Err(Error::invalid_document("broken filter"));
        }
        let mut doc = Document::new();
        if let Some(value) = self.name {
            doc.insert("name".to_owned(), ext::bson::Bson::try_from(value)?.0);
        }
        Ok(doc)
    }
}

impl AsFilter<UserFilter> for User {
    fn filter() -> UserFilter {
        UserFilter::default()
    }

    fn into_filter(self) -> UserFilter {
        UserFilter {
            name: Some(Comparator::Eq(self.name)),
            broken: false,
        }
    }
}

pub struct UserUpdate {
    pub name: Option<String>,
    pub age: Option<Option<u32>>,
    pub broken: bool,
}

impl mongod::Update for UserUpdate {
    fn new() -> Self {
        UserUpdate {
            name: None,
            age: None,
            broken: false,
        }
    }

    fn into_document(self) -> Result<Document, Error> {
        if self.broken {
            return Err(Error::invalid_document("broken update"));
        }
        let mut doc = Document::new();
        if let Some(value) = self.name {
            doc.insert("name".to_owned(), Bson::String(value));
        }
        if let Some(value) = self.age {
            doc.insert("age".to_owned(), ext::bson::Bson::try_from(value)?.0);
        }
        Ok(doc)
    }
}

impl AsUpdate<UserUpdate> for User {
    fn update() -> UserUpdate {
        <UserUpdate as mongod::Update>::new()
    }

    fn into_update(self) -> UserUpdate {
        UserUpdate {
            name: Some(self.name),
            age: Some(self.age),
            broken: false,
        }
    }
}

fn document(entries: Vec<(&str, Bson)>) -> Document {
    let mut doc = Document::new();
    for (k, v) in entries {
        doc.insert(k.to_owned(), v);
    }
    doc
}

fn text(s: &str) -> Bson {
    Bson::String(s.to_owned())
}

fn named(name: &str) -> UserFilter {
    UserFilter {
        name: Some(Comparator::Eq(name.to_owned())),
        broken: false,
    }
}

fn broken() -> UserFilter {
    UserFilter {
        name: None,
        broken: true,
    }
}

fn name_filter(name: &str) -> Document {
    document(vec![(
        "name",
        Bson::Document(document(vec![("$eq", text(name))])),
    )])
}

fn collation() -> Collation {
    Collation {
        locale: "en".to_owned(),
        strength: None,
        case_level: None,
        case_first: None,
        numeric_ordering: Some(true),
        alternate: None,
        max_variable: None,
        normalization: None,
        backwards: None,
    }
}

fn concern() -> WriteConcern {
    WriteConcern {
        w: None,
        w_timeout: Some(5),
        journal: Some(true),
    }
}

fn no_delete_options() -> DeleteOptions {
    DeleteOptions {
        collation: None,
        write_concern: None,
        hint: None,
    }
}

fn wrong() -> Result<Response<u8>, Error> {
    Ok(Response::Find(0u8))
}

fn failed() -> Result<Response<u8>, Error> {
    Err(mongod::error::mongodb("connection refused".to_owned()))
}

fn is_wrong(e: &Error) {
    assert_eq!(*e.kind(), ErrorKind::Runtime);
    assert_eq!(
        e.to_string(),
        "runtime error: incorrect response from blocking client"
    );
}

fn is_failed(e: &Error) {
    assert_eq!(*e.kind(), ErrorKind::Mongodb);
    assert_eq!(e.to_string(), "mongodb error: connection refused");
}

#[test]
fn delete_asks_for_what_was_built() {
    let r: Request = Delete::<User>::new().request();
    match r {
        Request::Delete(many, name, filter, options) => {
            assert!(many);
            assert_eq!(name, "users");
            assert_eq!(filter, Document::new());
            assert_eq!(options, no_delete_options());
        }
        _ => panic!("a delete was asked for"),
    }
    let r: Request = Query::delete::<User>()
        .collation(collation())
        .hint(Hint::Name("by_name".to_owned()))
        .write_concern(concern())
        .many(false)
        .filter(named("foo"))
        .unwrap()
        .request();
    match r {
        Request::Delete(many, name, filter, options) => {
            assert!(!many);
            assert_eq!(name, "users");
            assert_eq!(filter, name_filter("foo"));
            assert_eq!(
                options,
                DeleteOptions {
                    collation: Some(collation()),
                    write_concern: Some(concern()),
                    hint: Some(Hint::Name("by_name".to_owned())),
                }
            );
        }
        _ => panic!("a delete was asked for"),
    }
    let e = Delete::<User>::default().filter(broken()).err().unwrap();
    assert_eq!(e.to_string(), "invalid document: broken filter");
}

#[test]
fn delete_returns_the_count() {
    let ok: Result<Response<u8>, Error> = Ok(Response::Delete(DeleteResult { deleted_count: 3 }));
    assert_eq!(Delete::<User>::blocking(ok).unwrap(), 3);
    is_wrong(&Delete::<User>::blocking(wrong()).err().unwrap());
    is_failed(&Delete::<User>::blocking(failed()).err().unwrap());
    let one: Result<Response<u8>, Error> = Ok(Response::Delete(DeleteResult { deleted_count: 1 }));
    assert_eq!(Client::delete_one_outcome::<User, u8>(one).unwrap(), true);
    let none: Result<Response<u8>, Error> =
        Ok(Response::Delete(DeleteResult { deleted_count: 0 }));
    assert_eq!(Client::delete_one_outcome::<User, u8>(none).unwrap(), false);
    is_wrong(&Client::delete_one_outcome::<User, u8>(wrong()).err().unwrap());
}

#[test]
fn find_asks_for_what_was_built() {
    let r: Request = Query::find::<User>().request();
    match r {
        Request::Find(name, filter, options) => {
            assert_eq!(name, "users");
            assert_eq!(filter, None);
            assert_eq!(options, FindOptions::new());
        }
        _ => panic!("a find was asked for"),
    }
    let mut sort = Sort::new();
    sort.push(UserField::Name, Order::Asc);
    sort.push(UserField::Age, Order::Desc);
    let criteria = SelectionCriteria::ReadPreference(ReadPreference::Primary);
    let read_concern = ReadConcern {
        level: ReadConcernLevel::Local,
    };
    let r: Request = Find::<User>::new()
        .allow_partial_results(true)
        .batch_size(10)
        .collation(collation())
        .comment("why".to_owned())
        .cursor_type(CursorType::Tailable)
        .filter(named("foo"))
        .unwrap()
        .hint(Hint::Keys(document(vec![("name", Bson::Int32(1))])))
        .limit(5)
        .max(document(vec![("age", Bson::Int32(99))]))
        .max_await_time(Duration::from_millis(7))
        .max_scan(100)
        .max_time(Duration::from_secs(1))
        .min(document(vec![("age", Bson::Int32(1))]))
        .no_cursor_timeout(true)
        .projection(document(vec![("name", Bson::Int32(1))]))
        .read_concern(read_concern.clone())
        .return_key(false)
        .selection_criteria(criteria.clone())
        .show_record_id(true)
        .skip(2)
        .sort(sort)
        .request();
    match r {
        Request::Find(name, filter, options) => {
            assert_eq!(name, "users");
            assert_eq!(filter, Some(name_filter("foo")));
            assert_eq!(
                options,
                FindOptions {
                    allow_disk_use: None,
                    allow_partial_results: Some(true),
                    batch_size: Some(10),
                    comment: Some("why".to_owned()),
                    cursor_type: Some(CursorType::Tailable),
                    hint: Some(Hint::Keys(document(vec![("name", Bson::Int32(1))]))),
                    limit: Some(5),
                    max: Some(document(vec![("age", Bson::Int32(99))])),
                    max_await_time: Some(Duration::from_millis(7)),
                    max_scan: Some(100),
                    max_time: Some(Duration::from_secs(1)),
                    min: Some(document(vec![("age", Bson::Int32(1))])),
                    no_cursor_timeout: Some(true),
                    projection: Some(document(vec![("name", Bson::Int32(1))])),
                    read_concern: Some(read_concern),
                    return_key: Some(false),
                    selection_criteria: Some(criteria),
                    show_record_id: Some(true),
                    skip: Some(2),
                    sort: Some(document(vec![
                        ("name", Bson::Int32(1)),
                        ("age", Bson::Int32(-1))
                    ])),
                    collation: Some(collation()),
                }
            );
        }
        _ => panic!("a find was asked for"),
    }
    let ok: Result<Response<u8>, Error> = Ok(Response::Find(9u8));
    assert_eq!(Find::<User>::blocking(ok).unwrap(), 9);
    let other: Result<Response<u8>, Error> =
        Ok(Response::Delete(DeleteResult { deleted_count: 3 }));
    is_wrong(&Find::<User>::blocking(other).err().unwrap());
    is_failed(&Find::<User>::blocking(failed()).err().unwrap());
}

#[test]
fn allow_disk_use_sets_its_own_option_only() {
    let r: Request = Find::<User>::default().allow_disk_use(true).request();
    match r {
        Request::Find(_, filter, options) => {
            assert_eq!(options.allow_disk_use, Some(true));
            assert_eq!(options.allow_partial_results, None);
            assert_eq!(
                options,
                FindOptions {
                    allow_disk_use: Some(true),
                    ..FindOptions::new()
                }
            );
            assert_eq!(filter, None);
        }
        _ => panic!("a find was asked for"),
    }
    let r: Request = Find::<User>::default()
        .allow_partial_results(false)
        .allow_disk_use(true)
        .allow_disk_use(false)
        .request();
    match r {
        Request::Find(_, _, options) => {
            assert_eq!(options.allow_disk_use, Some(false));
            assert_eq!(options.allow_partial_results, Some(false));
        }
        _ => panic!("a find was asked for"),
    }
}

#[test]
fn insert_writes_every_record() {
    let users = vec![
        User {
            name: "foo".to_owned(),
            age: None,
        },
        User {
            name: "bar".to_owned(),
            age: Some(3),
        },
    ];
    let r: Request = Query::insert::<User>()
        .bypass_document_validation(true)
        .ordered(false)
        .write_concern(concern())
        .request(users)
        .unwrap();
    match r {
        Request::Insert(name, documents, options) => {
            assert_eq!(name, "users");
            assert_eq!(
                documents,
                vec![
                    document(vec![("name", text("foo")), ("age", Bson::Null)]),
                    document(vec![("name", text("bar")), ("age", Bson::Int32(3))]),
                ]
            );
            assert_eq!(
                options,
                InsertManyOptions {
                    bypass_document_validation: Some(true),
                    ordered: Some(false),
                    write_concern: Some(concern()),
                }
            );
        }
        _ => panic!("an insert was asked for"),
    }
    let users = vec![
        User {
            name: "foo".to_owned(),
            age: None,
        },
        User {
            name: String::new(),
            age: None,
        },
    ];
    let e = Insert::<User>::default()
        .request(users)
        .err()
        .unwrap();
    assert_eq!(e.to_string(), "invalid document: a user needs a name");
}

#[test]
fn insert_returns_the_identifiers() {
    let a = ObjectId { bytes: [1; 12] };
    let b = ObjectId { bytes: [2; 12] };
    let mut ids: HashMap<usize, Bson> = HashMap::new();
    ids.insert(0, Bson::ObjectId(a));
    ids.insert(1, Bson::Int32(5));
    ids.insert(2, Bson::ObjectId(b));
    let ok = || -> Result<Response<u8>, Error> {
        Ok(Response::Insert(InsertManyResult {
            inserted_ids: ids.clone(),
        }))
    };
    assert_eq!(Insert::<User>::blocking(ok()).unwrap(), ids);
    let mut objects: HashMap<usize, ObjectId> = HashMap::new();
    objects.insert(0, a);
    objects.insert(2, b);
    assert_eq!(Client::insert_outcome::<User, u8>(ok()).unwrap(), objects);
    let mut one: HashMap<usize, Bson> = HashMap::new();
    one.insert(0, Bson::ObjectId(a));
    let single: Result<Response<u8>, Error> =
        Ok(Response::Insert(InsertManyResult { inserted_ids: one }));
    assert_eq!(Client::insert_one_outcome::<User, u8>(single).unwrap(), a);
    let mut other: HashMap<usize, Bson> = HashMap::new();
    other.insert(0, Bson::Int32(5));
    let odd: Result<Response<u8>, Error> =
        Ok(Response::Insert(InsertManyResult { inserted_ids: other }));
    let e = Client::insert_one_outcome::<User, u8>(odd).err().unwrap();
    assert_eq!(
        e.to_string(),
        "mongodb error: failed to insert document into mongo"
    );
    let empty: Result<Response<u8>, Error> = Ok(Response::Insert(InsertManyResult {
        inserted_ids: HashMap::new(),
    }));
    assert!(Client::insert_one_outcome::<User, u8>(empty).is_err());
    assert_eq!(
        Client::first_identifier(&vec![(4, Bson::ObjectId(b)), (0, Bson::ObjectId(a))]).unwrap(),
        b
    );
    assert!(Client::first_identifier(&vec![(0, Bson::Null), (1, Bson::ObjectId(a))]).is_err());
    is_wrong(&Insert::<User>::blocking(wrong()).err().unwrap());
    is_failed(&Client::insert_outcome::<User, u8>(failed()).err().unwrap());
}

#[test]
fn replace_asks_for_what_was_built() {
    let user = User {
        name: "foo".to_owned(),
        age: Some(0),
    };
    let r: Request = Query::replace::<User>()
        .bypass_document_validation(false)
        .collation(collation())
        .filter(named("foo"))
        .unwrap()
        .hint(Hint::Name("i".to_owned()))
        .upsert(true)
        .write_concern(concern())
        .request(user)
        .unwrap();
    match r {
        Request::Replace(name, filter, doc, options) => {
            assert_eq!(name, "users");
            assert_eq!(filter, name_filter("foo"));
            assert_eq!(
                doc,
                document(vec![("name", text("foo")), ("age", Bson::Int32(0))])
            );
            assert_eq!(
                options,
                ReplaceOptions {
                    bypass_document_validation: Some(false),
                    upsert: Some(true),
                    collation: Some(collation()),
                    hint: Some(Hint::Name("i".to_owned())),
                    write_concern: Some(concern()),
                }
            );
        }
        _ => panic!("a replace was asked for"),
    }
    let nameless = User {
        name: String::new(),
        age: None,
    };
    assert!(Replace::<User>::default()
        .request(nameless)
        .is_err());
    let result = |modified| -> Result<Response<u8>, Error> {
        Ok(Response::Replace(UpdateResult {
            matched_count: 1,
            modified_count: modified,
            upserted_id: None,
        }))
    };
    assert_eq!(Replace::<User>::blocking(result(1)).unwrap(), true);
    assert_eq!(Replace::<User>::blocking(result(0)).unwrap(), false);
    is_wrong(&Replace::<User>::blocking(wrong()).err().unwrap());
}

fn set_age() -> Updates<UserUpdate> {
    Updates {
        set: Some(UserUpdate {
            name: None,
            age: Some(Some(0)),
            broken: false,
        }),
        unset: None,
    }
}

#[test]
fn update_asks_for_what_was_built() {
    let r: Request = Query::update::<User>()
        .array_filters(vec![document(vec![("x", Bson::Int32(1))])])
        .bypass_document_validation(true)
        .collation(collation())
        .filter(named("foo"))
        .unwrap()
        .hint(Hint::Name("i".to_owned()))
        .many(false)
        .upsert(false)
        .write_concern(concern())
        .request(set_age())
        .unwrap();
    match r {
        Request::Update(many, name, filter, updates, options) => {
            assert!(!many);
            assert_eq!(name, "users");
            assert_eq!(filter, name_filter("foo"));
            assert_eq!(
                updates,
                document(vec![(
                    "$set",
                    Bson::Document(document(vec![("age", Bson::Int32(0))]))
                )])
            );
            assert_eq!(
                options,
                UpdateOptions {
                    array_filters: Some(vec![document(vec![("x", Bson::Int32(1))])]),
                    bypass_document_validation: Some(true),
                    upsert: Some(false),
                    collation: Some(collation()),
                    hint: Some(Hint::Name("i".to_owned())),
                    write_concern: Some(concern()),
                }
            );
        }
        _ => panic!("an update was asked for"),
    }
    let r: Request = Update::<User>::default().request(set_age()).unwrap();
    match r {
        Request::Update(many, _, filter, _, _) => {
            assert!(many);
            assert_eq!(filter, Document::new());
        }
        _ => panic!("an update was asked for"),
    }
    let result = |matched| -> Result<Response<u8>, Error> {
        Ok(Response::Update(UpdateResult {
            matched_count: matched,
            modified_count: 0,
            upserted_id: None,
        }))
    };
    assert_eq!(Update::<User>::blocking(result(4)).unwrap(), 4);
    assert_eq!(
        Client::update_one_outcome::<User, u8>(result(1)).unwrap(),
        true
    );
    assert_eq!(
        Client::update_one_outcome::<User, u8>(result(0)).unwrap(),
        false
    );
    is_wrong(&Update::<User>::blocking(wrong()).err().unwrap());
}

#[test]
fn updates_are_written_under_their_operators() {
    let both = Updates {
        set: Some(UserUpdate {
            name: Some("bar".to_owned()),
            age: None,
            broken: false,
        }),
        unset: Some(UserUpdate {
            name: None,
            age: Some(None),
            broken: false,
        }),
    };
    assert_eq!(
        both.into_document().unwrap(),
        document(vec![
            (
                "$set",
                Bson::Document(document(vec![("name", text("bar"))]))
            ),
            (
                "$unset",
                Bson::Document(document(vec![("age", Bson::Null)]))
            ),
        ])
    );
    let nothing: Updates<UserUpdate> = Updates::default();
    assert_eq!(nothing.into_document().unwrap(), Document::new());
    let broken_set = Updates {
        set: Some(UserUpdate {
            name: None,
            age: None,
            broken: true,
        }),
        unset: None,
    };
    assert_eq!(
        broken_set.into_document().err().unwrap().to_string(),
        "invalid document: broken update"
    );
    let broken_unset = Updates {
        set: None,
        unset: Some(UserUpdate {
            name: None,
            age: None,
            broken: true,
        }),
    };
    assert!(mongod::Update::into_document(broken_unset).is_err());
}

#[test]
fn client_operations_compose_the_queries() {
    let client = Client::builder().build().unwrap();
    let r: Request = client.delete::<User, UserFilter>(None).unwrap();
    assert!(matches!(r, Request::Delete(true, "users", ref f, _) if *f == Document::new()));
    let r: Request = client
        .delete::<User, UserFilter>(Some(named("foo")))
        .unwrap();
    assert!(matches!(r, Request::Delete(true, "users", ref f, _) if *f == name_filter("foo")));
    let r: Request = client.delete_one::<User, _>(named("foo")).unwrap();
    assert!(matches!(r, Request::Delete(false, "users", ref f, _) if *f == name_filter("foo")));
    assert!(client.delete_one::<User, _>(broken()).is_err());
    let r: Request = client.find::<User, UserFilter>(None).unwrap();
    assert!(matches!(r, Request::Find("users", None, _)));
    let r: Request = client.find::<User, _>(Some(named("foo"))).unwrap();
    assert!(matches!(r, Request::Find("users", Some(ref f), _) if *f == name_filter("foo")));
    let r: Request = client
        .insert(vec![User {
            name: "foo".to_owned(),
            age: None,
        }])
        .unwrap();
    assert!(matches!(r, Request::Insert("users", ref d, _) if d.len() == 1));
    let r: Request = client
        .replace_one(
            named("foo"),
            User {
                name: "bar".to_owned(),
                age: None,
            },
        )
        .unwrap();
    assert!(matches!(r, Request::Replace("users", ref f, _, _) if *f == name_filter("foo")));
    let r: Request = client
        .update::<User, _, _>(named("foo"), set_age())
        .unwrap();
    assert!(matches!(r, Request::Update(true, "users", _, _, ref o) if o.upsert == None));
    let r: Request = client
        .update_one::<User, _, _>(named("foo"), set_age())
        .unwrap();
    assert!(matches!(r, Request::Update(false, "users", _, _, ref o) if o.upsert == None));
    let r: Request = client
        .upsert::<User, _, _>(named("foo"), set_age())
        .unwrap();
    assert!(matches!(r, Request::Update(true, "users", _, _, ref o) if o.upsert == Some(true)));
    let r: Request = client
        .upsert_one::<User, _, _>(named("foo"), set_age())
        .unwrap();
    assert!(matches!(r, Request::Update(false, "users", _, _, ref o) if o.upsert == Some(true)));
    assert!(client
        .update::<User, _, _>(broken(), set_age())
        .is_err());
}

#[test]
fn sorts_are_written_in_the_order_of_pushing() {
    let mut inner = Sort::new();
    inner.push(UserField::Age, Order::Desc);
    let mut sort = Sort::new();
    sort.push(UserField::Name, Order::Asc);
    sort.push(UserField::Age, Order::Nested(inner));
    sort.push(UserField::Name, Order::Desc);
    assert_eq!(
        sort.into_document(),
        document(vec![
            ("name", Bson::Int32(-1)),
            (
                "age",
                Bson::Document(document(vec![("age", Bson::Int32(-1))]))
            ),
        ])
    );
    let empty: Sort<UserField> = Sort::default();
    assert_eq!(empty.into_document(), Document::new());
    assert_eq!(Bson::from(Order::<UserField>::Asc), Bson::Int32(1));
    assert_eq!(
        mongod::sort::order_into_bson(Order::<UserField>::Desc),
        Bson::Int32(-1)
    );
}

#[test]
fn errors_say_their_kind_and_their_source() {
    let e = Error::new(ErrorKind::Bson);
    assert_eq!(e.to_string(), "bson error");
    assert_eq!(e.source(), None);
    let e = e.with("first".to_owned()).with("second".to_owned());
    assert_eq!(*e.kind(), ErrorKind::Bson);
    assert_eq!(e.source(), Some(&"second".to_owned()));
    assert_eq!(e.to_string(), "bson error: second");
    assert_eq!(
        mongod::error::bson("x".to_owned()).to_string(),
        "bson error: x"
    );
    assert_eq!(
        mongod::error::builder("x".to_owned()).to_string(),
        "builder error: x"
    );
    assert_eq!(
        mongod::error::mongodb("x".to_owned()).to_string(),
        "mongodb error: x"
    );
    assert_eq!(
        mongod::error::runtime("x".to_owned()).to_string(),
        "runtime error: x"
    );
    assert_eq!(
        Error::invalid_document("x").to_string(),
        "invalid document: x"
    );
    let de = ext::bson::de::Error::missing("age".to_owned());
    assert_eq!(
        Error::from(de).to_string(),
        "invalid document: 'age' is missing"
    );
    let ser = ext::bson::ser::Error::custom("no".to_owned());
    assert_eq!(ser.message(), "no");
    assert_eq!(Error::from(ser).to_string(), "invalid document: no");
    assert_eq!(
        ext::bson::de::Error::custom("odd".to_owned()).message(),
        "odd"
    );
    assert_eq!(
        ext::bson::de::Error::invalid_variant(ext::bson::de::Expected::DateTime, Bson::Null)
            .message(),
        "invalid variant, expected `Bson::DateTime(...)` but found `Bson::Null`"
    );
}

#[test]
fn documents_keep_the_order_of_first_insertion() {
    let mut doc = Document::new();
    assert!(doc.is_empty());
    assert_eq!(doc.insert("a".to_owned(), Bson::Int32(1)), None);
    assert_eq!(doc.insert("b".to_owned(), Bson::Int32(2)), None);
    assert_eq!(doc.insert("c".to_owned(), Bson::Int32(3)), None);
    assert_eq!(doc.insert("a".to_owned(), Bson::Int32(4)), Some(Bson::Int32(1)));
    assert_eq!(doc.len(), 3);
    assert_eq!(doc.key_at(0), "a");
    assert_eq!(doc.value_at(0), &Bson::Int32(4));
    assert_eq!(doc.get("b"), Some(&Bson::Int32(2)));
    assert_eq!(doc.get("z"), None);
    assert!(doc.contains_key("c"));
    assert_eq!(doc.remove("b"), Some(Bson::Int32(2)));
    assert_eq!(doc.remove("b"), None);
    assert_eq!(
        doc.clone().into_entries(),
        vec![
            ("a".to_owned(), Bson::Int32(4)),
            ("c".to_owned(), Bson::Int32(3))
        ]
    );
    let nested = Bson::Array(vec![
        Bson::Document(doc.clone()),
        Bson::Binary(mongod::bson::Binary {
            subtype: 0,
            bytes: vec![1, 2, 3],
        }),
        Bson::RegularExpression(mongod::bson::Regex {
            pattern: "a+".to_owned(),
            options: "i".to_owned(),
        }),
        Bson::JavaScriptCodeWithScope(mongod::bson::JavaScriptCodeWithScope {
            code: "x".to_owned(),
            scope: doc.clone(),
        }),
        Bson::DbPointer(mongod::bson::DbPointer {
            namespace: "n".to_owned(),
            id: ObjectId { bytes: [0; 12] },
        }),
        Bson::Double(1.5f64.to_bits()),
        Bson::Decimal128([9; 16]),
        Bson::DateTime(-1),
        Bson::Symbol("s".to_owned()),
        Bson::JavaScriptCode("c".to_owned()),
        Bson::Undefined,
        Bson::MaxKey,
        Bson::MinKey,
    ]);
    assert_eq!(nested.clone(), nested);
    assert_eq!(mongod::bson::copy_bson(&nested), nested);
    assert_eq!(nested.as_array().unwrap().len(), 13);
    assert_eq!(Bson::Int32(1).as_i32(), Some(1));
    assert_eq!(Bson::Int64(1).as_i64(), Some(1));
    assert_eq!(Bson::Boolean(true).as_bool(), Some(true));
    assert_eq!(Bson::Null.as_str(), None);
    assert!(Bson::Null.is_null());
    assert_eq!(
        Bson::ObjectId(ObjectId { bytes: [3; 12] }).as_object_id(),
        Some(ObjectId { bytes: [3; 12] })
    );
}

#[test]
fn a_blocking_insert_wraps_the_error_of_the_record() {
    let users = vec![
        User {
            name: "foo".to_owned(),
            age: None,
        },
        User {
            name: String::new(),
            age: None,
        },
    ];
    let e = Insert::<User>::new().blocking_request(users).err().unwrap();
    assert_eq!(*e.kind(), ErrorKind::Bson);
    assert_eq!(
        e.to_string(),
        "bson error: invalid document: a user needs a name"
    );
    let users = vec![User {
        name: "foo".to_owned(),
        age: Some(1),
    }];
    let r = Insert::<User>::new()
        .ordered(true)
        .blocking_request(users)
        .unwrap();
    match r {
        Request::Insert(name, documents, options) => {
            assert_eq!(name, "users");
            assert_eq!(
                documents,
                vec![document(vec![("name", text("foo")), ("age", Bson::Int32(1))])]
            );
            assert_eq!(options.ordered, Some(true));
        }
        _ => panic!("an insert was asked for"),
    }
    let inner = Error::invalid_document("x");
    let outer = mongod::error::wrapped(ErrorKind::Runtime, &inner);
    assert_eq!(outer.to_string(), "runtime error: invalid document: x");
}

#[test]
fn documents_of_a_cursor_are_read_with_their_identifier() {
    let id = ObjectId { bytes: [4; 12] };
    let doc = document(vec![("_id", Bson::ObjectId(id)), ("name", text("foo"))]);
    let (oid, user) = mongod::cursor::typed::<User>(doc).unwrap();
    assert_eq!(oid, id);
    assert_eq!(user.name, "foo");
    let e = mongod::cursor::typed::<User>(document(vec![("name", text("foo"))]))
        .err()
        .unwrap();
    assert_eq!(e.to_string(), "bson error: field is not present");
    let e = mongod::cursor::typed::<User>(document(vec![
        ("_id", Bson::Int32(1)),
        ("name", text("foo")),
    ]))
    .err()
    .unwrap();
    assert_eq!(
        e.to_string(),
        "bson error: field does not have the expected type"
    );
    let e = mongod::cursor::typed::<User>(document(vec![("_id", Bson::ObjectId(id))]))
        .err()
        .unwrap();
    assert_eq!(
        e.to_string(),
        "invalid document: missing required field `name`"
    );
    let user = mongod::cursor::found::<User>(document(vec![("name", text("bar"))])).unwrap();
    assert_eq!(user.name, "bar");
    let e = mongod::cursor::found::<User>(Document::new()).err().unwrap();
    assert_eq!(*e.kind(), ErrorKind::Bson);
    assert_eq!(
        e.to_string(),
        "bson error: invalid document: missing required field `name`"
    );
}
