use std::convert::TryFrom;

use mongod::bson::{self, Document};
use mongod::ext;
use mongod::{AsFilter, Comparator, Error, Filter};

pub struct User {
    pub name: String,
}

#[derive(Default)]
pub struct UserFilter {
    name: Option<Comparator<String>>,
}

impl Filter for UserFilter {
    fn new() -> Self {
        Self::default()
    }

    fn into_document(self) -> Result<Document, Error> {
        let mut doc = Document::new();
        if let Some(value) = self.name {
            doc.insert("name".to_owned(), ext::bson::Bson::try_from(value)?.0);
        }
        Ok(doc)
    }
}

impl AsFilter<UserFilter> for User {
    fn filter() -> UserFilter {
        UserFilter::default()
    }

    fn into_filter(self) -> UserFilter {
        UserFilter {
            name: Some(Comparator::Eq(self.name)),
        }
    }
}

#[test]
fn user_into_filter() {
    let user = User {
        name: "foo".to_owned(),
    };
    let f = user.into_filter();
    let name = if let Some(Comparator::Eq(val)) = f.name {
        val
    } else {
        "".to_owned()
    };
    assert_eq!(name, "foo".to_owned());
}

#[test]
fn filter_into_document() {
    let filter = UserFilter {
        name: Some(Comparator::Eq("foo".to_owned())),
    };
    let doc = filter.into_document().unwrap();
    assert_eq!(
        doc.get("name")
            .unwrap()
            .as_document()
            .unwrap()
            .get("$eq")
            .unwrap()
            .as_str()
            .unwrap(),
        "foo".to_owned()
    );
}

fn single(key: &str, value: bson::Bson) -> bson::Bson {
    let mut doc = Document::new();
    doc.insert(key.to_owned(), value);
    bson::Bson::Document(doc)
}

#[test]
fn each_comparator_is_written_under_its_operator() {
    let one = || bson::Bson::Int32(1);
    assert_eq!(bson::Bson::try_from(Comparator::Eq(1i32)).unwrap(), single("$eq", one()));
    assert_eq!(bson::Bson::try_from(Comparator::Gt(1i32)).unwrap(), single("$gt", one()));
    assert_eq!(bson::Bson::try_from(Comparator::Gte(1i32)).unwrap(), single("$gte", one()));
    assert_eq!(bson::Bson::try_from(Comparator::Lt(1i32)).unwrap(), single("$lt", one()));
    assert_eq!(bson::Bson::try_from(Comparator::Lte(1i32)).unwrap(), single("$lte", one()));
    assert_eq!(bson::Bson::try_from(Comparator::Ne(1i32)).unwrap(), single("$ne", one()));
    let list = bson::Bson::Array(vec![bson::Bson::Int32(1), bson::Bson::Int32(2)]);
    assert_eq!(
        bson::Bson::try_from(Comparator::In(vec![1i32, 2i32])).unwrap(),
        single("$in", list.clone())
    );
    assert_eq!(
        bson::Bson::try_from(Comparator::Nin(vec![1i32, 2i32])).unwrap(),
        single("$nin", list)
    );
    assert_eq!(
        ext::bson::Bson::try_from(Comparator::Eq(Some(7u32)))
            .unwrap()
            .0,
        single("$eq", bson::Bson::Int32(7))
    );
    let none: Option<u32> = None;
    assert_eq!(
        ext::bson::Bson::try_from(Comparator::Eq(none)).unwrap().0,
        single("$eq", bson::Bson::Null)
    );
}

#[test]
fn comparators_of_wire_values_are_written_directly() {
    let c = Comparator::In(vec![bson::Bson::Null, bson::Bson::Boolean(true)]);
    assert_eq!(
        mongod::filter::wire_comparator(c),
        single(
            "$in",
            bson::Bson::Array(vec![bson::Bson::Null, bson::Bson::Boolean(true)])
        )
    );
    assert_eq!(
        mongod::filter::wire_comparator(Comparator::Ne(bson::Bson::Int64(3))),
        single("$ne", bson::Bson::Int64(3))
    );
}

pub struct Even(pub i32);

impl TryFrom<Even> for ext::bson::Bson {
    type Error = ext::bson::ser::Error;

    fn try_from(value: Even) -> Result<Self, Self::Error> {
        if value.0 % 2 == 0 {
            Ok(ext::bson::Bson(bson::Bson::Int32(value.0)))
        } else {
            Err(ext::bson::ser::Error::custom(format!("{} is odd", value.0)))
        }
    }
}

#[test]
fn a_value_that_cannot_be_written_fails_the_comparator() {
    assert_eq!(
        bson::Bson::try_from(Comparator::Lt(Even(4))).unwrap(),
        single("$lt", bson::Bson::Int32(4))
    );
    let e = bson::Bson::try_from(Comparator::Lt(Even(3))).unwrap_err();
    assert_eq!(e.message(), "3 is odd");
    let e = bson::Bson::try_from(Comparator::In(vec![Even(2), Even(5), Even(7)])).unwrap_err();
    assert_eq!(e.message(), "5 is odd");
    assert_eq!(
        ext::bson::Bson::try_from(Comparator::Nin(vec![Even(2), Even(6)]))
            .unwrap()
            .0,
        single(
            "$nin",
            bson::Bson::Array(vec![bson::Bson::Int32(2), bson::Bson::Int32(6)])
        )
    );
    assert_eq!(
        ext::bson::Bson::try_from(Comparator::Eq(Some(Even(1))))
            .unwrap_err()
            .message(),
        "1 is odd"
    );
    assert_eq!(
        ext::bson::Bson::try_from(Some(Even(8))).unwrap().0,
        bson::Bson::Int32(8)
    );
    let mut set = std::collections::HashSet::new();
    set.insert(9i32);
    let odd: std::collections::HashSet<EvenKey> = set.into_iter().map(EvenKey).collect();
    assert_eq!(
        ext::bson::Bson::try_from(odd).unwrap_err().message(),
        "9 is odd"
    );
    let mut map = std::collections::HashMap::new();
    map.insert("a".to_owned(), Even(2));
    assert_eq!(
        ext::bson::Bson::try_from(map).unwrap().0,
        single("a", bson::Bson::Int32(2))
    );
    let mut map = std::collections::HashMap::new();
    map.insert("a".to_owned(), Even(1));
    assert_eq!(
        ext::bson::Bson::try_from(map).unwrap_err().message(),
        "1 is odd"
    );
}

#[derive(PartialEq, Eq, Hash)]
pub struct EvenKey(pub i32);

impl TryFrom<EvenKey> for ext::bson::Bson {
    type Error = ext::bson::ser::Error;

    fn try_from(value: EvenKey) -> Result<Self, Self::Error> {
        ext::bson::Bson::try_from(Even(value.0))
    }
}
