use std::convert::TryFrom;

use mongod::bson::{self, Document};
use mongod::ext;
use mongod::{Collection, Error};

struct User {
    name: String,
}

impl Collection for User {
    const COLLECTION: &'static str = "users";

    fn from_document(document: Document) -> Result<Self, Error> {
        let mut document = document;
        let mut name: Option<String> = None;
        if let Some(value) = document.remove("name") {
            name = Some(String::try_from(ext::bson::Bson(value))?);
        }
        if name.is_none() {
            return Err(Error::invalid_document("missing required fields"));
        }
        Ok(User {
            name: name.expect("could not get name"),
        })
    }

    fn into_document(self) -> Result<Document, Error> {
        let mut doc = Document::new();
        doc.insert("name".to_owned(), bson::Bson::String(self.name));
        Ok(doc)
    }
}

#[test]
fn collection_collection() {
    assert_eq!(User::COLLECTION, "users");
}

#[test]
fn collection_document_to_bson() {
    let user = User {
        name: "foo".to_owned(),
    };
    let doc = user.into_document().unwrap();
    assert_eq!(doc.get("name").unwrap().as_str().unwrap(), "foo".to_owned());
}

#[test]
fn collection_bson_to_document() {
    let mut doc = Document::new();
    doc.insert("name".to_owned(), bson::Bson::String("foo".to_owned()));
    let user = User::from_document(doc).unwrap();
    assert_eq!(user.name, "foo".to_owned());
}

#[test]
fn a_document_without_the_field_is_invalid() {
    let e = User::from_document(Document::new()).err().unwrap();
    assert_eq!(*e.kind(), mongod::ErrorKind::InvalidDocument);
    assert_eq!(e.to_string(), "invalid document: missing required fields");
    let mut doc = Document::new();
    doc.insert("name".to_owned(), bson::Bson::Int32(1));
    let e = User::from_document(doc).err().unwrap();
    assert_eq!(
        e.to_string(),
        "invalid document: invalid variant, expected `Bson::String(...)` but found `Bson::Int32(...)`"
    );
}
