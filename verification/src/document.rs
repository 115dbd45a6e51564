//! The documents that are handed to the store: `mongodb::bson::Document`, an
//! ordered list of named values, seen through a model of what it holds.
//!
//! Nothing in this file is proved. Each function states what one insertion
//! does to the fields of a document; the rest of the crate builds its
//! documents through them and proves, field by field, what they hold.

use vstd::prelude::*;
use mongodb::bson::Document;

verus! {

/// A value in a document, as far as this crate writes values.
pub enum Value {
    Null,
    Bool(bool),
    Int32(i32),
    Text(Seq<char>),
    /// An instant, in milliseconds since the Unix epoch.
    DateTime(i64),
    /// The twelve bytes of an identifier that the store assigned.
    ObjectId(Seq<u8>),
    /// A nested document: its fields, in order.
    Doc(Seq<(Seq<char>, Value)>),
    List(Seq<Value>),
}

/// The fields of a document, in order: name and value.
pub type Fields = Seq<(Seq<char>, Value)>;

/// `mongodb::bson::Document`, the document of the driver. What it holds is
/// seen through `doc_fields` only.
#[verifier::external_type_specification]
#[verifier::external_body]
pub struct ExDocument(Document);

/// The fields that a document holds, in the order in which it yields them.
pub uninterp spec fn doc_fields(d: Document) -> Seq<(Seq<char>, Value)>;

/// Whether some field of `fields` is named `key`.
pub open spec fn has_key(fields: Fields, key: Seq<char>) -> bool {
    exists|i: int| 0 <= i < fields.len() && (#[trigger] fields[i]).0 == key
}

/// The documents of a list, each as the value that stands for it.
pub open spec fn docs_as_values(items: Seq<Document>) -> Seq<Value> {
    Seq::new(items.len(), |i: int| Value::Doc(doc_fields(items[i])))
}

/// `Document::new`: a document without fields.
#[verifier::external_body]
pub(crate) fn doc_new() -> (d: Document)
    ensures
        doc_fields(d) == Seq::<(Seq<char>, Value)>::empty(),
{
    Document::new()
}

/// `Document::insert` with `Bson::Null`: under a name that the document does
/// not hold yet, the null value becomes its last field.
#[verifier::external_body]
pub(crate) fn put_null(d: &mut Document, key: &str)
    requires
        !has_key(doc_fields(*old(d)), key@),
    ensures
        doc_fields(*final(d)) == doc_fields(*old(d)).push((key@, Value::Null)),
{
    d.insert(key, mongodb::bson::Bson::Null);
}

/// `Document::insert` with a `bool`: under a name that the document does not
/// hold yet, the boolean becomes its last field.
#[verifier::external_body]
pub(crate) fn put_bool(d: &mut Document, key: &str, value: bool)
    requires
        !has_key(doc_fields(*old(d)), key@),
    ensures
        doc_fields(*final(d)) == doc_fields(*old(d)).push((key@, Value::Bool(value))),
{
    d.insert(key, value);
}

/// `Document::insert` with an `i32`: under a name that the document does not
/// hold yet, the 32-bit integer becomes its last field.
#[verifier::external_body]
pub(crate) fn put_int32(d: &mut Document, key: &str, value: i32)
    requires
        !has_key(doc_fields(*old(d)), key@),
    ensures
        doc_fields(*final(d)) == doc_fields(*old(d)).push((key@, Value::Int32(value))),
{
    d.insert(key, value);
}

/// `Document::insert` with a `&str`: under a name that the document does not
/// hold yet, a string of the same characters becomes its last field.
#[verifier::external_body]
pub(crate) fn put_text(d: &mut Document, key: &str, value: &str)
    requires
        !has_key(doc_fields(*old(d)), key@),
    ensures
        doc_fields(*final(d)) == doc_fields(*old(d)).push((key@, Value::Text(value@))),
{
    d.insert(key, value);
}

/// `Document::insert` with a `chrono::DateTime<Utc>`, made from `millis` by
/// `DateTime::from_timestamp_millis`: under a name that the document does not
/// hold yet, that instant becomes its last field. The bounds keep `millis`
/// well inside the years that `chrono` can hold, where the conversion
/// succeeds and keeps the milliseconds.
#[verifier::external_body]
pub(crate) fn put_datetime(d: &mut Document, key: &str, millis: i64)
    requires
        !has_key(doc_fields(*old(d)), key@),
        -8_000_000_000_000_000 <= millis <= 8_000_000_000_000_000,
    ensures
        doc_fields(*final(d)) == doc_fields(*old(d)).push((key@, Value::DateTime(millis))),
{
    d.insert(key, chrono::DateTime::from_timestamp_millis(millis).unwrap());
}

/// `Document::insert` with a `[u8; 12]`: under a name that the document does
/// not hold yet, the identifier made of these bytes becomes its last field.
#[verifier::external_body]
pub(crate) fn put_object_id(d: &mut Document, key: &str, bytes: [u8; 12])
    requires
        !has_key(doc_fields(*old(d)), key@),
    ensures
        doc_fields(*final(d)) == doc_fields(*old(d)).push((key@, Value::ObjectId(bytes@))),
{
    d.insert(key, bytes);
}

/// `Document::insert` with a `Document`: under a name that the document does
/// not hold yet, the other document, with its fields as they are, becomes its
/// last field.
#[verifier::external_body]
pub(crate) fn put_doc(d: &mut Document, key: &str, value: Document)
    requires
        !has_key(doc_fields(*old(d)), key@),
    ensures
        doc_fields(*final(d)) == doc_fields(*old(d)).push((key@, Value::Doc(doc_fields(value)))),
{
    d.insert(key, value);
}

/// `Document::insert` with a `Vec<Document>`: under a name that the document
/// does not hold yet, the list of these documents, in their order, becomes its
/// last field.
#[verifier::external_body]
pub(crate) fn put_docs(d: &mut Document, key: &str, items: Vec<Document>)
    requires
        !has_key(doc_fields(*old(d)), key@),
    ensures
        doc_fields(*final(d)) == doc_fields(*old(d)).push(
            (key@, Value::List(docs_as_values(items@))),
        ),
{
    d.insert(key, items);
}

} // verus!
