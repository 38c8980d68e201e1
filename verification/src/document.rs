//! The store's documents, values and identifiers, which this library carries
//! from the codec to the driver and back without looking inside them.

use vstd::prelude::*;

verus! {

#[verifier::external_type_specification]
#[verifier::external_body]
pub struct ExObjectId(bson::oid::ObjectId);

#[verifier::external_type_specification]
#[verifier::external_body]
pub struct ExDocument(bson::Document);

#[verifier::external_type_specification]
#[verifier::external_body]
pub struct ExBson(bson::Bson);

/// The document with the single entry `_id`, whose value is the identifier.
pub uninterp spec fn id_filter(id: bson::oid::ObjectId) -> bson::Document;

/// The document inside a value, where the value is a document.
pub uninterp spec fn bson_document(value: bson::Bson) -> Option<bson::Document>;

/// The value that is the given document.
pub uninterp spec fn document_value(document: bson::Document) -> bson::Bson;

/// `bson::oid::ObjectId::new`: an identifier made from the clock, the process
/// and a counter. Nothing is claimed of it.
#[verifier::external_body]
pub(crate) fn new_object_id() -> bson::oid::ObjectId {
    bson::oid::ObjectId::new()
}

/// `<bson::oid::ObjectId as Clone>::clone`, which the crate derives: the
/// copy holds the same twelve bytes.
#[verifier::external_body]
pub(crate) fn clone_object_id(id: &bson::oid::ObjectId) -> (copy: bson::oid::ObjectId)
    ensures
        copy == *id,
{
    id.clone()
}

/// `bson::Document::new` followed by `bson::Document::insert` of the
/// identifier under the key `_id`: the result is a function of the
/// identifier alone.
#[verifier::external_body]
pub(crate) fn filter_by_id(id: bson::oid::ObjectId) -> (filter: bson::Document)
    ensures
        filter == id_filter(id),
{
    let mut filter = bson::Document::new();
    filter.insert("_id", id);
    filter
}

/// Tells the variant `bson::Bson::Document` from the others and moves the
/// document out of it.
#[verifier::external_body]
pub(crate) fn into_document(value: bson::Bson) -> (document: Option<bson::Document>)
    ensures
        document == bson_document(value),
{
    match value {
        bson::Bson::Document(document) => Some(document),
        _ => None,
    }
}

/// `<bson::Bson as From<bson::Document>>::from`: the value of the variant
/// `bson::Bson::Document` that holds the document.
#[verifier::external_body]
pub(crate) fn into_value(document: bson::Document) -> (value: bson::Bson)
    ensures
        value == document_value(document),
{
    bson::Bson::from(document)
}

} // verus!
