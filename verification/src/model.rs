//! The capability that a record type brings: a collection, an optional
//! identifier, and a codec to and from the store's values.

use vstd::prelude::*;

verus! {

/// A record type. The three spec functions say what the record holds and
/// what its codec computes; the executable methods return exactly that. A
/// type implemented outside Verus writes `id`, `encoded` and `decoded` as
/// plain functions that give what `get_id`, `to_bson` and `from_bson` give.
pub trait Model: Sized {
    /// The name of the collection that records of this type live in.
    const COLLECTION_NAME: &'static str;

    /// The identifier that the record carries, if it has been given one.
    spec fn id(&self) -> Option<bson::oid::ObjectId>;

    /// What the codec makes of the record.
    spec fn encoded(&self) -> Result<bson::Bson, bson::ser::Error>;

    /// What the codec makes of a value.
    spec fn decoded(value: bson::Bson) -> Result<Self, bson::de::Error>;

    fn get_id(&self) -> (id: Option<bson::oid::ObjectId>)
        ensures
            id == self.id(),
    ;

    fn set_id(&mut self, id: bson::oid::ObjectId)
        ensures
            final(self).id() == Some(id),
    ;

    /// Encodes the record.
    fn to_bson(&self) -> (value: Result<bson::Bson, bson::ser::Error>)
        ensures
            value == self.encoded(),
    ;

    /// Decodes a value into a record.
    fn from_bson(value: bson::Bson) -> (record: Result<Self, bson::de::Error>)
        ensures
            record == Self::decoded(value),
    ;
}

} // verus!
