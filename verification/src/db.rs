//! The names of the collections the stored records live in.
use vstd::prelude::*;
use crate::model::{Line, Order, Owner, Passenger, Trip};
use crate::service::{error_message, ServiceError};

verus! {

/// A kind of record with a collection of its own in the database.
pub trait ToDoc {
    /// The name of the collection.
    spec fn collection_name() -> Seq<char>;

    /// The name of the collection, as text.
    fn get_name() -> (res: &'static str)
        ensures
            res@ == Self::collection_name();
}

impl ToDoc for Passenger {
    open spec fn collection_name() -> Seq<char> {
        "Passenger"@
    }

    fn get_name() -> (res: &'static str) {
        "Passenger"
    }
}

impl ToDoc for Owner {
    open spec fn collection_name() -> Seq<char> {
        "Owner"@
    }

    fn get_name() -> (res: &'static str) {
        "Owner"
    }
}

impl ToDoc for Order {
    open spec fn collection_name() -> Seq<char> {
        "Order"@
    }

    fn get_name() -> (res: &'static str) {
        "Order"
    }
}

impl ToDoc for Trip {
    open spec fn collection_name() -> Seq<char> {
        "Trip"@
    }

    fn get_name() -> (res: &'static str) {
        "Trip"
    }
}

impl ToDoc for Line {
    open spec fn collection_name() -> Seq<char> {
        "Line"@
    }

    fn get_name() -> (res: &'static str) {
        "Line"
    }
}

/// The collection that keeps the records of a kind once they are done with: the kind's
/// collection name followed by `_history`.
pub fn history_name<T: ToDoc>() -> (res: String)
    ensures
        res@ == T::collection_name() + "_history"@,
{
    let mut name = T::get_name().to_owned();
    name.append("_history");
    name
}

/// The error for a record of kind `T` that does not encode to a document.
pub fn not_a_document<T: ToDoc>() -> (res: ServiceError)
    ensures
        res matches ServiceError::CanNotSerializeToDoc(s) && s@ == T::collection_name(),
        error_message(res) == T::collection_name() + " can not serialize to a document,it may other bson type!"@,
{
    ServiceError::CanNotSerializeToDoc(T::get_name().to_owned())
}

/// What a record was looked up by.
#[derive(Clone, Copy, Debug, PartialEq, Eq, Structural)]
pub enum LookupKey {
    /// The WeChat openid of its user.
    Openid,
    /// Its database object id.
    ObjectId,
    /// A line's number.
    LineId,
}

/// The message of a lookup that found nothing.
pub open spec fn not_found_message(key: LookupKey) -> Seq<char> {
    match key {
        LookupKey::Openid => "not find by this openid"@,
        LookupKey::ObjectId => "not find by this _id"@,
        LookupKey::LineId => "not find by this id"@,
    }
}

/// The record a lookup found, or the error that it found none.
pub fn found<T>(record: Option<T>, key: LookupKey) -> (res: Result<T, ServiceError>)
    ensures
        match record {
            Some(r) => res == Ok::<T, ServiceError>(r),
            None => res matches Err(ServiceError::Other(m)) && m@ == not_found_message(key),
        },
{
    match record {
        Some(r) => Ok(r),
        None => Err(ServiceError::Other(
            match key {
                LookupKey::Openid => "not find by this openid",
                LookupKey::ObjectId => "not find by this _id",
                LookupKey::LineId => "not find by this id",
            }.to_owned(),
        )),
    }
}

} // verus!
