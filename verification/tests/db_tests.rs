use weixin::db::{found, history_name, not_a_document, LookupKey, ToDoc};
use weixin::service::ServiceError;
use weixin::model::{Line, Order, Owner, Passenger, Trip};

#[test]
fn collection_names() {
    assert_eq!(Passenger::get_name(), "Passenger");
    assert_eq!(Owner::get_name(), "Owner");
    assert_eq!(Order::get_name(), "Order");
    assert_eq!(Trip::get_name(), "Trip");
    assert_eq!(Line::get_name(), "Line");
}

#[test]
fn history_collections() {
    assert_eq!(history_name::<Trip>(), "Trip_history");
    assert_eq!(history_name::<Order>(), "Order_history");
}

#[test]
fn records_that_are_not_documents() {
    let e = not_a_document::<Order>();
    assert_eq!(e.message(), "Order can not serialize to a document,it may other bson type!");
}

#[test]
fn lookups_that_find_nothing() {
    assert!(matches!(found(Some(3), LookupKey::Openid), Ok(3)));
    assert!(matches!(found::<u32>(None, LookupKey::Openid), Err(ServiceError::Other(m)) if m == "not find by this openid"));
    assert!(matches!(found::<u32>(None, LookupKey::ObjectId), Err(ServiceError::Other(m)) if m == "not find by this _id"));
    assert!(matches!(found::<u32>(None, LookupKey::LineId), Err(ServiceError::Other(m)) if m == "not find by this id"));
}
