use weixin::model::{LoginStatus, OrderStatus, Owner, Passenger, Trip, TripStatus, UserType};

#[test]
fn state_names() {
    assert_eq!(TripStatus::Prepare.to_string(), "Prepare");
    assert_eq!(TripStatus::Running.to_string(), "Running");
    assert_eq!(TripStatus::Full.to_string(), "Full");
    assert_eq!(TripStatus::Finish.to_string(), "Finish");
    assert_eq!(OrderStatus::Request.to_string(), "Request");
    assert_eq!(OrderStatus::PaySuccess.to_string(), "PaySuccess");
    assert_eq!(OrderStatus::PayFail.to_string(), "PayFail");
    assert_eq!(OrderStatus::Submit.to_string(), "Submit");
    assert_eq!(OrderStatus::Refund.to_string(), "Refund");
    assert_eq!(UserType::Anonymous.to_string(), "Anonymous");
    assert_eq!(UserType::Passenger.to_string(), "Passenger");
    assert_eq!(UserType::Owner.to_string(), "Owner");
}

#[test]
fn order_states_read_back_from_their_names() {
    for s in [OrderStatus::Request, OrderStatus::PaySuccess, OrderStatus::PayFail, OrderStatus::Submit, OrderStatus::Refund] {
        assert_eq!(OrderStatus::from_name(&s.to_string()), Some(s));
    }
    assert_eq!(OrderStatus::from_name("submit"), None);
    assert_eq!(OrderStatus::from_name(""), None);
}

#[test]
fn empty_records() {
    let t = Trip::default();
    assert!(t._id.is_none());
    assert_eq!(t.status, "");
    assert_eq!(t.seat_count, 0);
    let l = LoginStatus::default();
    assert_eq!(l.user_type, UserType::Anonymous);
    assert!(l.owner.is_none() && l.passenger.is_none() && l.code.is_none());
    assert_eq!(l.openid, "");
}

#[test]
fn copies_of_records() {
    let o = Owner::new("1".to_string(), "car".to_string(), "P".to_string(), "u".to_string());
    let d = o.duplicate();
    assert_eq!((d.tel, d.car_type, d.plate_number, d.openid), (o.tel, o.car_type, o.plate_number, o.openid));
    let p = Passenger::new("2".to_string(), "v".to_string());
    let q = p.duplicate();
    assert_eq!((q.tel, q.openid), (p.tel, p.openid));
    let mut t = Trip::default();
    t.venue = "gate".to_string();
    t.set_status(TripStatus::Full);
    let u = t.duplicate();
    assert_eq!(u.venue, "gate");
    assert_eq!(u.status, "Full");
}
