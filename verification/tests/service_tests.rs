use weixin::cache::Cache;
use weixin::config::{ConfigManager, ConfigValue};
use weixin::model::{LoginStatus, Order, OrderStatus, Owner, Passenger, PayResult, Trip, UserType};
use weixin::service::{add_trip, apply_trip_check, check_not_busy, trip_info, TripInfo, apply_trip_prepay, attach_tel, attach_tels, buy_seats, check_pay_result,
    check_pay_result_with, check_trip_finish, finish_trip, forget_trip, get_all_fee, pay_success, signed_up, submit_order,
    trip_finished, update_trips_running, with_code, ServiceError};

fn config() -> ConfigManager {
    let s = |k: &str, v: &str| (k.to_string(), ConfigValue::Str(v.to_string()));
    ConfigManager::new(vec![(
        "app".to_string(),
        ConfigValue::Table(vec![s("appid", "wxapp"), s("mchid", "mch1"), s("apikey", "secretkey"), s("domain", "https://example.com")]),
    )])
}

fn pay_result(sign: &str) -> PayResult {
    PayResult {
        appid: "wxapp".to_string(),
        attach: "trip1".to_string(),
        bank_type: "CFT".to_string(),
        cash_fee: 3000,
        fee_type: "CNY".to_string(),
        is_subscribe: "Y".to_string(),
        mch_id: "mch1".to_string(),
        nonce_str: "nn".to_string(),
        openid: "user1".to_string(),
        out_trade_no: "order1".to_string(),
        result_code: "SUCCESS".to_string(),
        return_code: "SUCCESS".to_string(),
        sign: sign.to_string(),
        time_end: "20160101120000".to_string(),
        total_fee: 3000,
        trade_type: "JSAPI".to_string(),
        transaction_id: "tx1".to_string(),
    }
}

fn trip(id: Option<&str>, owner: &str, seats: u32, free: u32) -> Trip {
    let mut t = Trip::default();
    t._id = id.map(|s| s.to_string());
    t.openid = owner.to_string();
    t.owner_id = owner.to_string();
    t.line_id = 7;
    t.price = 1500;
    t.seat_count = seats;
    t.current_seat = free;
    t.status = "Prepare".to_string();
    t
}

fn order(openid: &str, trip_id: &str, status: OrderStatus) -> Order {
    let mut o = Order::from_pay_result(&pay_result("x"), 1500, 1);
    o.openid = openid.to_string();
    o.trip_id = trip_id.to_string();
    o.set_status(status);
    o
}

#[test]
fn error_messages() {
    let s = || "x".to_string();
    assert_eq!(ServiceError::IoError(s()).message(), "x");
    assert_eq!(ServiceError::HyperError(s()).message(), "x");
    assert_eq!(ServiceError::ParameterError(s()).message(), "x can not find!");
    assert_eq!(ServiceError::SerdeJsonError(s()).message(), "x");
    assert_eq!(ServiceError::PersistentError(s()).message(), "x");
    assert_eq!(ServiceError::UrlDecodingError(s()).message(), "x");
    assert_eq!(ServiceError::NoLogin.message(), "you are not  login!");
    assert_eq!(ServiceError::SerdeXmlError(s()).message(), "x");
    assert_eq!(ServiceError::BsonEncoderError(s()).message(), "x");
    assert_eq!(ServiceError::CanNotSerializeToDoc(s()).message(), "x can not serialize to a document,it may other bson type!");
    assert_eq!(ServiceError::BsonDecoderError(s()).message(), "x");
    assert_eq!(ServiceError::MongodbError(s()).message(), "x");
    assert_eq!(ServiceError::BsonOidError(s()).message(), "x");
    assert_eq!(ServiceError::JsonEncoderError(s()).message(), "x");
    assert_eq!(ServiceError::Other(s()).message(), "x");
    assert_eq!(ServiceError::DontHaveEnoughSeats.message(), "this trip have not enough seats!");
    assert_eq!(ServiceError::NoCache(s()).message(), "x no cache");
    assert_eq!(ServiceError::UserBusy(s()).message(), "x is busy");
}

#[test]
fn payment_notice_signature() {
    let good = pay_result("C0932CB519C92F193B94D8E7C7779A06");
    assert!(check_pay_result_with(&good, "wxapp", "mch1", "secretkey"));
    assert!(!check_pay_result_with(&good, "wxapp", "mch1", "otherkey"));
    assert!(check_pay_result(&good, &config()));
    let bad = pay_result("C0932CB519C92F193B94D8E7C7779A07");
    assert!(!check_pay_result(&bad, &config()));
    let mut changed = good.clone();
    changed.total_fee = 1;
    assert!(!check_pay_result(&changed, &config()));
    let mut unsigned = good.clone();
    unsigned.appid = "another".to_string();
    unsigned.mch_id = "another".to_string();
    assert!(check_pay_result(&unsigned, &config()));
}

#[test]
fn stored_trip_is_cached_and_owner_busy() {
    let mut c = Cache::new();
    assert!(add_trip(&mut c, trip(None, "owner1", 4, 4), Some("id1".to_string())).is_ok());
    let t = c.get_trip("id1").unwrap();
    assert_eq!(t._id.as_deref(), Some("id1"));
    assert_eq!(t.openid, "owner1");
    assert!(c.is_busy("owner1"));
}

#[test]
fn trip_without_id_is_refused() {
    let mut c = Cache::new();
    match add_trip(&mut c, trip(None, "owner1", 4, 4), None) {
        Err(ServiceError::Other(m)) => assert_eq!(m, "can't cache trip,there is not oid"),
        _ => panic!("expected an error"),
    }
    assert!(!c.is_busy("owner1"));
    assert!(c.trip_by_openid("owner1").is_none());
}

#[test]
fn apply_trip_checks() {
    let mut c = Cache::new();
    c.add_busy("busy".to_string());
    assert!(matches!(check_not_busy(&c, "busy"), Err(ServiceError::UserBusy(s)) if s == "busy"));
    assert!(check_not_busy(&c, "u").is_ok());
    assert!(matches!(apply_trip_check(Err(ServiceError::NoCache("t".to_string())), "1"), Err(ServiceError::NoCache(s)) if s == "t"));
    assert!(matches!(apply_trip_check(Ok(trip(Some("t"), "o", 4, 4)), "two"), Err(ServiceError::Other(s)) if s == "invalid digit found in string"));
    assert!(matches!(apply_trip_check(Ok(trip(Some("t"), "o", 4, 4)), ""), Err(ServiceError::Other(s)) if s == "cannot parse integer from empty string"));
    assert!(matches!(apply_trip_check(Ok(trip(Some("t"), "o", 4, 2)), "3"), Err(ServiceError::DontHaveEnoughSeats)));
    assert!(matches!(apply_trip_check(Ok(trip(Some("t"), "o", 4, 2)), "2"), Ok(7)));
}

#[test]
fn trip_page_views() {
    let owner = Owner::new("111".to_string(), "car".to_string(), "A1".to_string(), "a".to_string());
    let orders = vec![order("a", "t1", OrderStatus::PaySuccess), order("b", "t1", OrderStatus::Submit)];
    let users = vec![(Some(owner), None), (None, None)];
    let none = || ServiceError::NoCache("x".to_string());
    match trip_info(Ok(trip(Some("t1"), "o", 4, 2)), &orders, &users, Err(none()), Err(none())) {
        Ok(TripInfo::Offered { trip, orders }) => {
            assert_eq!(trip._id.as_deref(), Some("t1"));
            assert_eq!(orders.len(), 2);
            assert_eq!(orders[0].tel.as_deref(), Some("111"));
            assert_eq!(orders[1].tel, None);
        },
        _ => panic!("the owner's view"),
    }
    match trip_info(Err(none()), &vec![], &vec![], Ok(order("u", "t9", OrderStatus::PaySuccess)), Ok(trip(Some("t9"), "p", 4, 3))) {
        Ok(TripInfo::Booked { trip, order }) => {
            assert_eq!(trip._id.as_deref(), Some("t9"));
            assert_eq!(order.openid, "u");
        },
        _ => panic!("the passenger's view"),
    }
    assert!(matches!(trip_info(Err(none()), &vec![], &vec![], Err(ServiceError::NoCache("u".to_string())), Err(none())),
        Err(ServiceError::NoCache(s)) if s == "u"));
    assert!(matches!(trip_info(Err(none()), &vec![], &vec![], Ok(order("u", "t9", OrderStatus::PaySuccess)), Err(ServiceError::Other("gone".to_string()))),
        Err(ServiceError::Other(s)) if s == "gone"));
}

#[test]
fn apply_trip_unified_order() {
    let p = apply_trip_prepay(&config(), "trip1", "user1", 1500);
    assert_eq!(p.out_trade_no.len(), 32);
    assert!(p.out_trade_no.chars().all(|c| c.is_ascii_digit() || ('a'..='f').contains(&c)));
    assert_eq!(p.nonce_str, p.out_trade_no);
    assert_eq!(p.body, "pinchefei");
    assert_eq!(p.attach, "trip1");
    assert_eq!(p.openid, "user1");
    assert_eq!(p.total_fee, 1500);
    assert_eq!(p.notify_url, "https://example.com/payResult");
    let q = apply_trip_prepay(&config(), "trip1", "user1", 1500);
    assert_ne!(p.out_trade_no, q.out_trade_no);
}

#[test]
fn buying_seats() {
    let mut c = Cache::new();
    c.add_trip(trip(Some("t1"), "o", 4, 4));
    assert_eq!(buy_seats(&mut c, "t1", Ok(trip(Some("t1"), "o", 4, 4)), 3), Some(1));
    assert_eq!(c.get_trip("t1").unwrap().current_seat, 1);
    assert_eq!(buy_seats(&mut c, "t1", Ok(trip(Some("t1"), "o", 4, 1)), 2), None);
    assert_eq!(c.get_trip("t1").unwrap().current_seat, 1);
    assert_eq!(buy_seats(&mut c, "t1", Err(ServiceError::NoCache("t1".to_string())), 1), None);
    assert_eq!(buy_seats(&mut c, "t2", Ok(trip(Some("t2"), "o", 4, 4)), 4), Some(0));
    assert!(c.get_trip("t2").is_none());
}

#[test]
fn completed_payment_fills_the_trip() {
    let mut c = Cache::new();
    c.add_trip(trip(Some("trip1"), "owner1", 4, 2));
    let plan = pay_success(&mut c, &pay_result("s"), trip(Some("trip1"), "owner1", 4, 2), 1500);
    assert_eq!(plan.order.count, 2);
    assert_eq!(plan.order.price, 1500);
    assert_eq!(plan.order.total_fee, 3000);
    assert_eq!(plan.order.openid, "user1");
    assert_eq!(plan.order.trip_id, "trip1");
    assert_eq!(plan.order.status, OrderStatus::PaySuccess);
    assert_eq!(plan.seats_left, Some(0));
    assert!(plan.trip_full);
    let t = c.get_trip("trip1").unwrap();
    assert_eq!(t.current_seat, 0);
    assert_eq!(t.status, "Full");
    assert!(c.is_busy("user1"));
    assert_eq!(c.order_by_openid("user1").unwrap().status, OrderStatus::PaySuccess);
}

#[test]
fn completed_payment_without_seats_fails_the_order() {
    let mut c = Cache::new();
    c.add_trip(trip(Some("trip1"), "owner1", 4, 1));
    let plan = pay_success(&mut c, &pay_result("s"), trip(Some("trip1"), "owner1", 4, 1), 1500);
    assert_eq!(plan.order.status, OrderStatus::PayFail);
    assert_eq!(plan.seats_left, None);
    assert!(!plan.trip_full);
    assert_eq!(c.get_trip("trip1").unwrap().current_seat, 1);
    assert!(!c.is_busy("user1"));
    assert_eq!(c.order_by_openid("user1").unwrap().status, OrderStatus::PayFail);
}

#[test]
fn completed_payment_leaving_seats() {
    let mut c = Cache::new();
    c.add_trip(trip(Some("trip1"), "owner1", 4, 4));
    let plan = pay_success(&mut c, &pay_result("s"), trip(Some("trip1"), "owner1", 4, 4), 1000);
    assert_eq!(plan.order.count, 3);
    assert_eq!(plan.seats_left, Some(1));
    assert!(!plan.trip_full);
    assert_eq!(c.get_trip("trip1").unwrap().status, "Prepare");
}

#[test]
fn finished_trips() {
    let settled = vec![order("a", "t", OrderStatus::Submit), order("b", "t", OrderStatus::PayFail), order("c", "t", OrderStatus::Refund)];
    assert!(trip_finished(&settled));
    assert!(trip_finished(&Vec::new()));
    let open = vec![order("a", "t", OrderStatus::Submit), order("b", "t", OrderStatus::PaySuccess)];
    assert!(!trip_finished(&open));
    let requested = vec![order("a", "t", OrderStatus::Request)];
    assert!(!trip_finished(&requested));
    let (done, id) = check_trip_finish(Ok(order("a", "t", OrderStatus::Submit)), &settled);
    assert!(done);
    assert_eq!(id.as_deref(), Some("t"));
    let (done, id) = check_trip_finish(Ok(order("a", "t", OrderStatus::Submit)), &open);
    assert!(!done && id.is_none());
    let (done, id) = check_trip_finish(Err(ServiceError::NoCache("a".to_string())), &settled);
    assert!(!done && id.is_none());
}

#[test]
fn submitting_an_order() {
    let mut c = Cache::new();
    c.add_order(order("user1", "t", OrderStatus::PaySuccess));
    c.add_busy("user1".to_string());
    submit_order(&mut c, "user1");
    assert_eq!(c.order_by_openid("user1").unwrap().status, OrderStatus::Submit);
    assert!(!c.is_busy("user1"));
}

#[test]
fn fees_of_a_trip() {
    assert_eq!(get_all_fee(Ok(trip(Some("t"), "o", 4, 1))), 4500);
    assert_eq!(get_all_fee(Ok(trip(Some("t"), "o", 4, 4))), 0);
    assert_eq!(get_all_fee(Err(ServiceError::NoCache("t".to_string()))), 0);
}

#[test]
fn telephone_numbers_of_payers() {
    let owner = Owner::new("111".to_string(), "car".to_string(), "A1".to_string(), "a".to_string());
    let passenger = Passenger::new("222".to_string(), "b".to_string());
    let o = attach_tel(order("a", "t", OrderStatus::Submit), &Some(owner.clone()), &Some(passenger.clone()));
    assert_eq!(o.tel.as_deref(), Some("111"));
    let o = attach_tel(order("b", "t", OrderStatus::Submit), &None, &Some(passenger.clone()));
    assert_eq!(o.tel.as_deref(), Some("222"));
    let o = attach_tel(order("c", "t", OrderStatus::Submit), &None, &None);
    assert_eq!(o.tel, None);
    let all = attach_tels(
        &vec![order("a", "t", OrderStatus::Submit), order("b", "t", OrderStatus::Submit)],
        &vec![(Some(owner), None), (None, Some(passenger))],
    );
    assert_eq!(all.len(), 2);
    assert_eq!(all[0].tel.as_deref(), Some("111"));
    assert_eq!(all[1].tel.as_deref(), Some("222"));
    assert_eq!(all[1].openid, "b");
}

#[test]
fn forgetting_a_trip() {
    let mut c = Cache::new();
    c.add_trip(trip(Some("t1"), "o", 4, 4));
    c.add_trip(trip(Some("t2"), "p", 4, 4));
    c.add_order(order("a", "t1", OrderStatus::Submit));
    c.add_order(order("b", "t1", OrderStatus::Submit));
    c.add_order(order("z", "t2", OrderStatus::Submit));
    let orders = c.orders_by_trip("t1");
    forget_trip(&mut c, "t1", &orders);
    assert!(c.get_trip("t1").is_none());
    assert!(c.get_trip("t2").is_some());
    assert!(c.order_by_openid("a").is_none());
    assert!(c.order_by_openid("b").is_none());
    assert!(c.order_by_openid("z").is_some());
}

#[test]
fn finishing_a_trip() {
    let mut c = Cache::new();
    c.add_trip(trip(Some("t1"), "owner1", 4, 1));
    c.add_busy("owner1".to_string());
    assert_eq!(finish_trip(&mut c, "t1", Ok(trip(Some("t1"), "owner1", 4, 1))), Some(4500));
    assert_eq!(c.get_trip("t1").unwrap().status, "Finish");
    assert!(!c.is_busy("owner1"));
    let mut c = Cache::new();
    c.add_busy("owner2".to_string());
    assert_eq!(finish_trip(&mut c, "t2", Ok(trip(Some("t2"), "owner2", 4, 4))), None);
    assert!(!c.is_busy("owner2"));
    c.add_busy("owner3".to_string());
    assert_eq!(finish_trip(&mut c, "t3", Err(ServiceError::NoCache("t3".to_string()))), None);
    assert!(c.is_busy("owner3"));
}

#[test]
fn signed_up_users() {
    let mut l = LoginStatus::default();
    assert!(matches!(signed_up(Some(l.clone())), Err(ServiceError::NoLogin)));
    assert!(matches!(signed_up(None), Err(ServiceError::NoLogin)));
    l.user_type = UserType::Passenger;
    l.openid = "p".to_string();
    assert!(matches!(signed_up(Some(l)), Ok(r) if r.openid == "p"));
}

#[test]
fn texted_code_is_remembered() {
    let l = LoginStatus::default();
    match with_code(Some(l), 4321) {
        Ok(r) => assert_eq!(r.code, Some(4321)),
        Err(_) => panic!("expected a login status"),
    }
    assert!(matches!(with_code(None, 1), Err(ServiceError::NoLogin)));
}

#[test]
fn started_trips_run() {
    let mut c = Cache::new();
    let mut past = trip(Some("past"), "o", 4, 4);
    past.start_time = 0;
    let mut future = trip(Some("future"), "p", 4, 4);
    future.start_time = i64::MAX;
    c.add_trip(past);
    c.add_trip(future);
    let ids = update_trips_running(&mut c);
    assert_eq!(ids, vec!["past".to_string()]);
    assert_eq!(c.get_trip("past").unwrap().status, "Running");
    assert_eq!(c.get_trip("future").unwrap().status, "Prepare");
}
