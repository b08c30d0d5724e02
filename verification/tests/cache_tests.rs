use weixin::cache::Cache;
use weixin::model::{Order, OrderStatus, PayResult, Trip, TripStatus};

fn trip(id: Option<&str>, owner: &str, status: &str, start: i64) -> Trip {
    let mut t = Trip::default();
    t._id = id.map(|s| s.to_string());
    t.openid = owner.to_string();
    t.status = status.to_string();
    t.start_time = start;
    t.seat_count = 4;
    t.current_seat = 4;
    t
}

fn order(openid: &str, trip_id: &str) -> Order {
    let pay = PayResult {
        appid: String::new(),
        attach: trip_id.to_string(),
        bank_type: String::new(),
        cash_fee: 0,
        fee_type: String::new(),
        is_subscribe: String::new(),
        mch_id: String::new(),
        nonce_str: String::new(),
        openid: openid.to_string(),
        out_trade_no: String::new(),
        result_code: String::new(),
        return_code: String::new(),
        sign: String::new(),
        time_end: String::new(),
        total_fee: 100,
        trade_type: String::new(),
        transaction_id: String::new(),
    };
    Order::from_pay_result(&pay, 100, 1)
}

#[test]
fn new_cache_is_empty() {
    let c = Cache::new();
    assert!(!c.is_busy("x"));
    assert!(c.get_trip("x").is_none());
    assert!(c.order_by_openid("x").is_none());
    assert!(c.trips_with_status("Prepare").is_empty());
}

#[test]
fn busy_users() {
    let mut c = Cache::new();
    c.add_busy("a".to_string());
    c.add_busy("a".to_string());
    c.add_busy("b".to_string());
    assert!(c.is_busy("a") && c.is_busy("b"));
    c.not_busy("a");
    assert!(!c.is_busy("a"));
    assert!(c.is_busy("b"));
    c.not_busy("nobody");
    assert!(c.is_busy("b"));
}

#[test]
fn trips_by_id_status_and_owner() {
    let mut c = Cache::new();
    c.add_trip(trip(Some("t1"), "o1", "Prepare", 10));
    c.add_trip(trip(Some("t2"), "o2", "Running", 20));
    c.add_trip(trip(Some("t3"), "o1", "Prepare", 30));
    c.add_trip(trip(None, "o4", "Prepare", 40));
    let prepared = c.trips_with_status("Prepare");
    assert_eq!(prepared.len(), 2);
    assert_eq!(prepared[0]._id.as_deref(), Some("t1"));
    assert_eq!(prepared[1]._id.as_deref(), Some("t3"));
    assert_eq!(c.trip_by_openid("o1").unwrap()._id.as_deref(), Some("t1"));
    assert!(c.trip_by_openid("o4").is_none());
    let mut again = trip(Some("t1"), "o9", "Full", 10);
    again.current_seat = 0;
    c.add_trip(again);
    assert_eq!(c.get_trip("t1").unwrap().openid, "o9");
    assert_eq!(c.trips_with_status("Prepare").len(), 1);
}

#[test]
fn trip_seats_and_status() {
    let mut c = Cache::new();
    c.add_trip(trip(Some("t1"), "o1", "Prepare", 10));
    c.set_current_seats("t1", 2);
    c.set_trip_status("t1", TripStatus::Full);
    c.set_current_seats("missing", 1);
    let t = c.get_trip("t1").unwrap();
    assert_eq!(t.current_seat, 2);
    assert_eq!(t.status, "Full");
    assert!(c.get_trip("missing").is_none());
    c.remove_trip("t1");
    assert!(c.get_trip("t1").is_none());
}

#[test]
fn orders_by_payer_and_trip() {
    let mut c = Cache::new();
    c.add_order(order("a", "t1"));
    c.add_order(order("b", "t2"));
    c.add_order(order("c", "t1"));
    let on_t1 = c.orders_by_trip("t1");
    assert_eq!(on_t1.len(), 2);
    assert_eq!(on_t1[0].openid, "a");
    assert_eq!(on_t1[1].openid, "c");
    c.set_order_status("b", OrderStatus::Submit);
    assert_eq!(c.order_by_openid("b").unwrap().status, OrderStatus::Submit);
    c.remove_orders(&vec!["a".to_string(), "c".to_string(), "zz".to_string()]);
    assert!(c.order_by_openid("a").is_none());
    assert!(c.order_by_openid("c").is_none());
    assert!(c.order_by_openid("b").is_some());
    assert!(c.orders_by_trip("t1").is_empty());
}

#[test]
fn running_trips_at_a_time() {
    let mut c = Cache::new();
    c.add_trip(trip(Some("t1"), "o1", "Prepare", 10));
    c.add_trip(trip(Some("t2"), "o2", "Full", 20));
    c.add_trip(trip(Some("t3"), "o3", "Prepare", 30));
    let ids = c.update_trips_running(20);
    assert_eq!(ids, vec!["t1".to_string()]);
    let ids = c.update_trips_running(25);
    assert_eq!(ids, vec!["t1".to_string(), "t2".to_string()]);
    assert_eq!(c.get_trip("t1").unwrap().status, "Running");
    assert_eq!(c.get_trip("t2").unwrap().status, "Running");
    assert_eq!(c.get_trip("t3").unwrap().status, "Prepare");
}

#[test]
fn running_at_an_earlier_then_a_later_time_is_running_at_the_later_time() {
    let mut a = Cache::new();
    let mut b = Cache::new();
    for c in [&mut a, &mut b] {
        c.add_trip(trip(Some("t1"), "o1", "Prepare", 10));
        c.add_trip(trip(Some("t2"), "o2", "Prepare", 20));
        c.add_trip(trip(Some("t3"), "o3", "Prepare", 30));
    }
    a.update_trips_running(15);
    a.update_trips_running(25);
    b.update_trips_running(25);
    for id in ["t1", "t2", "t3"] {
        assert_eq!(a.get_trip(id).unwrap().status, b.get_trip(id).unwrap().status);
    }
}
