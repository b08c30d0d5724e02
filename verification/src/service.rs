//! The carpooling service's rules: payments, seats, orders and the end of trips.
use vstd::prelude::*;
use crate::cache::{Cache, CacheView, orders_on_trip, running_at, started_ids};
use crate::config::ConfigManager;
use crate::keyed::{has_key, index_of, upsert};
use crate::model::{LoginStatus, LoginView, Order, OrderStatus, OrderView, Owner, Passenger, PayResult, Trip, TripStatus,
    TripView, UserType, opt_view, trip_status_name};
use crate::params::{sorted_insert, Entry, ParamMap};
use crate::pay::{is_nonce, new_nonce, now_timestamp, pay_sign, sign_params, PrePay};
use crate::text::{decimal, parse_error_message, parse_error_text, parse_u32, parse_u32_spec, text_eq, u64_to_string};

verus! {

/// Everything that can go wrong in the service. Errors of the outside crates the service works
/// with are kept as the text they display.
#[derive(Debug)]
pub enum ServiceError {
    IoError(String),
    HyperError(String),
    ParameterError(String),
    SerdeJsonError(String),
    PersistentError(String),
    UrlDecodingError(String),
    NoLogin,
    SerdeXmlError(String),
    BsonEncoderError(String),
    CanNotSerializeToDoc(String),
    BsonDecoderError(String),
    MongodbError(String),
    BsonOidError(String),
    JsonEncoderError(String),
    Other(String),
    DontHaveEnoughSeats,
    NoCache(String),
    UserBusy(String),
}

/// The text an error displays.
pub open spec fn error_message(e: ServiceError) -> Seq<char> {
    match e {
        ServiceError::IoError(s) => s@,
        ServiceError::HyperError(s) => s@,
        ServiceError::ParameterError(s) => s@ + " can not find!"@,
        ServiceError::SerdeJsonError(s) => s@,
        ServiceError::PersistentError(s) => s@,
        ServiceError::UrlDecodingError(s) => s@,
        ServiceError::NoLogin => "you are not  login!"@,
        ServiceError::SerdeXmlError(s) => s@,
        ServiceError::BsonEncoderError(s) => s@,
        ServiceError::CanNotSerializeToDoc(s) => s@ + " can not serialize to a document,it may other bson type!"@,
        ServiceError::BsonDecoderError(s) => s@,
        ServiceError::MongodbError(s) => s@,
        ServiceError::BsonOidError(s) => s@,
        ServiceError::JsonEncoderError(s) => s@,
        ServiceError::Other(s) => s@,
        ServiceError::DontHaveEnoughSeats => "this trip have not enough seats!"@,
        ServiceError::NoCache(s) => s@ + " no cache"@,
        ServiceError::UserBusy(s) => s@ + " is busy"@,
    }
}

fn joined(a: &String, b: &str) -> (res: String)
    ensures
        res@ == a@ + b@,
{
    let mut r = a.clone();
    r.append(b);
    r
}

impl ServiceError {
    /// The text this error displays.
    pub fn message(&self) -> (res: String)
        ensures
            res@ == error_message(*self),
    {
        match self {
            ServiceError::IoError(s) => s.clone(),
            ServiceError::HyperError(s) => s.clone(),
            ServiceError::ParameterError(s) => joined(s, " can not find!"),
            ServiceError::SerdeJsonError(s) => s.clone(),
            ServiceError::PersistentError(s) => s.clone(),
            ServiceError::UrlDecodingError(s) => s.clone(),
            ServiceError::NoLogin => "you are not  login!".to_owned(),
            ServiceError::SerdeXmlError(s) => s.clone(),
            ServiceError::BsonEncoderError(s) => s.clone(),
            ServiceError::CanNotSerializeToDoc(s) => joined(s, " can not serialize to a document,it may other bson type!"),
            ServiceError::BsonDecoderError(s) => s.clone(),
            ServiceError::MongodbError(s) => s.clone(),
            ServiceError::BsonOidError(s) => s.clone(),
            ServiceError::JsonEncoderError(s) => s.clone(),
            ServiceError::Other(s) => s.clone(),
            ServiceError::DontHaveEnoughSeats => "this trip have not enough seats!".to_owned(),
            ServiceError::NoCache(s) => joined(s, " no cache"),
            ServiceError::UserBusy(s) => joined(s, " is busy"),
        }
    }
}

/// The parameters of a payment notice that its signature covers, in key order, with the
/// configured application and merchant ids.
pub open spec fn pay_result_params(r: PayResult, appid: Seq<char>, mchid: Seq<char>) -> Seq<Entry> {
    let e = sorted_insert(Seq::empty(), "appid"@, appid);
    let e = sorted_insert(e, "mch_id"@, mchid);
    let e = sorted_insert(e, "nonce_str"@, r.nonce_str@);
    let e = sorted_insert(e, "is_subscribe"@, r.is_subscribe@);
    let e = sorted_insert(e, "openid"@, r.openid@);
    let e = sorted_insert(e, "fee_type"@, r.fee_type@);
    let e = sorted_insert(e, "cash_fee"@, decimal(r.cash_fee as nat));
    let e = sorted_insert(e, "bank_type"@, r.bank_type@);
    let e = sorted_insert(e, "attach"@, r.attach@);
    let e = sorted_insert(e, "out_trade_no"@, r.out_trade_no@);
    let e = sorted_insert(e, "result_code"@, r.result_code@);
    let e = sorted_insert(e, "total_fee"@, decimal(r.total_fee as nat));
    let e = sorted_insert(e, "return_code"@, r.return_code@);
    let e = sorted_insert(e, "time_end"@, r.time_end@);
    let e = sorted_insert(e, "trade_type"@, r.trade_type@);
    sorted_insert(e, "transaction_id"@, r.transaction_id@)
}

/// Whether a payment notice carries the signature its fields call for under `api_key`.
pub fn check_pay_result_with(result: &PayResult, appid: &str, mchid: &str, api_key: &str) -> (res: bool)
    ensures
        res == (result.sign@ == pay_sign(pay_result_params(*result, appid@, mchid@), api_key@)),
{
    let cash_fee = u64_to_string(result.cash_fee as u64);
    let total_fee = u64_to_string(result.total_fee as u64);
    let mut strs = ParamMap::new();
    strs.insert("appid", appid);
    strs.insert("mch_id", mchid);
    strs.insert("nonce_str", result.nonce_str.as_str());
    strs.insert("is_subscribe", result.is_subscribe.as_str());
    strs.insert("openid", result.openid.as_str());
    strs.insert("fee_type", result.fee_type.as_str());
    strs.insert("cash_fee", cash_fee.as_str());
    strs.insert("bank_type", result.bank_type.as_str());
    strs.insert("attach", result.attach.as_str());
    strs.insert("out_trade_no", result.out_trade_no.as_str());
    strs.insert("result_code", result.result_code.as_str());
    strs.insert("total_fee", total_fee.as_str());
    strs.insert("return_code", result.return_code.as_str());
    strs.insert("time_end", result.time_end.as_str());
    strs.insert("trade_type", result.trade_type.as_str());
    strs.insert("transaction_id", result.transaction_id.as_str());
    let sign = sign_params(&strs, api_key);
    text_eq(sign.as_str(), result.sign.as_str())
}

/// Whether a payment notice carries the signature its fields call for; the application id,
/// merchant id and API key come from section `app` of the configuration.
pub fn check_pay_result(result: &PayResult, cfg: &ConfigManager) -> (res: bool)
    requires
        cfg.has_str("app"@, "apikey"@),
        cfg.has_str("app"@, "appid"@),
        cfg.has_str("app"@, "mchid"@),
    ensures
        res == (result.sign@ == pay_sign(pay_result_params(*result, cfg.str_of("app"@, "appid"@), cfg.str_of("app"@, "mchid"@)),
            cfg.str_of("app"@, "apikey"@))),
{
    let api_key = cfg.get_config_str("app", "apikey");
    let appid = cfg.get_config_str("app", "appid");
    let mchid = cfg.get_config_str("app", "mchid");
    check_pay_result_with(result, appid.as_str(), mchid.as_str(), api_key.as_str())
}

/// A payment notice's check reads its signature and the fourteen fields it signs, and no other
/// field: two notices that agree on those get the same answer.
pub proof fn lemma_check_reads_signed_fields(r1: PayResult, r2: PayResult, appid: Seq<char>, mchid: Seq<char>, api_key: Seq<char>)
    requires
        r1.sign@ == r2.sign@,
        r1.nonce_str@ == r2.nonce_str@,
        r1.is_subscribe@ == r2.is_subscribe@,
        r1.openid@ == r2.openid@,
        r1.fee_type@ == r2.fee_type@,
        r1.cash_fee == r2.cash_fee,
        r1.bank_type@ == r2.bank_type@,
        r1.attach@ == r2.attach@,
        r1.out_trade_no@ == r2.out_trade_no@,
        r1.result_code@ == r2.result_code@,
        r1.total_fee == r2.total_fee,
        r1.return_code@ == r2.return_code@,
        r1.time_end@ == r2.time_end@,
        r1.trade_type@ == r2.trade_type@,
        r1.transaction_id@ == r2.transaction_id@,
    ensures
        (r1.sign@ == pay_sign(pay_result_params(r1, appid, mchid), api_key))
            == (r2.sign@ == pay_sign(pay_result_params(r2, appid, mchid), api_key)),
{
    assert(pay_result_params(r1, appid, mchid) == pay_result_params(r2, appid, mchid));
}

/// The trip as the database stored it under `id`.
pub open spec fn stored_trip(t: TripView, id: Seq<char>) -> TripView {
    TripView { id: Some(id), ..t }
}

/// After the database stored a trip: with the id it gave, the trip is cached under that id and
/// its owner becomes busy; without an id nothing is cached and the trip is refused.
pub fn add_trip(cache: &mut Cache, trip: Trip, inserted_id: Option<String>) -> (res: Result<(), ServiceError>)
    ensures
        match inserted_id {
            Some(id) => {
                &&& res is Ok
                &&& final(cache)@.trips == upsert(old(cache)@.trips, id@, stored_trip(trip@, id@))
                &&& final(cache)@.busy == (if old(cache)@.busy.contains(trip.openid@) { old(cache)@.busy } else { old(cache)@.busy.push(trip.openid@) })
                &&& final(cache)@.orders == old(cache)@.orders
            },
            None => {
                &&& res matches Err(ServiceError::Other(m)) && m@ == "can't cache trip,there is not oid"@
                &&& final(cache)@ == old(cache)@
            },
        },
{
    match inserted_id {
        Some(id) => {
            let mut o1 = trip;
            o1._id = Some(id);
            let openid = o1.openid.clone();
            cache.add_busy(openid);
            cache.add_trip(o1);
            Ok(())
        },
        None => Err(ServiceError::Other("can't cache trip,there is not oid".to_owned())),
    }
}

/// The first check before booking seats: a user who is already in a trip is refused.
pub fn check_not_busy(cache: &Cache, openid: &str) -> (res: Result<(), ServiceError>)
    ensures
        cache@.busy.contains(openid@) ==> (res matches Err(ServiceError::UserBusy(s)) && s@ == openid@),
        !cache@.busy.contains(openid@) ==> res is Ok,
{
    if cache.is_busy(openid) {
        Err(ServiceError::UserBusy(openid.to_owned()))
    } else {
        Ok(())
    }
}

/// The checks before booking `count` seats on a trip (looked up beforehand): a failed lookup
/// passes its error on, an unreadable count or one above the free seats is refused; otherwise
/// the trip's line id is given, to look up the price.
pub fn apply_trip_check(trip: Result<Trip, ServiceError>, count: &str) -> (res: Result<u32, ServiceError>)
    ensures
        match trip {
            Err(e) => res == Err::<u32, ServiceError>(e),
            Ok(t) => match parse_u32_spec(count@) {
                Err(k) => res matches Err(ServiceError::Other(m)) && m@ == parse_error_message(k),
                Ok(c) => if t.current_seat < c {
                    res matches Err(ServiceError::DontHaveEnoughSeats)
                } else {
                    res == Ok::<u32, ServiceError>(t.line_id)
                },
            },
        },
{
    match trip {
        Err(e) => Err(e),
        Ok(t) => match parse_u32(count) {
            Err(k) => Err(ServiceError::Other(parse_error_text(k))),
            Ok(c) => if t.current_seat < c {
                Err(ServiceError::DontHaveEnoughSeats)
            } else {
                Ok(t.line_id)
            },
        },
    }
}

/// The unified order that books seats on trip `oid` for `openid` at `price` fen: a fresh random
/// order number, body `pinchefei`; ids and domain from section `app` of the configuration.
pub fn apply_trip_prepay(cfg: &ConfigManager, oid: &str, openid: &str, price: u32) -> (res: PrePay)
    requires
        cfg.has_str("app"@, "domain"@),
        cfg.has_str("app"@, "appid"@),
        cfg.has_str("app"@, "mchid"@),
    ensures
        is_nonce(res.out_trade_no@),
        crate::pay::is_new_prepay(res, res.out_trade_no@, oid@, "pinchefei"@, openid@, price, cfg.str_of("app"@, "domain"@),
            cfg.str_of("app"@, "appid"@), cfg.str_of("app"@, "mchid"@)),
{
    let order_id = new_nonce();
    let msg = "pinchefei".to_owned();
    PrePay::new(order_id, oid.to_owned(), msg, openid.to_owned(), price, cfg)
}

/// Booking `count` seats on trip `oid` (looked up beforehand): when the lookup succeeded and
/// enough seats are free, the cached trip (if cached) loses them and the seats left are given;
/// otherwise nothing changes.
pub fn buy_seats(cache: &mut Cache, oid: &str, trip: Result<Trip, ServiceError>, count: u32) -> (res: Option<u32>)
    ensures
        match trip {
            Ok(t) if t.current_seat >= count => {
                &&& res == Some((t.current_seat - count) as u32)
                &&& crate::keyed::keys_unique(final(cache)@.trips)
                &&& final(cache)@.trips == (if has_key(old(cache)@.trips, oid@) {
                    old(cache)@.trips.update(index_of(old(cache)@.trips, oid@),
                        (oid@, TripView { current_seat: (t.current_seat - count) as u32, ..old(cache)@.trips[index_of(old(cache)@.trips, oid@)].1 }))
                } else {
                    old(cache)@.trips
                })
                &&& final(cache)@.orders == old(cache)@.orders
                &&& final(cache)@.busy == old(cache)@.busy
            },
            _ => res is None && final(cache)@ == old(cache)@,
        },
{
    match trip {
        Ok(t) => {
            if t.current_seat >= count {
                let left = t.current_seat - count;
                cache.set_current_seats(oid, left);
                Some(left)
            } else {
                None
            }
        },
        Err(_) => None,
    }
}

/// What a completed payment leaves for the database: the order to store, the seats left on the
/// trip when they were bought, and whether the trip became full.
pub struct PaySuccessPlan {
    pub order: Order,
    pub seats_left: Option<u32>,
    pub trip_full: bool,
}

/// A completed payment for seats on `trip` (the trip named in the payment) at `line_price` fen a
/// seat: the payment buys `total_fee / line_price` seats. When they are free, the cached trip
/// loses them, the payer becomes busy, and a trip left with no seat becomes full; otherwise the
/// order is marked as failed. Either way the order is cached.
pub fn pay_success(cache: &mut Cache, pay: &PayResult, trip: Trip, line_price: u32) -> (res: PaySuccessPlan)
    requires
        line_price > 0,
    ensures
        ({
            let count = (pay.total_fee / line_price) as u32;
            let bought = trip.current_seat >= count;
            let left = trip.current_seat - count;
            &&& res.order@ == OrderView {
                status: if bought { OrderStatus::PaySuccess } else { OrderStatus::PayFail },
                ..crate::model::order_from_pay(*pay, line_price, count)
            }
            &&& res.seats_left == (if bought { Some(left as u32) } else { None })
            &&& res.trip_full == (bought && left == 0)
            &&& final(cache)@.orders == upsert(old(cache)@.orders, pay.openid@, res.order@)
            &&& final(cache)@.busy == (if !bought || old(cache)@.busy.contains(pay.openid@) { old(cache)@.busy } else { old(cache)@.busy.push(pay.openid@) })
            &&& final(cache)@.trips == (if bought && has_key(old(cache)@.trips, pay.attach@) {
                old(cache)@.trips.update(index_of(old(cache)@.trips, pay.attach@),
                    (pay.attach@, TripView {
                        current_seat: left as u32,
                        status: if left == 0 { trip_status_name(TripStatus::Full) } else { old(cache)@.trips[index_of(old(cache)@.trips, pay.attach@)].1.status },
                        ..old(cache)@.trips[index_of(old(cache)@.trips, pay.attach@)].1
                    }))
            } else {
                old(cache)@.trips
            })
        }),
{
    let count = pay.total_fee / line_price;
    let mut order = Order::from_pay_result(pay, line_price, count);
    let ghost t0 = old(cache)@.trips;
    let seats = buy_seats(cache, pay.attach.as_str(), Ok(trip), count);
    let mut full = false;
    match seats {
        None => {
            order.set_status(OrderStatus::PayFail);
        },
        Some(left) => {
            cache.add_busy(pay.openid.clone());
            if left == 0 {
                cache.set_trip_status(pay.attach.as_str(), TripStatus::Full);
                full = true;
                proof {
                    if has_key(t0, pay.attach@) {
                        let i = index_of(t0, pay.attach@);
                        let t1 = t0.update(i, (pay.attach@, TripView { current_seat: left, ..t0[i].1 }));
                        assert(t1[i].0 == pay.attach@);
                        assert(has_key(t1, pay.attach@));
                        let j = index_of(t1, pay.attach@);
                        if j != i {
                            if j < i { assert(t1[j].0 != t1[i].0); } else { assert(t1[i].0 != t1[j].0); }
                        }
                    }
                }
            }
        },
    }
    let stored = order.duplicate();
    cache.add_order(stored);
    PaySuccessPlan { order, seats_left: seats, trip_full: full }
}

/// Whether every order on a trip has been submitted, failed or refunded: none is paid but not
/// yet submitted, and none is still a request.
pub open spec fn all_settled(orders: Seq<OrderView>) -> bool {
    forall|i: int| 0 <= i < orders.len() ==>
        (#[trigger] orders[i]).status != OrderStatus::PaySuccess && orders[i].status != OrderStatus::Request
}

/// An order still paid but not confirmed, or still only requested, anywhere on a trip keeps the
/// trip from finishing.
pub proof fn lemma_open_order_blocks_finish(orders: Seq<OrderView>, i: int)
    requires
        0 <= i < orders.len(),
        orders[i].status == OrderStatus::PaySuccess || orders[i].status == OrderStatus::Request,
    ensures
        !all_settled(orders),
{
}

/// A trip whose every order was submitted, failed or refunded is finished.
pub proof fn lemma_settled_orders_finish(orders: Seq<OrderView>)
    requires
        forall|i: int| 0 <= i < orders.len() ==> {
            let st = (#[trigger] orders[i]).status;
            st == OrderStatus::Submit || st == OrderStatus::PayFail || st == OrderStatus::Refund
        },
    ensures
        all_settled(orders),
{
}

/// Whether every order on a trip has been submitted, failed or refunded.
pub fn trip_finished(orders: &Vec<Order>) -> (res: bool)
    ensures
        res == all_settled(orders@.map_values(|o: Order| o@)),
{
    let ghost v = orders@.map_values(|o: Order| o@);
    let n = orders.len();
    for i in 0..n
        invariant
            n == v.len(),
            v == orders@.map_values(|o: Order| o@),
            all_settled(v.take(i as int)),
    {
        assert(v[i as int] == orders@[i as int]@);
        match orders[i].get_status() {
            OrderStatus::PaySuccess | OrderStatus::Request => {
                return false;
            },
            _ => {},
        }
        assert(all_settled(v.take(i + 1))) by {
            assert forall|j: int| 0 <= j < i + 1 implies
                (#[trigger] v.take(i + 1)[j]).status != OrderStatus::PaySuccess && v.take(i + 1)[j].status != OrderStatus::Request by {
                if j < i {
                    assert(v.take(i + 1)[j] == v.take(i as int)[j]);
                }
            }
        }
    }
    assert(v.take(n as int) =~= v);
    true
}

/// Whether the trip of `openid`'s order (looked up beforehand) is over, and if so its id: it is
/// when every order on it (also looked up beforehand) is settled. A failed lookup means not over.
pub fn check_trip_finish(order: Result<Order, ServiceError>, orders: &Vec<Order>) -> (res: (bool, Option<String>))
    ensures
        match order {
            Ok(o) => {
                &&& res.0 == all_settled(orders@.map_values(|x: Order| x@))
                &&& opt_view(res.1) == (if res.0 { Some(o.trip_id@) } else { None })
            },
            Err(_) => res.0 == false && res.1 is None,
        },
{
    match order {
        Ok(o) => {
            let all_submit = trip_finished(orders);
            if all_submit {
                (true, Some(o.trip_id))
            } else {
                (false, None)
            }
        },
        Err(_) => (false, None),
    }
}

/// Submitting `openid`'s order: the cached order becomes submitted and the user is no longer busy.
pub fn submit_order(cache: &mut Cache, openid: &str)
    ensures
        final(cache)@.orders == (if has_key(old(cache)@.orders, openid@) {
            old(cache)@.orders.update(index_of(old(cache)@.orders, openid@),
                (openid@, OrderView { status: OrderStatus::Submit, ..old(cache)@.orders[index_of(old(cache)@.orders, openid@)].1 }))
        } else {
            old(cache)@.orders
        }),
        forall|x: Seq<char>| #[trigger] final(cache)@.busy.contains(x) == (old(cache)@.busy.contains(x) && x != openid@),
        final(cache)@.trips == old(cache)@.trips,
{
    cache.set_order_status(openid, OrderStatus::Submit);
    cache.not_busy(openid);
}

/// What the passengers of a trip paid in all: the price per seat times the seats taken. A failed
/// lookup gives nothing.
pub fn get_all_fee(trip: Result<Trip, ServiceError>) -> (res: u32)
    requires
        trip matches Ok(t) ==> t.current_seat <= t.seat_count && t.price * (t.seat_count - t.current_seat) <= u32::MAX,
    ensures
        match trip {
            Ok(t) => res == t.price * (t.seat_count - t.current_seat),
            Err(_) => res == 0,
        },
{
    match trip {
        Ok(t) => t.price * (t.seat_count - t.current_seat),
        Err(_) => 0,
    }
}

/// The telephone number an order shows: the owner's if the payer is an owner, else the
/// passenger's, else the one it had.
pub open spec fn payer_tel(owner: Option<Owner>, passenger: Option<Passenger>, tel: Option<Seq<char>>) -> Option<Seq<char>> {
    match owner {
        Some(o) => Some(o.tel@),
        None => match passenger {
            Some(p) => Some(p.tel@),
            None => tel,
        },
    }
}

/// An order with its payer's telephone number: the owner's if the payer is an owner, else the
/// passenger's; unchanged if the payer is neither.
pub fn attach_tel(order: Order, owner: &Option<Owner>, passenger: &Option<Passenger>) -> (res: Order)
    ensures
        res@ == (OrderView { tel: payer_tel(*owner, *passenger, order@.tel), ..order@ }),
{
    let mut order = order;
    match owner {
        Some(o) => {
            order.tel = Some(o.tel.clone());
        },
        None => match passenger {
            Some(p) => {
                order.tel = Some(p.tel.clone());
            },
            None => {},
        },
    }
    order
}

/// The orders on a trip as the trip's owner sees them: each with its payer's telephone number,
/// from the payer's stored records (`users`, looked up beforehand, one for each order).
pub fn attach_tels(orders: &Vec<Order>, users: &Vec<(Option<Owner>, Option<Passenger>)>) -> (res: Vec<Order>)
    requires
        users.len() == orders.len(),
    ensures
        res.len() == orders.len(),
        forall|i: int| 0 <= i < orders.len() ==> (#[trigger] res@[i])@
            == (OrderView { tel: payer_tel(users@[i].0, users@[i].1, orders@[i]@.tel), ..orders@[i]@ }),
{
    let mut res: Vec<Order> = Vec::new();
    let n = orders.len();
    for i in 0..n
        invariant
            n == orders.len(),
            users.len() == n,
            res.len() == i,
            forall|j: int| 0 <= j < i ==> (#[trigger] res@[j])@
                == (OrderView { tel: payer_tel(users@[j].0, users@[j].1, orders@[j]@.tel), ..orders@[j]@ }),
    {
        let o = attach_tel(orders[i].duplicate(), &users[i].0, &users[i].1);
        res.push(o);
    }
    res
}

/// What the trip page shows a user.
pub enum TripInfo {
    /// The trip the user offers, with the orders on it, each with its payer's telephone number.
    Offered { trip: Trip, orders: Vec<Order> },
    /// The trip the user booked seats on, with the user's order.
    Booked { trip: Trip, order: Order },
}

/// What the trip page shows a user, from what was looked up: the trip the user offers (`own`),
/// then, with the orders on it and their payers' stored records, the owner's view; failing
/// that, the user's order and the trip it books, the passenger's view. A failed lookup passes
/// its error on.
pub fn trip_info(own: Result<Trip, ServiceError>, orders: &Vec<Order>, users: &Vec<(Option<Owner>, Option<Passenger>)>,
    order: Result<Order, ServiceError>, order_trip: Result<Trip, ServiceError>) -> (res: Result<TripInfo, ServiceError>)
    requires
        own is Ok ==> users.len() == orders.len(),
    ensures
        match own {
            Ok(t) => res matches Ok(TripInfo::Offered { trip, orders: shown }) && trip == t && shown.len() == orders.len()
                && forall|i: int| 0 <= i < orders.len() ==> (#[trigger] shown@[i])@
                    == (OrderView { tel: payer_tel(users@[i].0, users@[i].1, orders@[i]@.tel), ..orders@[i]@ }),
            Err(_) => match order {
                Err(e) => res == Err::<TripInfo, ServiceError>(e),
                Ok(o) => match order_trip {
                    Err(e) => res == Err::<TripInfo, ServiceError>(e),
                    Ok(t) => res == Ok::<TripInfo, ServiceError>(TripInfo::Booked { trip: t, order: o }),
                },
            },
        },
{
    match own {
        Ok(t) => Ok(TripInfo::Offered { trip: t, orders: attach_tels(orders, users) }),
        Err(_) => match order {
            Err(e) => Err(e),
            Ok(o) => match order_trip {
                Err(e) => Err(e),
                Ok(t) => Ok(TripInfo::Booked { trip: t, order: o }),
            },
        },
    }
}

/// Finishing trip `id` (looked up beforehand): the cached trip is marked finished and its owner is
/// no longer busy; what its passengers paid in all is given, to pay out to the owner, when it is
/// above nothing. A failed lookup only marks the cached trip.
pub fn finish_trip(cache: &mut Cache, id: &str, trip: Result<Trip, ServiceError>) -> (res: Option<u32>)
    requires
        trip matches Ok(t) ==> t.current_seat <= t.seat_count && t.price * (t.seat_count - t.current_seat) <= u32::MAX,
    ensures
        final(cache)@.trips == (if has_key(old(cache)@.trips, id@) {
            old(cache)@.trips.update(index_of(old(cache)@.trips, id@),
                (id@, TripView { status: trip_status_name(TripStatus::Finish), ..old(cache)@.trips[index_of(old(cache)@.trips, id@)].1 }))
        } else {
            old(cache)@.trips
        }),
        final(cache)@.orders == old(cache)@.orders,
        match trip {
            Ok(t) => {
                &&& forall|x: Seq<char>| #[trigger] final(cache)@.busy.contains(x) == (old(cache)@.busy.contains(x) && x != t.openid@)
                &&& res == (if t.price * (t.seat_count - t.current_seat) > 0 {
                    Some((t.price * (t.seat_count - t.current_seat)) as u32)
                } else {
                    None
                })
            },
            Err(_) => final(cache)@.busy == old(cache)@.busy && res is None,
        },
{
    cache.set_trip_status(id, TripStatus::Finish);
    match trip {
        Ok(t) => {
            cache.not_busy(t.openid.as_str());
            let fee = get_all_fee(Ok(t));
            if fee > 0 {
                Some(fee)
            } else {
                None
            }
        },
        Err(_) => None,
    }
}

/// The login status of a user who has signed up, as passenger or owner; anyone else is refused
/// as not logged in.
pub fn signed_up(login: Option<LoginStatus>) -> (res: Result<LoginStatus, ServiceError>)
    ensures
        match login {
            Some(l) => if l.user_type != UserType::Anonymous {
                res == Ok::<LoginStatus, ServiceError>(l)
            } else {
                res matches Err(ServiceError::NoLogin)
            },
            None => res matches Err(ServiceError::NoLogin),
        },
{
    match login {
        Some(l) => if l.user_type != UserType::Anonymous {
            Ok(l)
        } else {
            Err(ServiceError::NoLogin)
        },
        None => Err(ServiceError::NoLogin),
    }
}

/// The login status of a session after a verification code was texted to its user; a session
/// without login status is refused as not logged in.
pub fn with_code(login: Option<LoginStatus>, code: u32) -> (res: Result<LoginStatus, ServiceError>)
    ensures
        match login {
            Some(l) => res matches Ok(r) && r@ == (LoginView { code: Some(code), ..l@ }),
            None => res matches Err(ServiceError::NoLogin),
        },
{
    match login {
        Some(l) => {
            let mut l = l;
            l.code = Some(code);
            Ok(l)
        },
        None => Err(ServiceError::NoLogin),
    }
}

/// Forgetting a finished trip and the orders on it.
pub fn forget_trip(cache: &mut Cache, id: &str, orders: &Vec<Order>)
    ensures
        final(cache)@.trips == crate::keyed::remove_key(old(cache)@.trips, id@),
        final(cache)@.orders == crate::cache::remove_keys(old(cache)@.orders, orders@.map_values(|o: Order| o.openid@)),
        final(cache)@.busy == old(cache)@.busy,
{
    cache.remove_trip(id);
    let mut openids: Vec<String> = Vec::new();
    let n = orders.len();
    for i in 0..n
        invariant
            n == orders@.len(),
            openids@.len() == i,
            forall|j: int| 0 <= j < i ==> #[trigger] openids@[j]@ == orders@[j].openid@,
    {
        openids.push(orders[i].openid.clone());
    }
    assert(openids@.map_values(|s: String| s@) =~= orders@.map_values(|o: Order| o.openid@));
    cache.remove_orders(&openids);
}

/// Marks every cached trip that has started by now as running, and gives their ids.
pub fn update_trips_running(cache: &mut Cache) -> (res: Vec<String>)
    ensures
        exists|now: i64| {
            &&& final(cache)@.trips == running_at(old(cache)@.trips, now)
            &&& res@.map_values(|s: String| s@) == started_ids(old(cache)@.trips, now)
        },
        final(cache)@.orders == old(cache)@.orders,
        final(cache)@.busy == old(cache)@.busy,
{
    let now = now_timestamp();
    cache.update_trips_running(now)
}

} // verus!
