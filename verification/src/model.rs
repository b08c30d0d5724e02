//! The records the service keeps: users, lines, trips, orders and WeChat replies.
use vstd::prelude::*;
use crate::text::text_eq;

verus! {

/// The model of an optional text.
pub open spec fn opt_view(o: Option<String>) -> Option<Seq<char>> {
    match o {
        Some(s) => Some(s@),
        None => None,
    }
}

/// A copy of an optional text.
pub fn copy_opt(o: &Option<String>) -> (res: Option<String>)
    ensures
        opt_view(res) == opt_view(*o),
{
    match o {
        Some(s) => Some(s.clone()),
        None => None,
    }
}

/// A driver who offers trips.
#[derive(Clone, Debug)]
pub struct Owner {
    pub tel: String,
    pub car_type: String,
    pub plate_number: String,
    pub openid: String,
}

/// The model of an owner.
pub struct OwnerView {
    pub tel: Seq<char>,
    pub car_type: Seq<char>,
    pub plate_number: Seq<char>,
    pub openid: Seq<char>,
}

impl View for Owner {
    type V = OwnerView;

    open spec fn view(&self) -> OwnerView {
        OwnerView { tel: self.tel@, car_type: self.car_type@, plate_number: self.plate_number@, openid: self.openid@ }
    }
}

impl Owner {
    /// An owner with the given telephone number, car type, plate number and WeChat openid.
    pub fn new(tel: String, car_type: String, plate_number: String, openid: String) -> (res: Owner)
        ensures
            res@ == (OwnerView { tel: tel@, car_type: car_type@, plate_number: plate_number@, openid: openid@ }),
    {
        Owner { tel, car_type, plate_number, openid }
    }

    /// A copy of this owner.
    pub fn duplicate(&self) -> (res: Owner)
        ensures
            res@ == self@,
    {
        Owner {
            tel: self.tel.clone(),
            car_type: self.car_type.clone(),
            plate_number: self.plate_number.clone(),
            openid: self.openid.clone(),
        }
    }
}

/// A user who books seats.
#[derive(Clone, Debug)]
pub struct Passenger {
    pub tel: String,
    pub openid: String,
}

/// The model of a passenger.
pub struct PassengerView {
    pub tel: Seq<char>,
    pub openid: Seq<char>,
}

impl View for Passenger {
    type V = PassengerView;

    open spec fn view(&self) -> PassengerView {
        PassengerView { tel: self.tel@, openid: self.openid@ }
    }
}

impl Passenger {
    /// A passenger with the given telephone number and WeChat openid.
    pub fn new(tel: String, openid: String) -> (res: Passenger)
        ensures
            res@ == (PassengerView { tel: tel@, openid: openid@ }),
    {
        Passenger { tel, openid }
    }

    /// A copy of this passenger.
    pub fn duplicate(&self) -> (res: Passenger)
        ensures
            res@ == self@,
    {
        Passenger { tel: self.tel.clone(), openid: self.openid.clone() }
    }
}

/// A route between two places, with its price per seat in fen.
#[derive(Clone, Debug)]
pub struct Line {
    pub id: u32,
    pub start: String,
    pub end: String,
    pub price: u32,
    pub hot: bool,
}

/// The state of a trip.
#[derive(Clone, Copy, Debug, PartialEq, Eq, Structural)]
pub enum TripStatus {
    Prepare,
    Running,
    Full,
    Finish,
}

/// The stored name of a trip state.
pub open spec fn trip_status_name(s: TripStatus) -> Seq<char> {
    match s {
        TripStatus::Prepare => seq!['P', 'r', 'e', 'p', 'a', 'r', 'e'],
        TripStatus::Running => seq!['R', 'u', 'n', 'n', 'i', 'n', 'g'],
        TripStatus::Full => seq!['F', 'u', 'l', 'l'],
        TripStatus::Finish => seq!['F', 'i', 'n', 'i', 's', 'h'],
    }
}

impl TripStatus {
    /// The stored name of this state (its variant's name).
    pub fn to_string(&self) -> (res: String)
        ensures
            res@ == trip_status_name(*self),
    {
        let s = match self {
            TripStatus::Prepare => "Prepare",
            TripStatus::Running => "Running",
            TripStatus::Full => "Full",
            TripStatus::Finish => "Finish",
        };
        proof {
            reveal_strlit("Prepare");
            reveal_strlit("Running");
            reveal_strlit("Full");
            reveal_strlit("Finish");
        }
        let res = s.to_owned();
        assert(res@ =~= trip_status_name(*self));
        res
    }
}

/// The state of an order.
#[derive(Clone, Copy, Debug, PartialEq, Eq, Structural)]
pub enum OrderStatus {
    Request,
    PaySuccess,
    PayFail,
    Submit,
    Refund,
}

/// The stored name of an order state.
pub open spec fn order_status_name(s: OrderStatus) -> Seq<char> {
    match s {
        OrderStatus::Request => seq!['R', 'e', 'q', 'u', 'e', 's', 't'],
        OrderStatus::PaySuccess => seq!['P', 'a', 'y', 'S', 'u', 'c', 'c', 'e', 's', 's'],
        OrderStatus::PayFail => seq!['P', 'a', 'y', 'F', 'a', 'i', 'l'],
        OrderStatus::Submit => seq!['S', 'u', 'b', 'm', 'i', 't'],
        OrderStatus::Refund => seq!['R', 'e', 'f', 'u', 'n', 'd'],
    }
}

impl OrderStatus {
    /// The order state with the given stored name, if there is one.
    pub fn from_name(name: &str) -> (res: Option<OrderStatus>)
        ensures
            match res {
                Some(st) => order_status_name(st) == name@,
                None => forall|st: OrderStatus| order_status_name(st) != name@,
            },
    {
        proof {
            reveal_strlit("Request");
            reveal_strlit("PaySuccess");
            reveal_strlit("PayFail");
            reveal_strlit("Submit");
            reveal_strlit("Refund");
            assert("Request"@ =~= order_status_name(OrderStatus::Request));
            assert("PaySuccess"@ =~= order_status_name(OrderStatus::PaySuccess));
            assert("PayFail"@ =~= order_status_name(OrderStatus::PayFail));
            assert("Submit"@ =~= order_status_name(OrderStatus::Submit));
            assert("Refund"@ =~= order_status_name(OrderStatus::Refund));
        }
        if text_eq(name, "Request") {
            Some(OrderStatus::Request)
        } else if text_eq(name, "PaySuccess") {
            Some(OrderStatus::PaySuccess)
        } else if text_eq(name, "PayFail") {
            Some(OrderStatus::PayFail)
        } else if text_eq(name, "Submit") {
            Some(OrderStatus::Submit)
        } else if text_eq(name, "Refund") {
            Some(OrderStatus::Refund)
        } else {
            None
        }
    }

    /// The stored name of this state (its variant's name).
    pub fn to_string(&self) -> (res: String)
        ensures
            res@ == order_status_name(*self),
    {
        let s = match self {
            OrderStatus::Request => "Request",
            OrderStatus::PaySuccess => "PaySuccess",
            OrderStatus::PayFail => "PayFail",
            OrderStatus::Submit => "Submit",
            OrderStatus::Refund => "Refund",
        };
        proof {
            reveal_strlit("Request");
            reveal_strlit("PaySuccess");
            reveal_strlit("PayFail");
            reveal_strlit("Submit");
            reveal_strlit("Refund");
        }
        let res = s.to_owned();
        assert(res@ =~= order_status_name(*self));
        res
    }
}

/// A trip offered by an owner on a line.
#[derive(Clone, Debug)]
pub struct Trip {
    /// The database id (hexadecimal object id), once stored.
    pub _id: Option<String>,
    pub openid: String,
    pub owner_id: String,
    pub line_id: u32,
    pub start: String,
    pub end: String,
    /// Price per seat, in fen.
    pub price: u32,
    /// Departure, seconds since the epoch.
    pub start_time: i64,
    pub start_time_text: String,
    pub seat_count: u32,
    pub current_seat: u32,
    pub status: String,
    pub venue: String,
}

/// The model of a trip.
pub struct TripView {
    pub id: Option<Seq<char>>,
    pub openid: Seq<char>,
    pub owner_id: Seq<char>,
    pub line_id: u32,
    pub start: Seq<char>,
    pub end: Seq<char>,
    pub price: u32,
    pub start_time: i64,
    pub start_time_text: Seq<char>,
    pub seat_count: u32,
    pub current_seat: u32,
    pub status: Seq<char>,
    pub venue: Seq<char>,
}

impl View for Trip {
    type V = TripView;

    open spec fn view(&self) -> TripView {
        TripView {
            id: opt_view(self._id),
            openid: self.openid@,
            owner_id: self.owner_id@,
            line_id: self.line_id,
            start: self.start@,
            end: self.end@,
            price: self.price,
            start_time: self.start_time,
            start_time_text: self.start_time_text@,
            seat_count: self.seat_count,
            current_seat: self.current_seat,
            status: self.status@,
            venue: self.venue@,
        }
    }
}

impl Trip {
    /// An empty trip: no id, empty texts, zero numbers.
    pub fn default() -> (res: Trip)
        ensures
            res@ == (TripView {
                id: None,
                openid: Seq::empty(),
                owner_id: Seq::empty(),
                line_id: 0,
                start: Seq::empty(),
                end: Seq::empty(),
                price: 0,
                start_time: 0,
                start_time_text: Seq::empty(),
                seat_count: 0,
                current_seat: 0,
                status: Seq::empty(),
                venue: Seq::empty(),
            }),
    {
        Trip {
            _id: None,
            openid: String::new(),
            owner_id: String::new(),
            line_id: 0,
            start: String::new(),
            end: String::new(),
            price: 0,
            start_time: 0,
            start_time_text: String::new(),
            seat_count: 0,
            current_seat: 0,
            status: String::new(),
            venue: String::new(),
        }
    }

    /// A copy of this trip.
    pub fn duplicate(&self) -> (res: Trip)
        ensures
            res@ == self@,
    {
        Trip {
            _id: copy_opt(&self._id),
            openid: self.openid.clone(),
            owner_id: self.owner_id.clone(),
            line_id: self.line_id,
            start: self.start.clone(),
            end: self.end.clone(),
            price: self.price,
            start_time: self.start_time,
            start_time_text: self.start_time_text.clone(),
            seat_count: self.seat_count,
            current_seat: self.current_seat,
            status: self.status.clone(),
            venue: self.venue.clone(),
        }
    }

    /// Records a new state.
    pub fn set_status(&mut self, status: TripStatus)
        ensures
            final(self)@ == (TripView { status: trip_status_name(status), ..old(self)@ }),
    {
        self.status = status.to_string();
    }
}

/// The payment notice WeChat Pay sends when a payment completes.
#[derive(Clone, Debug)]
pub struct PayResult {
    pub appid: String,
    pub attach: String,
    pub bank_type: String,
    pub cash_fee: u32,
    pub fee_type: String,
    pub is_subscribe: String,
    pub mch_id: String,
    pub nonce_str: String,
    pub openid: String,
    pub out_trade_no: String,
    pub result_code: String,
    pub return_code: String,
    pub sign: String,
    pub time_end: String,
    pub total_fee: u32,
    pub trade_type: String,
    pub transaction_id: String,
}

/// The reply of WeChat Pay to a unified order.
#[derive(Clone, Debug)]
pub struct PrePayResult {
    pub return_code: String,
    pub return_msg: String,
    pub appid: String,
    pub mch_id: String,
    pub nonce_str: String,
    pub sign: String,
    pub result_code: String,
    pub prepay_id: String,
    pub trade_type: String,
}

/// The reply of the WeChat token endpoints.
#[derive(Clone, Debug)]
pub struct ApiResult {
    pub access_token: Option<String>,
    pub expires_in: Option<u32>,
    pub refresh_token: Option<String>,
    pub openid: Option<String>,
    pub scope: Option<String>,
    pub errcode: Option<i64>,
    pub errmsg: Option<String>,
}

/// A passenger's booking of seats on a trip.
#[derive(Clone, Debug)]
pub struct Order {
    pub openid: String,
    pub trip_id: String,
    pub out_trade_no: String,
    pub transaction_id: String,
    /// Price per seat, in fen.
    pub price: u32,
    pub count: u32,
    pub total_fee: u32,
    pub status: OrderStatus,
    pub tel: Option<String>,
}

/// The model of an order.
pub struct OrderView {
    pub openid: Seq<char>,
    pub trip_id: Seq<char>,
    pub out_trade_no: Seq<char>,
    pub transaction_id: Seq<char>,
    pub price: u32,
    pub count: u32,
    pub total_fee: u32,
    pub status: OrderStatus,
    pub tel: Option<Seq<char>>,
}

impl View for Order {
    type V = OrderView;

    open spec fn view(&self) -> OrderView {
        OrderView {
            openid: self.openid@,
            trip_id: self.trip_id@,
            out_trade_no: self.out_trade_no@,
            transaction_id: self.transaction_id@,
            price: self.price,
            count: self.count,
            total_fee: self.total_fee,
            status: self.status,
            tel: opt_view(self.tel),
        }
    }
}

/// The order a completed payment stands for: the payer books `count` seats at `price` on the
/// trip named in the payment's attachment; it starts as paid.
pub open spec fn order_from_pay(pay: PayResult, price: u32, count: u32) -> OrderView {
    OrderView {
        openid: pay.openid@,
        trip_id: pay.attach@,
        out_trade_no: pay.out_trade_no@,
        transaction_id: pay.transaction_id@,
        price: price,
        count: count,
        total_fee: pay.total_fee,
        status: OrderStatus::PaySuccess,
        tel: None,
    }
}

impl Order {
    /// The order a completed payment stands for: the payer books `count` seats at `price` on the
    /// trip named in the payment's attachment; it starts as paid.
    pub fn from_pay_result(pay: &PayResult, price: u32, count: u32) -> (res: Order)
        ensures
            res@ == order_from_pay(*pay, price, count),
    {
        Order {
            openid: pay.openid.clone(),
            trip_id: pay.attach.clone(),
            out_trade_no: pay.out_trade_no.clone(),
            transaction_id: pay.transaction_id.clone(),
            price,
            count,
            total_fee: pay.total_fee,
            status: OrderStatus::PaySuccess,
            tel: None,
        }
    }

    /// A copy of this order.
    pub fn duplicate(&self) -> (res: Order)
        ensures
            res@ == self@,
    {
        Order {
            openid: self.openid.clone(),
            trip_id: self.trip_id.clone(),
            out_trade_no: self.out_trade_no.clone(),
            transaction_id: self.transaction_id.clone(),
            price: self.price,
            count: self.count,
            total_fee: self.total_fee,
            status: self.status,
            tel: copy_opt(&self.tel),
        }
    }

    /// The order's state.
    pub fn get_status(&self) -> (res: OrderStatus)
        ensures
            res == self.status,
    {
        self.status
    }

    /// Records a new state.
    pub fn set_status(&mut self, status: OrderStatus)
        ensures
            final(self)@ == (OrderView { status: status, ..old(self)@ }),
    {
        self.status = status;
    }
}

/// What kind of user a session belongs to.
#[derive(Clone, Copy, Debug, PartialEq, Eq, Structural)]
pub enum UserType {
    Anonymous,
    Passenger,
    Owner,
}

/// The name of a kind of user.
pub open spec fn user_type_name(t: UserType) -> Seq<char> {
    match t {
        UserType::Anonymous => seq!['A', 'n', 'o', 'n', 'y', 'm', 'o', 'u', 's'],
        UserType::Passenger => seq!['P', 'a', 's', 's', 'e', 'n', 'g', 'e', 'r'],
        UserType::Owner => seq!['O', 'w', 'n', 'e', 'r'],
    }
}

impl UserType {
    /// The name of this kind of user (its variant's name).
    pub fn to_string(&self) -> (res: String)
        ensures
            res@ == user_type_name(*self),
    {
        let s = match self {
            UserType::Anonymous => "Anonymous",
            UserType::Passenger => "Passenger",
            UserType::Owner => "Owner",
        };
        proof {
            reveal_strlit("Anonymous");
            reveal_strlit("Passenger");
            reveal_strlit("Owner");
        }
        let res = s.to_owned();
        assert(res@ =~= user_type_name(*self));
        res
    }
}

/// What a session knows of its user.
#[derive(Clone, Debug)]
pub struct LoginStatus {
    pub openid: String,
    pub user_type: UserType,
    pub owner: Option<Owner>,
    pub passenger: Option<Passenger>,
    /// The verification code last sent by text message.
    pub code: Option<u32>,
    pub web_token: Option<String>,
    pub refresh_token: Option<String>,
}

/// The model of a login status.
pub struct LoginView {
    pub openid: Seq<char>,
    pub user_type: UserType,
    pub owner: Option<OwnerView>,
    pub passenger: Option<PassengerView>,
    pub code: Option<u32>,
    pub web_token: Option<Seq<char>>,
    pub refresh_token: Option<Seq<char>>,
}

impl View for LoginStatus {
    type V = LoginView;

    open spec fn view(&self) -> LoginView {
        LoginView {
            openid: self.openid@,
            user_type: self.user_type,
            owner: match self.owner { Some(o) => Some(o@), None => None },
            passenger: match self.passenger { Some(p) => Some(p@), None => None },
            code: self.code,
            web_token: opt_view(self.web_token),
            refresh_token: opt_view(self.refresh_token),
        }
    }
}

impl LoginStatus {
    /// A fresh session: anonymous, knowing nothing.
    pub fn default() -> (res: LoginStatus)
        ensures
            res@ == (LoginView {
                openid: Seq::empty(),
                user_type: UserType::Anonymous,
                owner: None,
                passenger: None,
                code: None,
                web_token: None,
                refresh_token: None,
            }),
    {
        LoginStatus {
            openid: String::new(),
            user_type: UserType::Anonymous,
            owner: None,
            passenger: None,
            code: None,
            web_token: None,
            refresh_token: None,
        }
    }

    /// A copy of this status.
    pub fn duplicate(&self) -> (res: LoginStatus)
        ensures
            res@ == self@,
    {
        LoginStatus {
            openid: self.openid.clone(),
            user_type: self.user_type,
            owner: match &self.owner { Some(o) => Some(o.duplicate()), None => None },
            passenger: match &self.passenger { Some(p) => Some(p.duplicate()), None => None },
            code: self.code,
            web_token: copy_opt(&self.web_token),
            refresh_token: copy_opt(&self.refresh_token),
        }
    }
}

} // verus!
