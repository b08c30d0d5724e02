//! The WeChat official account: server checks, access tokens, and the page handlers' decisions.
use vstd::prelude::*;
use vstd::utf8::encode_utf8;
use crate::clock::{minute_text, naive_fields, read_local_time, utc_seconds};
use crate::config::ConfigManager;
use crate::digest::{sha1_bytes, sha1_digest};
use crate::model::{ApiResult, Line, LoginStatus, LoginView, Owner, OwnerView, Passenger, PassengerView, Trip, TripStatus,
    TripView, UserType, opt_view, trip_status_name, user_type_name};
use crate::service::ServiceError;
use crate::text::{parse_u32, parse_u32_spec, ParseIntErrorKind, decimal, hex_encode, hex_string, text_eq, text_less, text_lt, u64_to_string,
    lemma_text_less_asymmetric, lemma_text_less_total, lemma_text_not_less_transitive};

verus! {

/// Whether `r` lists `a`, `b` and `c` in some order.
pub open spec fn is_permutation3(r: Seq<Seq<char>>, a: Seq<char>, b: Seq<char>, c: Seq<char>) -> bool {
    ||| r == seq![a, b, c]
    ||| r == seq![a, c, b]
    ||| r == seq![b, a, c]
    ||| r == seq![b, c, a]
    ||| r == seq![c, a, b]
    ||| r == seq![c, b, a]
}

/// Whether texts are in ascending order of `str`.
pub open spec fn texts_sorted(r: Seq<Seq<char>>) -> bool {
    forall|i: int, j: int| 0 <= i < j < r.len() ==> !text_less(#[trigger] r[j], #[trigger] r[i])
}

/// The text WeChat signs to prove a server request: the token, the nonce and the time stamp
/// sorted as `str`s, then concatenated.
pub open spec fn check_text(r: Seq<Seq<char>>) -> Seq<char> {
    r[0] + r[1] + r[2]
}

/// The lower-case hexadecimal SHA-1 digest of a text's UTF-8 encoding.
pub open spec fn sha1_hex(s: Seq<char>) -> Seq<char> {
    hex_encode(sha1_digest(encode_utf8(s)), false)
}

/// Sorts three texts in ascending order.
pub fn sort3(a: String, b: String, c: String) -> (res: (String, String, String))
    ensures
        is_permutation3(seq![res.0@, res.1@, res.2@], a@, b@, c@),
        texts_sorted(seq![res.0@, res.1@, res.2@]),
{
    let mut x = a;
    let mut y = b;
    let mut z = c;
    if text_lt(y.as_str(), x.as_str()) {
        proof { lemma_text_less_asymmetric(y@, x@); }
        std::mem::swap(&mut x, &mut y);
    }
    assert(!text_less(y@, x@));
    if text_lt(z.as_str(), y.as_str()) {
        proof { lemma_text_less_asymmetric(z@, y@); }
        std::mem::swap(&mut y, &mut z);
    }
    assert(!text_less(z@, y@));
    if text_lt(y.as_str(), x.as_str()) {
        proof { lemma_text_less_asymmetric(y@, x@); }
        std::mem::swap(&mut x, &mut y);
    }
    proof {
        assert(!text_less(y@, x@));
        assert(!text_less(z@, y@));
        lemma_text_not_less_transitive(x@, y@, z@);
        let s = seq![x@, y@, z@];
        assert(s[1] == y@ && s[2] == z@ && s[0] == x@);
    }
    (x, y, z)
}

/// Sorting three texts has one outcome: two ascending orders of the same three texts are the
/// same sequence, so the text the server check signs depends only on the three texts.
pub proof fn lemma_sorted_order_unique(r1: Seq<Seq<char>>, r2: Seq<Seq<char>>, a: Seq<char>, b: Seq<char>, c: Seq<char>)
    requires
        is_permutation3(r1, a, b, c),
        is_permutation3(r2, a, b, c),
        texts_sorted(r1),
        texts_sorted(r2),
    ensures
        r1 == r2,
{
    if a != b { lemma_text_less_total(a, b); }
    if b != c { lemma_text_less_total(b, c); }
    if a != c { lemma_text_less_total(a, c); }
    assert(!text_less(r1[1], r1[0]) && !text_less(r1[2], r1[1]) && !text_less(r1[2], r1[0]));
    assert(!text_less(r2[1], r2[0]) && !text_less(r2[2], r2[1]) && !text_less(r2[2], r2[0]));
    assert(r1.len() == 3 && r2.len() == 3);
    assert(r1[0] == r2[0] && r1[1] == r2[1] && r1[2] == r2[2]);
    assert(r1 =~= r2);
}

/// The WeChat official account's credentials and its current access token.
#[derive(Clone, Debug)]
pub struct WxInstance {
    appid: String,
    secret: String,
    token: String,
    pub access_token: String,
    pub access_token_expires: u32,
    openid: String,
}

impl WxInstance {
    /// The application id.
    pub closed spec fn appid_spec(&self) -> Seq<char> {
        self.appid@
    }

    /// The application secret.
    pub closed spec fn secret_spec(&self) -> Seq<char> {
        self.secret@
    }

    /// The current access token.
    pub closed spec fn access_token_spec(&self) -> Seq<char> {
        self.access_token@
    }

    /// The seconds the current access token has left.
    pub closed spec fn expires_spec(&self) -> u32 {
        self.access_token_expires
    }

    /// The openid the instance keeps (empty as made).
    pub closed spec fn openid_spec(&self) -> Seq<char> {
        self.openid@
    }

    /// The token shared with WeChat for server checks.
    pub closed spec fn token_spec(&self) -> Seq<char> {
        self.token@
    }

    /// The credentials of section `app` of the configuration (`appid`, `appsecret`, `token`),
    /// with no access token yet.
    pub fn new(cfg: &ConfigManager) -> (res: WxInstance)
        requires
            cfg.has_str("app"@, "appid"@),
            cfg.has_str("app"@, "appsecret"@),
            cfg.has_str("app"@, "token"@),
        ensures
            res.appid_spec() == cfg.str_of("app"@, "appid"@),
            res.secret_spec() == cfg.str_of("app"@, "appsecret"@),
            res.token_spec() == cfg.str_of("app"@, "token"@),
            res.access_token_spec() == Seq::<char>::empty(),
            res.expires_spec() == 0,
            res.openid_spec() == Seq::<char>::empty(),
    {
        let appid = cfg.get_config_str("app", "appid");
        let secret = cfg.get_config_str("app", "appsecret");
        let token = cfg.get_config_str("app", "token");
        WxInstance {
            appid,
            secret,
            token,
            access_token: String::new(),
            access_token_expires: 0,
            openid: String::new(),
        }
    }

    /// WeChat's server check: the request is genuine when `signature` is the SHA-1 of the
    /// token, nonce and time stamp sorted and concatenated; then `echostr` is the answer.
    pub fn check(&self, timestamp: &str, nonce: &str, echostr: &str, signature: &str) -> (res: Result<String, ServiceError>)
        ensures
            exists|r: Seq<Seq<char>>| {
                &&& is_permutation3(r, self.token_spec(), nonce@, timestamp@)
                &&& texts_sorted(r)
                &&& if sha1_hex(check_text(r)) == signature@ {
                    res matches Ok(e) && e@ == echostr@
                } else {
                    res matches Err(ServiceError::Other(m)) && m@ == "check error!"@
                }
            },
    {
        let (x, y, z) = sort3(self.token.clone(), nonce.to_owned(), timestamp.to_owned());
        let ghost r = seq![x@, y@, z@];
        let mut ss = x;
        ss.append(y.as_str());
        ss.append(z.as_str());
        assert(ss@ == check_text(r));
        let digest = sha1_bytes(ss.as_str().as_bytes());
        let hh = hex_string(digest.as_slice(), false);
        if text_eq(hh.as_str(), signature) {
            Ok(echostr.to_owned())
        } else {
            Err(ServiceError::Other("check error!".to_owned()))
        }
    }

    /// The address that gives a new access token for these credentials.
    pub fn access_token_url(&self) -> (res: String)
        ensures
            res@ == "https://api.weixin.qq.com/cgi-bin/token?grant_type=client_credential&appid="@
                + self.appid_spec() + "&secret="@ + self.secret_spec(),
    {
        let mut url = "https://api.weixin.qq.com/cgi-bin/token?grant_type=client_credential&appid=".to_owned();
        url.append(self.appid.as_str());
        url.append("&secret=");
        url.append(self.secret.as_str());
        url
    }

    /// Takes in the token endpoint's reply: a reply with a token replaces the token, with the
    /// lifetime it gives or 7200 seconds, which is returned; otherwise nothing changes.
    pub fn apply_token_reply(&mut self, reply: Option<ApiResult>) -> (res: Option<u32>)
        ensures
            match reply {
                Some(r) if r.access_token is Some => {
                    let e = match r.expires_in { Some(x) => x, None => 7200u32 };
                    &&& res == Some(e)
                    &&& final(self).access_token_spec() == r.access_token->0@
                    &&& final(self).expires_spec() == e
                },
                _ => res is None && *final(self) == *old(self),
            },
            final(self).openid_spec() == old(self).openid_spec(),
            final(self).appid_spec() == old(self).appid_spec(),
            final(self).secret_spec() == old(self).secret_spec(),
            final(self).token_spec() == old(self).token_spec(),
    {
        match reply {
            Some(r) => match r.access_token {
                Some(token) => {
                    self.access_token = token;
                    let expires = match r.expires_in {
                        Some(x) => x,
                        None => 7200u32,
                    };
                    self.access_token_expires = expires;
                    Some(expires)
                },
                None => None,
            },
            None => None,
        }
    }

    /// One minute of the token's life passes: a token with two minutes or less left is due for
    /// renewal (`true`, nothing changes); otherwise its life shrinks by sixty seconds.
    pub fn tick(&mut self) -> (res: bool)
        ensures
            res == (old(self).expires_spec() <= 120),
            final(self).expires_spec() == (if res { old(self).expires_spec() } else { (old(self).expires_spec() - 60) as u32 }),
            final(self).access_token_spec() == old(self).access_token_spec(),
            final(self).appid_spec() == old(self).appid_spec(),
            final(self).secret_spec() == old(self).secret_spec(),
            final(self).token_spec() == old(self).token_spec(),
            final(self).openid_spec() == old(self).openid_spec(),
    {
        if self.access_token_expires <= 120 {
            true
        } else {
            self.access_token_expires = self.access_token_expires - 60;
            false
        }
    }

    /// The address that lists the account's followers.
    pub fn user_list_url(&self) -> (res: String)
        ensures
            res@ == "https://api.weixin.qq.com/cgi-bin/user/get?access_token="@ + self.access_token_spec(),
    {
        let mut url = "https://api.weixin.qq.com/cgi-bin/user/get?access_token=".to_owned();
        url.append(self.access_token.as_str());
        url
    }

    /// The address that describes follower `openid`.
    pub fn user_info_url(&self, openid: &str) -> (res: String)
        ensures
            res@ == "https://api.weixin.qq.com/cgi-bin/user/info?access_token="@ + self.access_token_spec()
                + "&openid="@ + openid@ + "&lang=zh_CN"@,
    {
        let mut url = "https://api.weixin.qq.com/cgi-bin/user/info?access_token=".to_owned();
        url.append(self.access_token.as_str());
        url.append("&openid=");
        url.append(openid);
        url.append("&lang=zh_CN");
        url
    }
}

/// The address that trades an OAuth `code` for a web access token of the official account.
pub fn web_token_url(appid: &str, secret: &str, code: &str) -> (res: String)
    ensures
        res@ == "https://api.weixin.qq.com/sns/oauth2/access_token?appid="@ + appid@ + "&secret="@ + secret@
            + "&code="@ + code@ + "&grant_type=authorization_code"@,
{
    let mut url = "https://api.weixin.qq.com/sns/oauth2/access_token?appid=".to_owned();
    url.append(appid);
    url.append("&secret=");
    url.append(secret);
    url.append("&code=");
    url.append(code);
    url.append("&grant_type=authorization_code");
    url
}

/// The address that describes the user a web access token belongs to.
pub fn wx_user_url(token: &str, openid: &str) -> (res: String)
    ensures
        res@ == "https://api.weixin.qq.com/sns/userinfo?access_token="@ + token@ + "&openid="@ + openid@ + "&lang=zh_CN"@,
{
    let mut url = "https://api.weixin.qq.com/sns/userinfo?access_token=".to_owned();
    url.append(token);
    url.append("&openid=");
    url.append(openid);
    url.append("&lang=zh_CN");
    url
}

/// The login status after a successful registration as owner with the given car.
pub open spec fn as_owner(l: LoginView, tel: Seq<char>, car_type: Seq<char>, plate_number: Seq<char>) -> LoginView {
    LoginView {
        owner: Some(OwnerView { tel: tel, car_type: car_type, plate_number: plate_number, openid: l.openid }),
        user_type: UserType::Owner,
        ..l
    }
}

/// Registering the user of a session as owner of a car. An anonymous user must give the code
/// last texted to them (else `Verify Code Error!`) and their telephone number; a passenger keeps
/// their number; an owner stays as they are. Gives the new login status and the owner to store.
pub fn register_owner(login: LoginStatus, plate_number: &str, car_type: &str, tel: Option<String>, code: Option<String>)
    -> (res: Result<(LoginStatus, Option<Owner>), ServiceError>)
    requires
        login.user_type == UserType::Anonymous ==> tel is Some && code is Some && login.code is Some,
        login.user_type == UserType::Passenger ==> login.passenger is Some,
    ensures
        match login.user_type {
            UserType::Anonymous => if code->0@ == decimal(login.code->0 as nat) {
                res matches Ok((l, Some(o))) && l@ == as_owner(login@, tel->0@, car_type@, plate_number@)
                    && Some(o@) == as_owner(login@, tel->0@, car_type@, plate_number@).owner
            } else {
                res matches Err(ServiceError::Other(m)) && m@ == "Verify Code Error!"@
            },
            UserType::Passenger => res matches Ok((l, Some(o)))
                && l@ == as_owner(login@, login.passenger->0.tel@, car_type@, plate_number@)
                && Some(o@) == as_owner(login@, login.passenger->0.tel@, car_type@, plate_number@).owner,
            UserType::Owner => res matches Ok((l, None)) && l@ == login@,
        },
{
    let mut login_status = login;
    let openid = login_status.openid.clone();
    match login_status.user_type {
        UserType::Anonymous => {
            let vcode = match login_status.code { Some(c) => u64_to_string(c as u64), None => String::new() };
            let code_text = match code { Some(c) => c, None => String::new() };
            let tel_text = match tel { Some(t) => t, None => String::new() };
            if text_eq(code_text.as_str(), vcode.as_str()) {
                let owner = Owner::new(tel_text, car_type.to_owned(), plate_number.to_owned(), openid);
                login_status.owner = Some(owner.duplicate());
                login_status.user_type = UserType::Owner;
                Ok((login_status, Some(owner)))
            } else {
                Err(ServiceError::Other("Verify Code Error!".to_owned()))
            }
        },
        UserType::Passenger => {
            let ptel = match &login_status.passenger { Some(p) => p.tel.clone(), None => String::new() };
            let owner = Owner::new(ptel, car_type.to_owned(), plate_number.to_owned(), openid);
            login_status.owner = Some(owner.duplicate());
            login_status.user_type = UserType::Owner;
            Ok((login_status, Some(owner)))
        },
        UserType::Owner => Ok((login_status, None)),
    }
}

/// Registering the user of a session as passenger: with the code last texted to them the user
/// becomes a passenger with telephone number `tel`, and the passenger to store is given; with
/// another code nothing changes.
pub fn register_passenger(login: LoginStatus, tel: &str, code: &str) -> (res: Option<(LoginStatus, Passenger)>)
    requires
        login.code is Some,
    ensures
        if code@ == decimal(login.code->0 as nat) {
            res matches Some((l, p)) && p@ == (PassengerView { tel: tel@, openid: login.openid@ })
                && l@ == (LoginView { passenger: Some(p@), user_type: UserType::Passenger, ..login@ })
        } else {
            res is None
        },
{
    let vcode = match login.code { Some(c) => u64_to_string(c as u64), None => String::new() };
    if text_eq(code, vcode.as_str()) {
        let mut login_status = login;
        let p = Passenger::new(tel.to_owned(), login_status.openid.clone());
        login_status.passenger = Some(p.duplicate());
        login_status.user_type = UserType::Passenger;
        Some((login_status, p))
    } else {
        None
    }
}

/// The reply of the user-info request: whether a user is logged in, their kind, and an owner's
/// plate number, as JSON.
pub open spec fn user_info_text(login: Option<LoginView>) -> Seq<char> {
    match login {
        None => "{\"login\":false}"@,
        Some(l) => match l.user_type {
            UserType::Owner => "{\"login\":true,\"userType\":\""@ + user_type_name(l.user_type) + "\",\"plateNumber\":\""@
                + l.owner->0.plate_number + "\"}"@,
            _ => "{\"login\":true,\"userType\":\""@ + user_type_name(l.user_type) + "\"}"@,
        },
    }
}

/// Every session with a login status is answered as logged in, whatever kind of user it is:
/// the reply is never the logged-out reply, and it begins by naming the user's kind.
pub proof fn lemma_logged_in_reply(l: LoginView)
    ensures
        user_info_text(Some(l)) != user_info_text(None),
        user_info_text(Some(l)).subrange(0, 26 + user_type_name(l.user_type).len() as int)
            == "{\"login\":true,\"userType\":\""@ + user_type_name(l.user_type),
{
    reveal_strlit("{\"login\":true,\"userType\":\"");
    reveal_strlit("{\"login\":false}");
    reveal_strlit("\",\"plateNumber\":\"");
    reveal_strlit("\"}");
    let p = "{\"login\":true,\"userType\":\""@;
    let n = user_type_name(l.user_type);
    let t = user_info_text(Some(l));
    assert(p.len() == 26);
    assert(t[9] == 't');
    assert(user_info_text(None)[9] == 'f');
    assert(t.subrange(0, 26 + n.len() as int) =~= p + n);
}

/// The reply of the user-info request for the login status of a session, if any.
pub fn get_user_info(login: &Option<LoginStatus>) -> (res: String)
    requires
        (match login { Some(l) => l.user_type == UserType::Owner ==> l.owner is Some, None => true }),
    ensures
        res@ == user_info_text(match login { Some(l) => Some(l@), None => None }),
{
    match login {
        None => "{\"login\":false}".to_owned(),
        Some(l) => {
            let mut replay = "{\"login\":true,\"userType\":\"".to_owned();
            let t = l.user_type.to_string();
            replay.append(t.as_str());
            match l.user_type {
                UserType::Owner => {
                    replay.append("\",\"plateNumber\":\"");
                    match &l.owner {
                        Some(o) => replay.append(o.plate_number.as_str()),
                        None => {},
                    }
                    replay.append("\"}");
                },
                _ => {
                    replay.append("\"}");
                },
            }
            replay
        },
    }
}

/// Where the publish-trip page leads: an owner gets the form, filled with their car; a passenger
/// is sent to register as driver, an anonymous user to confirm their telephone number.
pub enum PublishPage {
    Form(Owner),
    Redirect(String),
}

/// Where the publish-trip page leads for the login status of a session.
pub fn can_publish_trip(login: &LoginStatus) -> (res: PublishPage)
    requires
        login.user_type == UserType::Owner ==> login.owner is Some,
    ensures
        match login.user_type {
            UserType::Owner => res matches PublishPage::Form(o) && Some(o@) == login@.owner,
            UserType::Passenger => res matches PublishPage::Redirect(u) && u@ == "/static/driverregister.html"@,
            UserType::Anonymous => res matches PublishPage::Redirect(u) && u@ == "/static/confirmation.html"@,
        },
{
    match login.user_type {
        UserType::Owner => match &login.owner {
            Some(o) => PublishPage::Form(o.duplicate()),
            None => PublishPage::Redirect(String::new()),
        },
        UserType::Passenger => PublishPage::Redirect("/static/driverregister.html".to_owned()),
        UserType::Anonymous => PublishPage::Redirect("/static/confirmation.html".to_owned()),
    }
}

/// Whether the user of a session may publish trips: only owners may.
pub fn can_publish(login: &Option<LoginStatus>) -> (res: bool)
    ensures
        res == (login matches Some(l) && l.user_type == UserType::Owner),
{
    match login {
        Some(l) => l.user_type == UserType::Owner,
        None => false,
    }
}

/// The trip an owner publishes on a line: leaving at `start_time` (shown as `start_text`) from
/// `venue` with `seat` seats, all free, at the line's price, waiting for passengers.
pub fn new_trip(login: &LoginStatus, line: &Line, line_id: u32, start_time: i64, start_text: String, seat: u32, venue: String)
    -> (res: Trip)
    ensures
        res@ == (TripView {
            id: None,
            openid: Seq::empty(),
            owner_id: login.openid@,
            line_id: line_id,
            start: line.start@,
            end: line.end@,
            price: line.price,
            start_time: start_time,
            start_time_text: start_text@,
            seat_count: seat,
            current_seat: seat,
            status: trip_status_name(TripStatus::Prepare),
            venue: venue@,
        }),
{
    let mut t = Trip::default();
    t.owner_id = login.openid.clone();
    t.line_id = line_id;
    t.start = line.start.clone();
    t.end = line.end.clone();
    t.price = line.price;
    t.start_time = start_time;
    t.start_time_text = start_text;
    t.seat_count = seat;
    t.current_seat = seat;
    t.status = TripStatus::Prepare.to_string();
    t.venue = venue;
    t
}

/// The login status of a user just signed in through OAuth: the web tokens, the openid if any,
/// and the kind of user their stored records make them: an owner when they have an owner record,
/// else a passenger when they have a passenger record, else anonymous.
pub fn login_from_users(web_token: Option<String>, refresh_token: Option<String>, openid: Option<String>,
    owner: Option<Owner>, passenger: Option<Passenger>) -> (res: LoginStatus)
    ensures
        res@ == (LoginView {
            openid: match openid { Some(o) => o@, None => Seq::empty() },
            user_type: if openid is None { UserType::Anonymous } else if owner is Some { UserType::Owner }
                else if passenger is Some { UserType::Passenger } else { UserType::Anonymous },
            owner: if openid is None { None } else { match owner { Some(o) => Some(o@), None => None } },
            passenger: if openid is None { None } else { match passenger { Some(p) => Some(p@), None => None } },
            code: None,
            web_token: opt_view(web_token),
            refresh_token: opt_view(refresh_token),
        }),
{
    let mut login_status = LoginStatus::default();
    login_status.web_token = web_token;
    login_status.refresh_token = refresh_token;
    match openid {
        Some(id) => {
            login_status.openid = id;
            match (owner, passenger) {
                (None, Some(p)) => {
                    login_status.user_type = UserType::Passenger;
                    login_status.passenger = Some(p);
                },
                (Some(o), None) => {
                    login_status.user_type = UserType::Owner;
                    login_status.owner = Some(o);
                },
                (Some(o), Some(p)) => {
                    login_status.user_type = UserType::Owner;
                    login_status.owner = Some(o);
                    login_status.passenger = Some(p);
                },
                (None, None) => {
                    login_status.user_type = UserType::Anonymous;
                },
            }
        },
        None => {},
    }
    login_status
}

/// `rand::random_range(low..high)`: a random number from `low` up to, not including, `high`.
/// Which number is left to chance.
#[verifier::external_body]
fn random_in(low: u32, high: u32) -> (res: u32)
    requires
        low < high,
    ensures
        low <= res < high,
{
    rand::random_range(low..high)
}

/// A fresh random verification code to text to a user, from 1000 to 9998.
pub fn verification_code() -> (res: u32)
    ensures
        1000 <= res < 9999,
{
    random_in(1000, 9999)
}

/// The departure time a publish form gives, `%Y-%m-%dT%H:%M` read in the machine's time zone:
/// seconds since the epoch, and the text to show as `%Y-%m-%d %H:%M`. A text that does not match
/// the format is refused; for one that matches, the text shown is what was read, and the instant
/// is the UTC reading of the fields read less the time zone's offset there, which is under a day
/// (none for a local time that does not exist or is ambiguous).
pub fn parse_start_time(text: &str) -> (res: Option<(i64, String)>)
    ensures
        match naive_fields(text@, "%Y-%m-%dT%H:%M"@) {
            None => res is None,
            Some((y, mo, d, h, mi)) => res matches Some((t, shown)) ==> {
                &&& shown@ == minute_text(y as int, mo as int, d as int, h as int, mi as int)
                &&& -86400 < utc_seconds(y as int, mo as int, d as int, h as int, mi as int) - t < 86400
            },
        },
{
    read_local_time(text, "%Y-%m-%dT%H:%M")
}

/// What a publish form asks for, once read: the line, the seats, and the departure as an
/// instant and as the text to show.
pub struct PublishForm {
    pub line_id: u32,
    pub seat: u32,
    pub start_time: i64,
    pub start_text: String,
}

/// Reading a publish form: only an owner may publish; the line number and the seat count must
/// be numbers, and the departure a `%Y-%m-%dT%H:%M` time. Whatever is refused gives nothing.
pub fn publish_form(login: &Option<LoginStatus>, line_id: &str, start_time: &str, seat_count: &str) -> (res: Option<PublishForm>)
    ensures
        !(login matches Some(l) && l.user_type == UserType::Owner) ==> res is None,
        parse_u32_spec(line_id@) is Err ==> res is None,
        parse_u32_spec(seat_count@) is Err ==> res is None,
        naive_fields(start_time@, "%Y-%m-%dT%H:%M"@) is None ==> res is None,
        res matches Some(f) ==> {
            &&& parse_u32_spec(line_id@) == Ok::<u32, ParseIntErrorKind>(f.line_id)
            &&& parse_u32_spec(seat_count@) == Ok::<u32, ParseIntErrorKind>(f.seat)
            &&& naive_fields(start_time@, "%Y-%m-%dT%H:%M"@) matches Some((y, mo, d, h, mi))
            &&& f.start_text@ == minute_text(y as int, mo as int, d as int, h as int, mi as int)
            &&& -86400 < utc_seconds(y as int, mo as int, d as int, h as int, mi as int) - f.start_time < 86400
        },
{
    if !can_publish(login) {
        return None;
    }
    let id = match parse_u32(line_id) {
        Ok(id) => id,
        Err(_) => { return None; },
    };
    let seat = match parse_u32(seat_count) {
        Ok(seat) => seat,
        Err(_) => { return None; },
    };
    match parse_start_time(start_time) {
        Some((start, text)) => Some(PublishForm { line_id: id, seat, start_time: start, start_text: text }),
        None => None,
    }
}

} // verus!
