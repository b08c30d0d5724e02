use weixin::config::{ConfigManager, ConfigValue};
use weixin::model::{ApiResult, Line, LoginStatus, Owner, Passenger, UserType};
use weixin::service::ServiceError;
use weixin::wx::{publish_form, can_publish, login_from_users, new_trip, parse_start_time, can_publish_trip, register_owner, register_passenger,
    sort3, get_user_info, verification_code, web_token_url, wx_user_url, PublishPage, WxInstance};

fn config() -> ConfigManager {
    let s = |k: &str, v: &str| (k.to_string(), ConfigValue::Str(v.to_string()));
    ConfigManager::new(vec![("app".to_string(), ConfigValue::Table(vec![s("appid", "wxapp"), s("appsecret", "shh"), s("token", "mytoken")]))])
}

fn reply(token: Option<&str>, expires: Option<u32>) -> ApiResult {
    ApiResult {
        access_token: token.map(|s| s.to_string()),
        expires_in: expires,
        refresh_token: None,
        openid: None,
        scope: None,
        errcode: None,
        errmsg: None,
    }
}

fn login(t: UserType, code: Option<u32>) -> LoginStatus {
    let mut l = LoginStatus::default();
    l.openid = "u1".to_string();
    l.user_type = t;
    l.code = code;
    l
}

#[test]
fn sorting_three_texts() {
    let s = |x: &str| x.to_string();
    assert_eq!(sort3(s("c"), s("a"), s("b")), (s("a"), s("b"), s("c")));
    assert_eq!(sort3(s("b"), s("b"), s("a")), (s("a"), s("b"), s("b")));
    assert_eq!(sort3(s("ab"), s("a"), s("")), (s(""), s("a"), s("ab")));
    assert_eq!(sort3(s("z"), s("y"), s("x")), sort3(s("x"), s("z"), s("y")));
}

#[test]
fn server_check() {
    let wx = WxInstance::new(&config());
    match wx.check("1460000000", "nonce42", "echo!", "5bf89f6cc325285c057613831e5ef3e1946d1b9b") {
        Ok(e) => assert_eq!(e, "echo!"),
        Err(_) => panic!("the signature is right"),
    }
    match wx.check("1460000000", "nonce42", "echo!", "5bf89f6cc325285c057613831e5ef3e1946d1b9c") {
        Err(ServiceError::Other(m)) => assert_eq!(m, "check error!"),
        _ => panic!("the signature is wrong"),
    }
}

#[test]
fn access_token_lifecycle() {
    let mut wx = WxInstance::new(&config());
    assert_eq!(wx.access_token, "");
    assert_eq!(wx.access_token_url(), "https://api.weixin.qq.com/cgi-bin/token?grant_type=client_credential&appid=wxapp&secret=shh");
    assert_eq!(wx.apply_token_reply(None), None);
    assert_eq!(wx.apply_token_reply(Some(reply(None, Some(5)))), None);
    assert_eq!(wx.access_token, "");
    assert_eq!(wx.apply_token_reply(Some(reply(Some("tok"), None))), Some(7200));
    assert_eq!(wx.access_token, "tok");
    assert_eq!(wx.access_token_expires, 7200);
    assert_eq!(wx.apply_token_reply(Some(reply(Some("tok2"), Some(180)))), Some(180));
    assert!(!wx.tick());
    assert_eq!(wx.access_token_expires, 120);
    assert!(wx.tick());
    assert_eq!(wx.access_token_expires, 120);
    assert_eq!(wx.user_list_url(), "https://api.weixin.qq.com/cgi-bin/user/get?access_token=tok2");
    assert_eq!(wx.user_info_url("o1"), "https://api.weixin.qq.com/cgi-bin/user/info?access_token=tok2&openid=o1&lang=zh_CN");
}

#[test]
fn oauth_addresses() {
    assert_eq!(
        web_token_url("wxapp", "shh", "c0de"),
        "https://api.weixin.qq.com/sns/oauth2/access_token?appid=wxapp&secret=shh&code=c0de&grant_type=authorization_code"
    );
    assert_eq!(wx_user_url("tk", "o1"), "https://api.weixin.qq.com/sns/userinfo?access_token=tk&openid=o1&lang=zh_CN");
}

#[test]
fn registering_an_owner() {
    let anon = login(UserType::Anonymous, Some(4321));
    match register_owner(anon.clone(), "A123", "sedan", Some("555".to_string()), Some("4321".to_string())) {
        Ok((l, Some(o))) => {
            assert_eq!(l.user_type, UserType::Owner);
            assert_eq!(o.tel, "555");
            assert_eq!(o.plate_number, "A123");
            assert_eq!(o.car_type, "sedan");
            assert_eq!(o.openid, "u1");
            assert_eq!(l.owner.unwrap().plate_number, "A123");
        },
        _ => panic!("the code is right"),
    }
    match register_owner(anon, "A123", "sedan", Some("555".to_string()), Some("1234".to_string())) {
        Err(ServiceError::Other(m)) => assert_eq!(m, "Verify Code Error!"),
        _ => panic!("the code is wrong"),
    }
    let mut p = login(UserType::Passenger, None);
    p.passenger = Some(Passenger::new("777".to_string(), "u1".to_string()));
    match register_owner(p, "B9", "van", None, None) {
        Ok((l, Some(o))) => {
            assert_eq!(l.user_type, UserType::Owner);
            assert_eq!(o.tel, "777");
        },
        _ => panic!("a passenger may register"),
    }
    let o = login(UserType::Owner, None);
    match register_owner(o, "C1", "bus", None, None) {
        Ok((l, None)) => assert_eq!(l.user_type, UserType::Owner),
        _ => panic!("an owner stays"),
    }
}

#[test]
fn registering_a_passenger() {
    let anon = login(UserType::Anonymous, Some(1000));
    match register_passenger(anon.clone(), "555", "1000") {
        Some((l, p)) => {
            assert_eq!(l.user_type, UserType::Passenger);
            assert_eq!(p.tel, "555");
            assert_eq!(p.openid, "u1");
            assert_eq!(l.passenger.unwrap().tel, "555");
        },
        None => panic!("the code is right"),
    }
    assert!(register_passenger(anon, "555", "01000").is_none());
}

#[test]
fn user_info_replies() {
    assert_eq!(get_user_info(&None), "{\"login\":false}");
    assert_eq!(get_user_info(&Some(login(UserType::Passenger, None))), "{\"login\":true,\"userType\":\"Passenger\"}");
    let mut o = login(UserType::Owner, None);
    o.owner = Some(Owner::new("1".to_string(), "car".to_string(), "P-1".to_string(), "u1".to_string()));
    assert_eq!(get_user_info(&Some(o)), "{\"login\":true,\"userType\":\"Owner\",\"plateNumber\":\"P-1\"}");
}

#[test]
fn publishing_pages() {
    let mut o = login(UserType::Owner, None);
    o.owner = Some(Owner::new("1".to_string(), "car".to_string(), "P-1".to_string(), "u1".to_string()));
    assert!(matches!(can_publish_trip(&o), PublishPage::Form(owner) if owner.plate_number == "P-1"));
    assert!(matches!(can_publish_trip(&login(UserType::Passenger, None)), PublishPage::Redirect(u) if u == "/static/driverregister.html"));
    assert!(matches!(can_publish_trip(&login(UserType::Anonymous, None)), PublishPage::Redirect(u) if u == "/static/confirmation.html"));
    assert!(can_publish(&Some(o)));
    assert!(!can_publish(&Some(login(UserType::Passenger, None))));
    assert!(!can_publish(&None));
}

#[test]
fn a_new_trip_on_a_line() {
    let line = Line { id: 3, start: "A".to_string(), end: "B".to_string(), price: 2000, hot: true };
    let t = new_trip(&login(UserType::Owner, None), &line, 3, 1462060800, "2016-05-01 08:00".to_string(), 4, "gate".to_string());
    assert_eq!(t._id, None);
    assert_eq!(t.owner_id, "u1");
    assert_eq!(t.openid, "");
    assert_eq!(t.line_id, 3);
    assert_eq!(t.start, "A");
    assert_eq!(t.end, "B");
    assert_eq!(t.price, 2000);
    assert_eq!(t.start_time, 1462060800);
    assert_eq!(t.start_time_text, "2016-05-01 08:00");
    assert_eq!(t.seat_count, 4);
    assert_eq!(t.current_seat, 4);
    assert_eq!(t.status, "Prepare");
    assert_eq!(t.venue, "gate");
}

#[test]
fn login_after_oauth() {
    let owner = Owner::new("1".to_string(), "car".to_string(), "P".to_string(), "u1".to_string());
    let passenger = Passenger::new("2".to_string(), "u1".to_string());
    let l = login_from_users(Some("w".to_string()), Some("r".to_string()), Some("u1".to_string()), Some(owner.clone()), Some(passenger.clone()));
    assert_eq!(l.user_type, UserType::Owner);
    assert_eq!(l.openid, "u1");
    assert!(l.owner.is_some() && l.passenger.is_some());
    assert_eq!(l.web_token.as_deref(), Some("w"));
    assert_eq!(l.refresh_token.as_deref(), Some("r"));
    let l = login_from_users(None, None, Some("u1".to_string()), None, Some(passenger.clone()));
    assert_eq!(l.user_type, UserType::Passenger);
    let l = login_from_users(None, None, Some("u1".to_string()), None, None);
    assert_eq!(l.user_type, UserType::Anonymous);
    let l = login_from_users(Some("w".to_string()), None, None, Some(owner), Some(passenger));
    assert_eq!(l.user_type, UserType::Anonymous);
    assert_eq!(l.openid, "");
    assert!(l.owner.is_none() && l.passenger.is_none());
}

#[test]
fn verification_codes_have_four_digits() {
    for _ in 0..100 {
        let c = verification_code();
        assert!((1000..9999).contains(&c));
    }
}

#[test]
fn departure_times() {
    let (secs, text) = parse_start_time("2016-05-01T10:30").expect("a time");
    assert_eq!(text, "2016-05-01 10:30");
    assert!((1462050000..1462150000).contains(&secs));
    assert!(parse_start_time("tomorrow").is_none());
    assert!(parse_start_time("2016-05-01 10:30").is_none());
    assert!(parse_start_time("2016-13-01T10:30").is_none());
    let (_, text) = parse_start_time("2016-5-1T8:03").expect("chrono reads single digits");
    assert_eq!(text, "2016-05-01 08:03");
    assert!(parse_start_time("").is_none());
}

#[test]
fn reading_publish_forms() {
    let mut o = login(UserType::Owner, None);
    o.owner = Some(Owner::new("1".to_string(), "car".to_string(), "P-1".to_string(), "u1".to_string()));
    let owner = Some(o);
    let form = publish_form(&owner, "3", "2016-05-01T08:30", "4").expect("a good form");
    assert_eq!(form.line_id, 3);
    assert_eq!(form.seat, 4);
    assert_eq!(form.start_text, "2016-05-01 08:30");
    assert_eq!(Some((form.start_time, form.start_text.clone())), parse_start_time("2016-05-01T08:30"));
    assert!(publish_form(&Some(login(UserType::Passenger, None)), "3", "2016-05-01T08:30", "4").is_none());
    assert!(publish_form(&None, "3", "2016-05-01T08:30", "4").is_none());
    assert!(publish_form(&owner, "three", "2016-05-01T08:30", "4").is_none());
    assert!(publish_form(&owner, "3", "2016-05-01T08:30", "").is_none());
    assert!(publish_form(&owner, "3", "May 1st", "4").is_none());
}
