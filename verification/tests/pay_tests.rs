use weixin::config::{ConfigManager, ConfigValue};
use weixin::model::PrePayResult;
use weixin::params::ParamMap;
use weixin::pay::{create_pay_json, pay_json_with, pay_to_client, pre_pay, pre_pay_outcome, send_sms, sign_params, sms_body,
    to_md5, transfer_xml, PrePay};

fn config() -> ConfigManager {
    let s = |k: &str, v: &str| (k.to_string(), ConfigValue::Str(v.to_string()));
    ConfigManager::new(vec![(
        "app".to_string(),
        ConfigValue::Table(vec![
            s("appid", "wxapp"),
            s("mchid", "mch1"),
            s("apikey", "secretkey"),
            s("domain", "https://example.com"),
            s("alikey", "ak"),
            s("alisecret", "sec"),
        ]),
    )])
}

fn is_nonce(s: &str) -> bool {
    s.len() == 32 && s.chars().all(|c| c.is_ascii_digit() || ('a'..='f').contains(&c))
}

#[test]
fn md5_of_known_texts() {
    assert_eq!(to_md5(""), "D41D8CD98F00B204E9800998ECF8427E");
    assert_eq!(to_md5("abc"), "900150983CD24FB0D6963F7D28E17F72");
}

fn prepay_params() -> ParamMap {
    let mut p = ParamMap::new();
    p.insert("appid", "wxapp");
    p.insert("body", "pinchefei");
    p.insert("attach", "trip1");
    p.insert("mch_id", "mch1");
    p.insert("nonce_str", "order1");
    p.insert("notify_url", "https://example.com/payResult");
    p.insert("openid", "user1");
    p.insert("out_trade_no", "order1");
    p.insert("spbill_create_ip", "192.168.1.1");
    p.insert("total_fee", "1500");
    p.insert("trade_type", "JSAPI");
    p
}

#[test]
fn signature_of_parameters() {
    assert_eq!(sign_params(&prepay_params(), "secretkey"), "EF81F42D0AFACC83D37FBD5A66708CDB");
}

#[test]
fn new_prepay_fields() {
    let cfg = config();
    let p = PrePay::new("order1".to_string(), "trip1".to_string(), "pinchefei".to_string(), "user1".to_string(), 1500, &cfg);
    assert_eq!(p.appid, "wxapp");
    assert_eq!(p.mch_id, "mch1");
    assert_eq!(p.nonce_str, "order1");
    assert_eq!(p.out_trade_no, "order1");
    assert_eq!(p.attach, "trip1");
    assert_eq!(p.body, "pinchefei");
    assert_eq!(p.openid, "user1");
    assert_eq!(p.total_fee, 1500);
    assert_eq!(p.notify_url, "https://example.com/payResult");
    assert_eq!(p.trade_type, "JSAPI");
    assert_eq!(p.sign, "");
    assert_eq!(p.spbill_create_ip, "");
    assert!(p.device_info.is_none() && p.detail.is_none() && p.fee_type.is_none());
    assert!(p.time_start.is_none() && p.time_expire.is_none() && p.goods_tag.is_none());
    assert!(p.product_id.is_none() && p.limit_pay.is_none());
}

const PREPAY_XML: &str = "\n\t\t    \t\t<xml>\n\t\t\t\t\t   <appid>wxapp</appid>\n\t\t\t\t\t   <attach>trip1</attach>\n\t\t\t\t\t   <body>pinchefei</body>\n\t\t\t\t\t   <mch_id>mch1</mch_id>\n\t\t\t\t\t   <nonce_str>order1</nonce_str>\n\t\t\t\t\t   <notify_url>https://example.com/payResult</notify_url>\n\t\t\t\t\t   <openid>user1</openid>\n\t\t\t\t\t   <out_trade_no>order1</out_trade_no>\n\t\t\t\t\t   <spbill_create_ip>192.168.1.1</spbill_create_ip>\n\t\t\t\t\t   <total_fee>1500</total_fee>\n\t\t\t\t\t   <trade_type>JSAPI</trade_type>\n\t\t\t\t\t   <sign>EF81F42D0AFACC83D37FBD5A66708CDB</sign>\n\t\t\t\t\t</xml>\n\t\t    \t";

#[test]
fn prepay_request_xml() {
    let cfg = config();
    let p = PrePay::new("order1".to_string(), "trip1".to_string(), "pinchefei".to_string(), "user1".to_string(), 1500, &cfg);
    assert_eq!(pre_pay(&p, &cfg), PREPAY_XML);
    assert_eq!(p.to_xml_with_key("secretkey"), PREPAY_XML);
    assert_eq!(sign_params(&p.sign_params(), "secretkey"), "EF81F42D0AFACC83D37FBD5A66708CDB");
}

#[test]
fn prepay_outcome() {
    let r = PrePayResult {
        return_code: "SUCCESS".to_string(),
        return_msg: "OK".to_string(),
        appid: "wxapp".to_string(),
        mch_id: "mch1".to_string(),
        nonce_str: "n".to_string(),
        sign: "s".to_string(),
        result_code: "SUCCESS".to_string(),
        prepay_id: "wx123".to_string(),
        trade_type: "JSAPI".to_string(),
    };
    match pre_pay_outcome(Some(r)) {
        Ok(r) => assert_eq!(r.prepay_id, "wx123"),
        Err(e) => panic!("{}", e),
    }
    assert!(matches!(pre_pay_outcome(None), Err("prepay error!!!")));
}

const TRANSFER_XML: &str = "\n\t\t<xml>\n\t\t\t<mch_appid>wxapp</mch_appid>\n\t\t\t<mchid>mch1</mchid>\n\t\t\t<nonce_str>n1</nonce_str>\n\t\t\t<partner_trade_no>n1</partner_trade_no>\n\t\t\t<openid>owner1</openid>\n\t\t\t<check_name>NO_CHECK</check_name>\n\t\t\t<amount>95</amount>\n\t\t\t<desc>thank you</desc>\n\t\t\t<spbill_create_ip>192.168.1.1</spbill_create_ip>\n\t\t\t<sign>400AC75632D8223DCCBB5F5E72C978E3</sign>\n\t\t</xml>\n\t";

#[test]
fn transfer_request_xml() {
    assert_eq!(transfer_xml("wxapp", "mch1", "secretkey", "n1", "owner1", "95"), TRANSFER_XML);
}

#[test]
fn pay_to_client_uses_a_fresh_nonce() {
    let cfg = config();
    let xml = pay_to_client(&cfg, "owner1", "95");
    let prefix = "\n\t\t<xml>\n\t\t\t<mch_appid>wxapp</mch_appid>\n\t\t\t<mchid>mch1</mchid>\n\t\t\t<nonce_str>";
    assert!(xml.starts_with(prefix));
    let nonce = &xml[prefix.len()..prefix.len() + 32];
    assert!(is_nonce(nonce));
    assert_eq!(xml, transfer_xml("wxapp", "mch1", "secretkey", nonce, "owner1", "95"));
    let other = pay_to_client(&cfg, "owner1", "95");
    assert_ne!(xml, other);
}

#[test]
fn payment_parameters_for_the_page() {
    let j = pay_json_with("wxapp", "secretkey", 1500000000, "nonce1", "wx123");
    assert_eq!(j.success, "true");
    assert_eq!(j.app_id, "wxapp");
    assert_eq!(j.time_stamp, "1500000000");
    assert_eq!(j.nonce_str, "nonce1");
    assert_eq!(j.package, "prepay_id=wx123");
    assert_eq!(j.sign_type, "MD5");
    assert_eq!(j.pay_sign, "74D0206DB0BC9B58F4AC6FED4F988527");
}

#[test]
fn create_pay_json_signs_its_own_time_and_nonce() {
    let cfg = config();
    let j = create_pay_json(&cfg, "wx123");
    assert_eq!(j.success, "true");
    assert_eq!(j.app_id, "wxapp");
    assert_eq!(j.package, "prepay_id=wx123");
    assert!(is_nonce(&j.nonce_str));
    let time: i64 = j.time_stamp.parse().unwrap();
    assert!(time > 1_400_000_000);
    let again = pay_json_with("wxapp", "secretkey", time, &j.nonce_str, "wx123");
    assert_eq!(j.pay_sign, again.pay_sign);
}

const SMS_BODY: &str = "app_key=ak&method=alibaba.aliqin.fc.sms.num.send&rec_num=13800000000&sign_method=md5&sms_free_sign_name=%E8%BA%AB%E4%BB%BD%E9%AA%8C%E8%AF%81&sms_param=%7B%22code%22%3A%224321%22%2C%22product%22%3A%22ttpc%22%7D&sms_template_code=SMS_7425163&sms_type=normal&timestamp=2016-05-01+10%3A00%3A00&v=2.0&sign=5EC6FA7722C8CE9CAE9D88F06BE2123E";

#[test]
fn sms_request_body() {
    assert_eq!(sms_body("ak", "sec", "2016-05-01 10:00:00", "13800000000", 4321), SMS_BODY);
}

#[test]
fn send_sms_texts_the_code_to_the_number() {
    let cfg = config();
    let body = send_sms(&cfg, "13800000000", 4321);
    assert!(body.starts_with("app_key=ak&method=alibaba.aliqin.fc.sms.num.send&rec_num=13800000000"));
    assert!(body.contains("&sms_param=%7B%22code%22%3A%224321%22%2C%22product%22%3A%22ttpc%22%7D"));
    let start = body.find("&timestamp=").unwrap() + "&timestamp=".len();
    let stamp = &body[start..start + 23];
    assert_eq!(&stamp[4..5], "-");
    assert_eq!(&stamp[10..11], "+");
    assert_eq!(&stamp[13..16], "%3A");
    let now = stamp.replace('+', " ").replace("%3A", ":");
    assert_eq!(body, sms_body("ak", "sec", &now, "13800000000", 4321));
}

#[test]
fn md5_text_is_32_upper_case_hex_digits() {
    for s in ["", "a", "\u{4e2d}\u{6587}", "appid=wxapp&key=secretkey"] {
        let h = to_md5(s);
        assert_eq!(h.len(), 32);
        assert!(h.chars().all(|c| c.is_ascii_digit() || ('A'..='F').contains(&c)));
    }
}
