//! WeChat Pay: unified orders, transfers to users, the JSAPI payment parameters, text
//! messages, and the MD5 signatures they carry.
use vstd::prelude::*;
use vstd::utf8::encode_utf8;
use crate::clock::{fields_in_range, now_string, second_text};
use crate::config::ConfigManager;
use crate::digest::{md5_bytes, md5_digest};
use crate::model::PrePayResult;
use crate::params::{join_key_eq_value, join_key_value, lookup, sorted_insert, Entry, ParamMap,
    lemma_insert_keeps_keys_sorted, lemma_insert_keeps_other_keys, lemma_insert_then_lookup};
use crate::text::{is_hex_digit, lemma_hex_encode_shape, decimal, hex_char_upper, hex_encode, hex_string, signed_decimal, u64_to_string, i64_to_string};

verus! {

/// Upper-case hexadecimal MD5 digest of the UTF-8 encoding of a text.
pub open spec fn md5_hex(s: Seq<char>) -> Seq<char> {
    hex_encode(md5_digest(encode_utf8(s)), true)
}

/// The text WeChat Pay signs: `k=v&` for each parameter in key order, then `key=` and the API key.
pub open spec fn sign_payload(e: Seq<Entry>, api_key: Seq<char>) -> Seq<char> {
    join_key_eq_value(e) + "key="@ + api_key
}

/// The WeChat Pay signature of some parameters.
pub open spec fn pay_sign(e: Seq<Entry>, api_key: Seq<char>) -> Seq<char> {
    md5_hex(sign_payload(e, api_key))
}

/// `<name>value</name>`.
pub open spec fn xml_element(name: Seq<char>, value: Seq<char>) -> Seq<char> {
    "<"@ + name + ">"@ + value + "</"@ + name + ">"@
}

/// The MD5 digest of the UTF-8 encoding of `s`, as 32 upper-case hexadecimal digits.
pub fn to_md5(s: &str) -> (res: String)
    ensures
        res@ == md5_hex(s@),
        res@.len() == 32,
        forall|i: int| 0 <= i < 32 ==> is_hex_digit(#[trigger] res@[i], true),
{
    let bytes = s.as_bytes();
    let digest = md5_bytes(bytes);
    proof { lemma_hex_encode_shape(digest@, true); }
    hex_string(digest.as_slice(), true)
}

/// The WeChat Pay signature of `params` under `api_key`.
pub fn sign_params(params: &ParamMap, api_key: &str) -> (res: String)
    ensures
        res@ == pay_sign(params@, api_key@),
{
    let mut ss = params.to_key_eq_value();
    ss.append("key=");
    ss.append(api_key);
    to_md5(ss.as_str())
}

fn push_element(s: &mut String, indent: &str, name: &str, value: &str)
    ensures
        final(s)@ == old(s)@ + indent@ + xml_element(name@, value@),
{
    s.append(indent);
    s.append("<");
    s.append(name);
    s.append(">");
    s.append(value);
    s.append("</");
    s.append(name);
    s.append(">");
    assert(final(s)@ =~= old(s)@ + indent@ + xml_element(name@, value@));
}

/// A line of the unified order's XML: its indentation, then the element.
pub open spec fn prepay_line(name: Seq<char>, value: Seq<char>) -> Seq<char> {
    "\n\t\t\t\t\t   "@ + xml_element(name, value)
}

/// A line of the transfer's XML: its indentation, then the element.
pub open spec fn transfer_line(name: Seq<char>, value: Seq<char>) -> Seq<char> {
    "\n\t\t\t"@ + xml_element(name, value)
}

/// The unified order sent to WeChat Pay (https://pay.weixin.qq.com/wiki/doc/api/jsapi.php?chapter=9_1).
pub struct PrePay {
    pub appid: String,
    pub mch_id: String,
    pub device_info: Option<String>,
    pub nonce_str: String,
    pub sign: String,
    pub body: String,
    pub detail: Option<String>,
    pub attach: String,
    pub out_trade_no: String,
    pub fee_type: Option<String>,
    pub total_fee: u32,
    pub spbill_create_ip: String,
    pub time_start: Option<String>,
    pub time_expire: Option<String>,
    pub goods_tag: Option<String>,
    pub notify_url: String,
    pub trade_type: String,
    pub product_id: Option<String>,
    pub limit_pay: Option<String>,
    pub openid: String,
}

/// The parameters of a unified order that its signature covers, in key order.
pub open spec fn prepay_params(p: PrePay) -> Seq<Entry> {
    let e = sorted_insert(Seq::empty(), "appid"@, p.appid@);
    let e = sorted_insert(e, "body"@, p.body@);
    let e = sorted_insert(e, "attach"@, p.attach@);
    let e = sorted_insert(e, "mch_id"@, p.mch_id@);
    let e = sorted_insert(e, "nonce_str"@, p.nonce_str@);
    let e = sorted_insert(e, "notify_url"@, p.notify_url@);
    let e = sorted_insert(e, "openid"@, p.openid@);
    let e = sorted_insert(e, "out_trade_no"@, p.out_trade_no@);
    let e = sorted_insert(e, "spbill_create_ip"@, "192.168.1.1"@);
    let e = sorted_insert(e, "total_fee"@, decimal(p.total_fee as nat));
    sorted_insert(e, "trade_type"@, "JSAPI"@)
}

/// The XML of a unified order with its signature.
pub open spec fn prepay_xml(p: PrePay, sign: Seq<char>) -> Seq<char> {
    "\n\t\t    \t\t<xml>"@
        + prepay_line("appid"@, p.appid@)
        + prepay_line("attach"@, p.attach@)
        + prepay_line("body"@, p.body@)
        + prepay_line("mch_id"@, p.mch_id@)
        + prepay_line("nonce_str"@, p.nonce_str@)
        + prepay_line("notify_url"@, p.notify_url@)
        + prepay_line("openid"@, p.openid@)
        + prepay_line("out_trade_no"@, p.out_trade_no@)
        + prepay_line("spbill_create_ip"@, "192.168.1.1"@)
        + prepay_line("total_fee"@, decimal(p.total_fee as nat))
        + prepay_line("trade_type"@, "JSAPI"@)
        + prepay_line("sign"@, sign)
        + "\n\t\t\t\t\t</xml>\n\t\t    \t"@
}

/// Whether `p` is the JSAPI unified order for `fee` fen paid by `openid`, with `order_id` as
/// nonce and merchant order number, `trip_id` as attachment and `msg` as body, for the given
/// notification domain and application and merchant ids.
pub open spec fn is_new_prepay(p: PrePay, order_id: Seq<char>, trip_id: Seq<char>, msg: Seq<char>, openid: Seq<char>, fee: u32,
    domain: Seq<char>, appid: Seq<char>, mchid: Seq<char>) -> bool {
    &&& p.appid@ == appid
    &&& p.mch_id@ == mchid
    &&& p.device_info is None
    &&& p.nonce_str@ == order_id
    &&& p.sign@ == Seq::<char>::empty()
    &&& p.body@ == msg
    &&& p.detail is None
    &&& p.attach@ == trip_id
    &&& p.out_trade_no@ == order_id
    &&& p.fee_type is None
    &&& p.total_fee == fee
    &&& p.spbill_create_ip@ == Seq::<char>::empty()
    &&& p.time_start is None
    &&& p.time_expire is None
    &&& p.goods_tag is None
    &&& p.notify_url@ == domain + "/payResult"@
    &&& p.trade_type@ == "JSAPI"@
    &&& p.product_id is None
    &&& p.limit_pay is None
    &&& p.openid@ == openid
}

impl PrePay {
    /// A JSAPI unified order for `fee` fen paid by `openid`: `order_id` is both the nonce and
    /// the merchant's order number, `trip_id` the attachment, `msg` the body. The application
    /// id, merchant id and notification domain come from section `app` of the configuration.
    pub fn new(order_id: String, trip_id: String, msg: String, openid: String, fee: u32, cfg: &ConfigManager) -> (res: PrePay)
        requires
            cfg.has_str("app"@, "domain"@),
            cfg.has_str("app"@, "appid"@),
            cfg.has_str("app"@, "mchid"@),
        ensures
            is_new_prepay(res, order_id@, trip_id@, msg@, openid@, fee, cfg.str_of("app"@, "domain"@),
                cfg.str_of("app"@, "appid"@), cfg.str_of("app"@, "mchid"@)),
    {
        let mut domain = cfg.get_config_str("app", "domain");
        let appid = cfg.get_config_str("app", "appid");
        let mch_id = cfg.get_config_str("app", "mchid");
        domain.append("/payResult");
        PrePay {
            appid: appid,
            mch_id: mch_id,
            device_info: None,
            nonce_str: order_id.clone(),
            sign: String::new(),
            body: msg,
            detail: None,
            attach: trip_id,
            out_trade_no: order_id,
            fee_type: None,
            total_fee: fee,
            spbill_create_ip: String::new(),
            time_start: None,
            time_expire: None,
            goods_tag: None,
            notify_url: domain,
            trade_type: "JSAPI".to_owned(),
            product_id: None,
            limit_pay: None,
            openid: openid,
        }
    }

    /// The parameters the signature covers, in key order.
    pub fn sign_params(&self) -> (res: ParamMap)
        ensures
            res@ == prepay_params(*self),
    {
        let fee = u64_to_string(self.total_fee as u64);
        let mut strs = ParamMap::new();
        strs.insert("appid", self.appid.as_str());
        strs.insert("body", self.body.as_str());
        strs.insert("attach", self.attach.as_str());
        strs.insert("mch_id", self.mch_id.as_str());
        strs.insert("nonce_str", self.nonce_str.as_str());
        strs.insert("notify_url", self.notify_url.as_str());
        strs.insert("openid", self.openid.as_str());
        strs.insert("out_trade_no", self.out_trade_no.as_str());
        strs.insert("spbill_create_ip", "192.168.1.1");
        strs.insert("total_fee", fee.as_str());
        strs.insert("trade_type", "JSAPI");
        strs
    }

    /// The XML of this order, signed with `api_key`.
    pub fn to_xml_with_key(&self, api_key: &str) -> (res: String)
        ensures
            res@ == prepay_xml(*self, pay_sign(prepay_params(*self), api_key@)),
    {
        let strs = self.sign_params();
        let sign = sign_params(&strs, api_key);
        let fee = u64_to_string(self.total_fee as u64);
        let mut s = String::new();
        s.append("\n\t\t    \t\t<xml>");
        push_element(&mut s, "\n\t\t\t\t\t   ", "appid", self.appid.as_str());
        push_element(&mut s, "\n\t\t\t\t\t   ", "attach", self.attach.as_str());
        push_element(&mut s, "\n\t\t\t\t\t   ", "body", self.body.as_str());
        push_element(&mut s, "\n\t\t\t\t\t   ", "mch_id", self.mch_id.as_str());
        push_element(&mut s, "\n\t\t\t\t\t   ", "nonce_str", self.nonce_str.as_str());
        push_element(&mut s, "\n\t\t\t\t\t   ", "notify_url", self.notify_url.as_str());
        push_element(&mut s, "\n\t\t\t\t\t   ", "openid", self.openid.as_str());
        push_element(&mut s, "\n\t\t\t\t\t   ", "out_trade_no", self.out_trade_no.as_str());
        push_element(&mut s, "\n\t\t\t\t\t   ", "spbill_create_ip", "192.168.1.1");
        push_element(&mut s, "\n\t\t\t\t\t   ", "total_fee", fee.as_str());
        push_element(&mut s, "\n\t\t\t\t\t   ", "trade_type", "JSAPI");
        push_element(&mut s, "\n\t\t\t\t\t   ", "sign", sign.as_str());
        s.append("\n\t\t\t\t\t</xml>\n\t\t    \t");
        assert(s@ =~= prepay_xml(*self, pay_sign(prepay_params(*self), api_key@)));
        s
    }

    /// The XML of this order, signed with the API key of section `app` of the configuration.
    fn to_xml(&self, cfg: &ConfigManager) -> (res: String)
        requires
            cfg.has_str("app"@, "apikey"@),
        ensures
            res@ == prepay_xml(*self, pay_sign(prepay_params(*self), cfg.str_of("app"@, "apikey"@))),
    {
        let api_key = cfg.get_config_str("app", "apikey");
        self.to_xml_with_key(api_key.as_str())
    }
}

/// The request body of a unified order: the order's XML, signed with the API key of section
/// `app` of the configuration. It is posted to `https://api.mch.weixin.qq.com/pay/unifiedorder`.
pub fn pre_pay(p: &PrePay, cfg: &ConfigManager) -> (res: String)
    requires
        cfg.has_str("app"@, "apikey"@),
    ensures
        res@ == prepay_xml(*p, pay_sign(prepay_params(*p), cfg.str_of("app"@, "apikey"@))),
{
    p.to_xml(cfg)
}

/// What a unified order gives for WeChat Pay's reply: the decoded reply, or an error when no
/// reply could be read or decoded.
pub fn pre_pay_outcome(reply: Option<PrePayResult>) -> (res: Result<PrePayResult, &'static str>)
    ensures
        match reply {
            Some(r) => res == Ok::<PrePayResult, &'static str>(r),
            None => res matches Err(e) && e@ == "prepay error!!!"@,
        },
{
    match reply {
        Some(r) => Ok(r),
        None => Err("prepay error!!!"),
    }
}

/// A random 32-digit lower-case hexadecimal nonce (`uuid::Uuid::new_v4().simple()`). Trusted to
/// return 32 characters, each a lower-case hexadecimal digit; which ones is left to chance.
#[verifier::external_body]
pub(crate) fn new_nonce() -> (res: String)
    ensures
        res@.len() == 32,
        forall|i: int| 0 <= i < 32 ==> ('0' <= #[trigger] res@[i] <= '9' || 'a' <= res@[i] <= 'f'),
{
    uuid::Uuid::new_v4().simple().to_string()
}

/// Whether a text is a nonce as `new_nonce` makes them.
pub open spec fn is_nonce(s: Seq<char>) -> bool {
    &&& s.len() == 32
    &&& forall|i: int| 0 <= i < 32 ==> ('0' <= #[trigger] s[i] <= '9' || 'a' <= s[i] <= 'f')
}

/// The current time in seconds since the epoch (`chrono::Local::now().timestamp()`). Nothing is
/// promised of the value: it depends on the clock.
#[verifier::external_body]
pub(crate) fn now_timestamp() -> (res: i64)
{
    chrono::Local::now().timestamp()
}

/// The parameters of a transfer to a user that its signature covers, in key order.
pub open spec fn transfer_params(appid: Seq<char>, mchid: Seq<char>, nonce: Seq<char>, openid: Seq<char>, amount: Seq<char>) -> Seq<Entry> {
    let e = sorted_insert(Seq::empty(), "mch_appid"@, appid);
    let e = sorted_insert(e, "mchid"@, mchid);
    let e = sorted_insert(e, "nonce_str"@, nonce);
    let e = sorted_insert(e, "partner_trade_no"@, nonce);
    let e = sorted_insert(e, "openid"@, openid);
    let e = sorted_insert(e, "check_name"@, "NO_CHECK"@);
    let e = sorted_insert(e, "amount"@, amount);
    let e = sorted_insert(e, "desc"@, "thank you"@);
    sorted_insert(e, "spbill_create_ip"@, "192.168.1.1"@)
}

/// The XML of a transfer to a user with its signature.
pub open spec fn transfer_xml_spec(appid: Seq<char>, mchid: Seq<char>, nonce: Seq<char>, openid: Seq<char>, amount: Seq<char>, sign: Seq<char>) -> Seq<char> {
    "\n\t\t<xml>"@
        + transfer_line("mch_appid"@, appid)
        + transfer_line("mchid"@, mchid)
        + transfer_line("nonce_str"@, nonce)
        + transfer_line("partner_trade_no"@, nonce)
        + transfer_line("openid"@, openid)
        + transfer_line("check_name"@, "NO_CHECK"@)
        + transfer_line("amount"@, amount)
        + transfer_line("desc"@, "thank you"@)
        + transfer_line("spbill_create_ip"@, "192.168.1.1"@)
        + transfer_line("sign"@, sign)
        + "\n\t\t</xml>\n\t"@
}

/// The signed XML of a transfer of `amount` fen to `openid`, with `nonce` as nonce and as the
/// merchant's transfer number.
pub fn transfer_xml(appid: &str, mchid: &str, api_key: &str, nonce: &str, openid: &str, amount: &str) -> (res: String)
    ensures
        res@ == transfer_xml_spec(appid@, mchid@, nonce@, openid@, amount@,
            pay_sign(transfer_params(appid@, mchid@, nonce@, openid@, amount@), api_key@)),
{
    let mut strs = ParamMap::new();
    strs.insert("mch_appid", appid);
    strs.insert("mchid", mchid);
    strs.insert("nonce_str", nonce);
    strs.insert("partner_trade_no", nonce);
    strs.insert("openid", openid);
    strs.insert("check_name", "NO_CHECK");
    strs.insert("amount", amount);
    strs.insert("desc", "thank you");
    strs.insert("spbill_create_ip", "192.168.1.1");
    let sign = sign_params(&strs, api_key);
    let mut s = String::new();
    s.append("\n\t\t<xml>");
    push_element(&mut s, "\n\t\t\t", "mch_appid", appid);
    push_element(&mut s, "\n\t\t\t", "mchid", mchid);
    push_element(&mut s, "\n\t\t\t", "nonce_str", nonce);
    push_element(&mut s, "\n\t\t\t", "partner_trade_no", nonce);
    push_element(&mut s, "\n\t\t\t", "openid", openid);
    push_element(&mut s, "\n\t\t\t", "check_name", "NO_CHECK");
    push_element(&mut s, "\n\t\t\t", "amount", amount);
    push_element(&mut s, "\n\t\t\t", "desc", "thank you");
    push_element(&mut s, "\n\t\t\t", "spbill_create_ip", "192.168.1.1");
    push_element(&mut s, "\n\t\t\t", "sign", sign.as_str());
    s.append("\n\t\t</xml>\n\t");
    assert(s@ =~= transfer_xml_spec(appid@, mchid@, nonce@, openid@, amount@,
        pay_sign(transfer_params(appid@, mchid@, nonce@, openid@, amount@), api_key@)));
    s
}

/// The request body of a transfer of `amount` fen to `openid`, posted to
/// `https://api.mch.weixin.qq.com/mmpaymkttransfers/promotion/transfers`. A fresh random nonce
/// serves as nonce and transfer number; the ids and the API key come from section `app`.
pub fn pay_to_client(cfg: &ConfigManager, openid: &str, amount: &str) -> (res: String)
    requires
        cfg.has_str("app"@, "apikey"@),
        cfg.has_str("app"@, "appid"@),
        cfg.has_str("app"@, "mchid"@),
    ensures
        exists|nonce: Seq<char>| is_nonce(nonce) && res@ == transfer_xml_spec(
            cfg.str_of("app"@, "appid"@), cfg.str_of("app"@, "mchid"@), nonce, openid@, amount@,
            pay_sign(transfer_params(cfg.str_of("app"@, "appid"@), cfg.str_of("app"@, "mchid"@), nonce, openid@, amount@),
                cfg.str_of("app"@, "apikey"@))),
{
    let nonce_str = new_nonce();
    let api_key = cfg.get_config_str("app", "apikey");
    let appid = cfg.get_config_str("app", "appid");
    let mchid = cfg.get_config_str("app", "mchid");
    let res = transfer_xml(appid.as_str(), mchid.as_str(), api_key.as_str(), nonce_str.as_str(), openid, amount);
    assert(is_nonce(nonce_str@));
    res
}

/// The parameters a JSAPI page hands to `WeixinJSBridge` to pay a unified order.
pub struct PayJson {
    pub success: String,
    pub app_id: String,
    pub time_stamp: String,
    pub nonce_str: String,
    pub package: String,
    pub sign_type: String,
    pub pay_sign: String,
}

/// The parameters of the JSAPI payment that its signature covers, in key order.
pub open spec fn pay_json_params(appid: Seq<char>, time: Seq<char>, nonce: Seq<char>, package: Seq<char>) -> Seq<Entry> {
    let e = sorted_insert(Seq::empty(), "appId"@, appid);
    let e = sorted_insert(e, "timeStamp"@, time);
    let e = sorted_insert(e, "nonceStr"@, nonce);
    let e = sorted_insert(e, "package"@, package);
    sorted_insert(e, "signType"@, "MD5"@)
}

/// Whether `j` holds the JSAPI payment parameters of prepay id `prepay_id`.
pub open spec fn is_pay_json(j: PayJson, appid: Seq<char>, api_key: Seq<char>, time: i64, nonce: Seq<char>, prepay_id: Seq<char>) -> bool {
    let package = "prepay_id="@ + prepay_id;
    &&& j.success@ == "true"@
    &&& j.app_id@ == appid
    &&& j.time_stamp@ == signed_decimal(time as int)
    &&& j.nonce_str@ == nonce
    &&& j.package@ == package
    &&& j.sign_type@ == "MD5"@
    &&& j.pay_sign@ == pay_sign(pay_json_params(appid, signed_decimal(time as int), nonce, package), api_key)
}

/// The JSAPI payment parameters of prepay id `prepay_id`, made at `time` with `nonce`.
pub fn pay_json_with(appid: &str, api_key: &str, time: i64, nonce: &str, prepay_id: &str) -> (res: PayJson)
    ensures
        is_pay_json(res, appid@, api_key@, time, nonce@, prepay_id@),
{
    let time_text = i64_to_string(time);
    let mut package = String::new();
    package.append("prepay_id=");
    package.append(prepay_id);
    let mut strs = ParamMap::new();
    strs.insert("appId", appid);
    strs.insert("timeStamp", time_text.as_str());
    strs.insert("nonceStr", nonce);
    strs.insert("package", package.as_str());
    strs.insert("signType", "MD5");
    let sign = sign_params(&strs, api_key);
    assert(package@ =~= "prepay_id="@ + prepay_id@);
    PayJson {
        success: "true".to_owned(),
        app_id: appid.to_owned(),
        time_stamp: time_text,
        nonce_str: nonce.to_owned(),
        package: package,
        sign_type: "MD5".to_owned(),
        pay_sign: sign,
    }
}

/// The JSAPI payment parameters of prepay id `prepay_id`, made now with a fresh random nonce;
/// the application id and API key come from section `app` of the configuration.
pub fn create_pay_json(cfg: &ConfigManager, prepay_id: &str) -> (res: PayJson)
    requires
        cfg.has_str("app"@, "apikey"@),
        cfg.has_str("app"@, "appid"@),
    ensures
        exists|time: i64, nonce: Seq<char>| is_nonce(nonce) && is_pay_json(res,
            cfg.str_of("app"@, "appid"@), cfg.str_of("app"@, "apikey"@), time, nonce, prepay_id@),
{
    let api_key = cfg.get_config_str("app", "apikey");
    let appid = cfg.get_config_str("app", "appid");
    let time = now_timestamp();
    let nonce_str = new_nonce();
    let res = pay_json_with(appid.as_str(), api_key.as_str(), time, nonce_str.as_str(), prepay_id);
    assert(is_nonce(nonce_str@));
    res
}

/// Bytes that `application/x-www-form-urlencoded` leaves as they are.
pub open spec fn form_unchanged(b: u8) -> bool {
    b == 42 || b == 45 || b == 46 || (48 <= b <= 57) || (65 <= b <= 90) || b == 95 || (97 <= b <= 122)
}

/// The `application/x-www-form-urlencoded` byte serialization of one byte: unchanged bytes as
/// themselves, a space as `+`, any other byte as `%` and two upper-case hexadecimal digits.
pub open spec fn form_byte(b: u8) -> Seq<char> {
    if form_unchanged(b) {
        seq![b as char]
    } else if b == 32 {
        seq!['+']
    } else {
        seq!['%', hex_char_upper((b / 16) as int), hex_char_upper((b % 16) as int)]
    }
}

/// The `application/x-www-form-urlencoded` byte serialization of a byte string.
pub open spec fn form_bytes(bs: Seq<u8>) -> Seq<char>
    decreases bs.len(),
{
    if bs.len() == 0 {
        Seq::empty()
    } else {
        form_bytes(bs.drop_last()) + form_byte(bs.last())
    }
}

/// The `application/x-www-form-urlencoded` serialization of a text's UTF-8 encoding.
pub open spec fn form_text(s: Seq<char>) -> Seq<char> {
    form_bytes(encode_utf8(s))
}

/// `url::form_urlencoded::byte_serialize` over the UTF-8 encoding of `s`, collected into a string.
/// Trusted to give the WHATWG `application/x-www-form-urlencoded` byte serialization, as
/// `form_bytes` states it.
#[verifier::external_body]
fn byte_serialize(s: &str) -> (res: String)
    ensures
        res@ == form_text(s@),
{
    url::form_urlencoded::byte_serialize(s.as_bytes()).collect::<String>()
}

/// Form-encoded pairs `k=v` joined by `&`, in order.
pub open spec fn form_pairs(e: Seq<Entry>) -> Seq<char>
    decreases e.len(),
{
    if e.len() == 0 {
        Seq::empty()
    } else if e.len() == 1 {
        form_text(e[0].0) + "="@ + form_text(e[0].1)
    } else {
        form_pairs(e.drop_last()) + "&"@ + form_text(e.last().0) + "="@ + form_text(e.last().1)
    }
}

fn append_pair(s: &mut String, first: bool, name: &str, value: &str)
    ensures
        final(s)@ == old(s)@ + (if first { Seq::empty() } else { "&"@ }) + form_text(name@) + "="@ + form_text(value@),
{
    if !first {
        s.append("&");
    }
    let n = byte_serialize(name);
    let v = byte_serialize(value);
    s.append(n.as_str());
    s.append("=");
    s.append(v.as_str());
    assert(final(s)@ =~= old(s)@ + (if first { Seq::empty() } else { "&"@ }) + form_text(name@) + "="@ + form_text(value@));
}

/// The template parameter of the verification message: the code, and the product name.
pub open spec fn sms_code_param(code: u32) -> Seq<char> {
    "{\"code\":\""@ + decimal(code as nat) + "\",\"product\":\"ttpc\"}"@
}

/// The parameters of the message that texts `code` to `tel`, which its signature covers, in key
/// order.
pub open spec fn sms_params(app_key: Seq<char>, now: Seq<char>, tel: Seq<char>, code: u32) -> Seq<Entry> {
    let e = sorted_insert(Seq::empty(), "method"@, "alibaba.aliqin.fc.sms.num.send"@);
    let e = sorted_insert(e, "app_key"@, app_key);
    let e = sorted_insert(e, "timestamp"@, now);
    let e = sorted_insert(e, "v"@, "2.0"@);
    let e = sorted_insert(e, "sign_method"@, "md5"@);
    let e = sorted_insert(e, "sms_type"@, "normal"@);
    let e = sorted_insert(e, "sms_free_sign_name"@, "\u{8eab}\u{4efd}\u{9a8c}\u{8bc1}"@);
    let e = sorted_insert(e, "rec_num"@, tel);
    let e = sorted_insert(e, "sms_template_code"@, "SMS_7425163"@);
    sorted_insert(e, "sms_param"@, sms_code_param(code))
}

/// The text message carries the time, the number and the code it is given: its `timestamp`,
/// `rec_num` and `sms_param` parameters hold them.
pub proof fn lemma_sms_carries_time_number_code(app_key: Seq<char>, now: Seq<char>, tel: Seq<char>, code: u32)
    ensures
        lookup(sms_params(app_key, now, tel, code), "timestamp"@) == Some(now),
        lookup(sms_params(app_key, now, tel, code), "rec_num"@) == Some(tel),
        lookup(sms_params(app_key, now, tel, code), "sms_param"@) == Some(sms_code_param(code)),
{
    reveal_strlit("method");
    reveal_strlit("app_key");
    reveal_strlit("timestamp");
    reveal_strlit("v");
    reveal_strlit("sign_method");
    reveal_strlit("sms_type");
    reveal_strlit("sms_free_sign_name");
    reveal_strlit("rec_num");
    reveal_strlit("sms_template_code");
    reveal_strlit("sms_param");
    let e0 = Seq::<Entry>::empty();
    let e1 = sorted_insert(e0, "method"@, "alibaba.aliqin.fc.sms.num.send"@);
    let e2 = sorted_insert(e1, "app_key"@, app_key);
    let e3 = sorted_insert(e2, "timestamp"@, now);
    let e4 = sorted_insert(e3, "v"@, "2.0"@);
    let e5 = sorted_insert(e4, "sign_method"@, "md5"@);
    let e6 = sorted_insert(e5, "sms_type"@, "normal"@);
    let e7 = sorted_insert(e6, "sms_free_sign_name"@, "\u{8eab}\u{4efd}\u{9a8c}\u{8bc1}"@);
    let e8 = sorted_insert(e7, "rec_num"@, tel);
    let e9 = sorted_insert(e8, "sms_template_code"@, "SMS_7425163"@);
    lemma_insert_keeps_keys_sorted(e0, "method"@, "alibaba.aliqin.fc.sms.num.send"@);
    lemma_insert_keeps_keys_sorted(e1, "app_key"@, app_key);
    lemma_insert_keeps_keys_sorted(e2, "timestamp"@, now);
    lemma_insert_keeps_keys_sorted(e3, "v"@, "2.0"@);
    lemma_insert_keeps_keys_sorted(e4, "sign_method"@, "md5"@);
    lemma_insert_keeps_keys_sorted(e5, "sms_type"@, "normal"@);
    lemma_insert_keeps_keys_sorted(e6, "sms_free_sign_name"@, "\u{8eab}\u{4efd}\u{9a8c}\u{8bc1}"@);
    lemma_insert_keeps_keys_sorted(e7, "rec_num"@, tel);
    lemma_insert_keeps_keys_sorted(e8, "sms_template_code"@, "SMS_7425163"@);
    let t = "timestamp"@;
    lemma_insert_then_lookup(e2, t, now);
    lemma_insert_keeps_other_keys(e3, "v"@, "2.0"@, t);
    lemma_insert_keeps_other_keys(e4, "sign_method"@, "md5"@, t);
    lemma_insert_keeps_other_keys(e5, "sms_type"@, "normal"@, t);
    lemma_insert_keeps_other_keys(e6, "sms_free_sign_name"@, "\u{8eab}\u{4efd}\u{9a8c}\u{8bc1}"@, t);
    lemma_insert_keeps_other_keys(e7, "rec_num"@, tel, t);
    lemma_insert_keeps_other_keys(e8, "sms_template_code"@, "SMS_7425163"@, t);
    lemma_insert_keeps_other_keys(e9, "sms_param"@, sms_code_param(code), t);
    let r = "rec_num"@;
    lemma_insert_then_lookup(e7, r, tel);
    lemma_insert_keeps_other_keys(e8, "sms_template_code"@, "SMS_7425163"@, r);
    lemma_insert_keeps_other_keys(e9, "sms_param"@, sms_code_param(code), r);
    lemma_insert_then_lookup(e9, "sms_param"@, sms_code_param(code));
}

/// The Alibaba signature of text message parameters: MD5 of the secret, `kv` for each parameter
/// in key order, and the secret again.
pub open spec fn sms_sign(e: Seq<Entry>, secret: Seq<char>) -> Seq<char> {
    md5_hex(secret + join_key_value(e) + secret)
}

/// The form-encoded body of a text message send: the parameters in key order, then the signature.
pub open spec fn sms_body_spec(app_key: Seq<char>, secret: Seq<char>, now: Seq<char>, tel: Seq<char>, code: u32) -> Seq<char> {
    let e = sms_params(app_key, now, tel, code);
    form_pairs(e) + "&"@ + form_text("sign"@) + "="@ + form_text(sms_sign(e, secret))
}

/// The form-encoded body of the text message that sends verification code `code` to `tel`, at
/// time `now`.
pub fn sms_body(app_key: &str, secret: &str, now: &str, tel: &str, code: u32) -> (res: String)
    ensures
        res@ == sms_body_spec(app_key@, secret@, now@, tel@, code),
{
    let mut param = "{\"code\":\"".to_owned();
    let code_text = u64_to_string(code as u64);
    param.append(code_text.as_str());
    param.append("\",\"product\":\"ttpc\"}");
    let mut strs = ParamMap::new();
    strs.insert("method", "alibaba.aliqin.fc.sms.num.send");
    strs.insert("app_key", app_key);
    strs.insert("timestamp", now);
    strs.insert("v", "2.0");
    strs.insert("sign_method", "md5");
    strs.insert("sms_type", "normal");
    strs.insert("sms_free_sign_name", "\u{8eab}\u{4efd}\u{9a8c}\u{8bc1}");
    strs.insert("rec_num", tel);
    strs.insert("sms_template_code", "SMS_7425163");
    strs.insert("sms_param", param.as_str());
    let ghost e = strs@;
    let mut ss = String::new();
    ss.append(secret);
    let kv = strs.to_key_value();
    ss.append(kv.as_str());
    ss.append(secret);
    let sign = to_md5(ss.as_str());
    assert(ss@ =~= secret@ + join_key_value(e) + secret@);
    let mut content = String::new();
    let n = strs.len();
    for i in 0..n
        invariant
            n == e.len(),
            strs@ == e,
            content@ == form_pairs(e.take(i as int)),
    {
        let (k, v) = strs.entry(i);
        append_pair(&mut content, i == 0, k, v);
        proof {
            assert(e.take(i + 1).drop_last() =~= e.take(i as int));
            assert(e.take(i + 1).last() == e[i as int]);
            if i == 0 {
                assert(e.take(0) =~= Seq::<Entry>::empty());
                assert(e.take(1)[0] == e[0]);
            }
        }
    }
    assert(e.take(n as int) =~= e);
    append_pair(&mut content, n == 0, "sign", sign.as_str());
    content
}

/// The form-encoded body of the text message that sends verification code `code` to `tel`,
/// posted to `https://eco.taobao.com/router/rest`; the application key and secret come from
/// section `app` of the configuration, the time stamp is the local time now.
pub fn send_sms(cfg: &ConfigManager, tel: &str, code: u32) -> (res: String)
    requires
        cfg.has_str("app"@, "alikey"@),
        cfg.has_str("app"@, "alisecret"@),
    ensures
        exists|y: i32, mo: u32, d: u32, h: u32, mi: u32, sec: int|
            fields_in_range(mo, d, h, mi) && 0 <= sec <= 60 && res@ == sms_body_spec(cfg.str_of("app"@, "alikey"@),
                cfg.str_of("app"@, "alisecret"@), second_text(y as int, mo as int, d as int, h as int, mi as int, sec), tel@, code),
{
    let key = cfg.get_config_str("app", "alikey");
    let secret = cfg.get_config_str("app", "alisecret");
    let now = now_string();
    sms_body(key.as_str(), secret.as_str(), now.as_str(), tel, code)
}

} // verus!
