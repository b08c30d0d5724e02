use weixin::params::ParamMap;

#[test]
fn parameters_are_kept_in_key_order() {
    let mut p = ParamMap::new();
    p.insert("b", "2");
    p.insert("a", "1");
    p.insert("c", "3");
    assert_eq!(p.len(), 3);
    assert_eq!(p.entry(0), ("a", "1"));
    assert_eq!(p.entry(1), ("b", "2"));
    assert_eq!(p.entry(2), ("c", "3"));
    assert_eq!(p.to_key_eq_value(), "a=1&b=2&c=3&");
    assert_eq!(p.to_key_value(), "a1b2c3");
}

#[test]
fn inserting_a_key_again_replaces_its_value() {
    let mut p = ParamMap::new();
    p.insert("k", "old");
    p.insert("j", "x");
    p.insert("k", "new");
    assert_eq!(p.len(), 2);
    assert_eq!(p.entry(1), ("k", "new"));
    assert_eq!(p.to_key_eq_value(), "j=x&k=new&");
}

#[test]
fn empty_parameters() {
    let p = ParamMap::new();
    assert_eq!(p.len(), 0);
    assert_eq!(p.to_key_eq_value(), "");
    assert_eq!(p.to_key_value(), "");
}

#[test]
fn keys_order_by_code_point() {
    let mut p = ParamMap::new();
    p.insert("timeStamp", "1");
    p.insert("appId", "2");
    p.insert("signType", "3");
    p.insert("package", "4");
    p.insert("nonceStr", "5");
    assert_eq!(p.to_key_eq_value(), "appId=2&nonceStr=5&package=4&signType=3&timeStamp=1&");
}
