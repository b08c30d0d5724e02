use weixin::config::{split_path, ConfigManager, ConfigValue};

fn s(v: &str) -> ConfigValue {
    ConfigValue::Str(v.to_string())
}

fn table(entries: Vec<(&str, ConfigValue)>) -> ConfigValue {
    ConfigValue::Table(entries.into_iter().map(|(k, v)| (k.to_string(), v)).collect())
}

fn config() -> ConfigManager {
    ConfigManager::new(vec![
        ("server".to_string(), table(vec![("port", ConfigValue::Integer(3000))])),
        (
            "app".to_string(),
            table(vec![
                ("appid", s("wxapp")),
                ("ports", ConfigValue::Array(vec![ConfigValue::Integer(1), ConfigValue::Integer(2)])),
                ("names", ConfigValue::Array(vec![s("x"), s("y")])),
                ("empty", ConfigValue::Array(vec![])),
                ("flag", ConfigValue::Other),
                ("db", table(vec![("name", s("carpool")), ("hosts", ConfigValue::Array(vec![s("h0"), table(vec![("port", ConfigValue::Integer(27017))])]))])),
                ("appid", s("second")),
            ]),
        ),
        ("title".to_string(), s("not a table")),
    ])
}

#[test]
fn settings_by_section_and_name() {
    let c = config();
    assert_eq!(c.get_config_num("server", "port"), 3000);
    assert_eq!(c.get_config_str("app", "appid"), "wxapp");
    assert_eq!(c.get_config_num_arr("app", "ports"), vec![1, 2]);
    assert_eq!(c.get_config_str_arr("app", "names"), vec!["x".to_string(), "y".to_string()]);
    assert_eq!(c.get_config_num_arr("app", "empty"), Vec::<i64>::new());
}

#[test]
fn dotted_names_reach_into_tables_and_arrays() {
    let c = config();
    assert_eq!(c.get_config_str("app", "db.name"), "carpool");
    assert_eq!(c.get_config_str("app", "db.hosts.0"), "h0");
    assert_eq!(c.get_config_num("app", "db.hosts.1.port"), 27017);
    assert_eq!(c.get_config_str("app", "names.1"), "y");
    assert!(c.get("app", "db.hosts.2").is_none());
    assert!(c.get("app", "db.hosts.x").is_none());
    assert!(c.get("app", "appid.x").is_none());
    assert!(c.get("title", "x").is_none());
}

#[test]
fn missing_settings() {
    let c = config();
    assert!(c.get("nope", "port").is_none());
    assert!(c.get("server", "nope").is_none());
    assert!(matches!(c.get("app", "flag"), Some(ConfigValue::Other)));
}

#[test]
fn paths_of_dotted_names() {
    assert_eq!(split_path("a.b.c"), vec!["a".to_string(), "b".to_string(), "c".to_string()]);
    assert_eq!(split_path("a"), vec!["a".to_string()]);
    assert_eq!(split_path(""), vec!["".to_string()]);
    assert_eq!(split_path("a..b."), vec!["a".to_string(), "".to_string(), "b".to_string(), "".to_string()]);
}
