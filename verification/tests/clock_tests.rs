use chrono::NaiveDate;
use weixin::clock::{local_time_of, minute_string, now_string, second_string};

#[test]
fn date_and_time_texts() {
    assert_eq!(minute_string(2016, 5, 1, 8, 3), "2016-05-01 08:03");
    assert_eq!(minute_string(33, 12, 31, 23, 59), "0033-12-31 23:59");
    assert_eq!(minute_string(-5, 1, 1, 0, 0), "-0005-01-01 00:00");
    assert_eq!(minute_string(12016, 1, 1, 0, 0), "+12016-01-01 00:00");
    assert_eq!(second_string(2016, 5, 1, 10, 0, 7), "2016-05-01 10:00:07");
}

#[test]
fn chrono_writes_the_same_texts() {
    for (y, mo, d, h, mi, s) in [(2016, 5, 1, 8, 3, 7), (33, 12, 31, 23, 59, 0), (-5, 1, 1, 0, 0, 0), (12016, 2, 29, 1, 2, 3)] {
        let t = NaiveDate::from_ymd_opt(y, mo, d).unwrap().and_hms_opt(h, mi, s).unwrap();
        assert_eq!(second_string(y, mo, d, h, mi, s), t.format("%Y-%m-%d %H:%M:%S").to_string());
    }
}

#[test]
fn local_times_from_what_was_read() {
    assert_eq!(local_time_of(Some((2016, 5, 1, 8, 3)), Some(42)), Some((42, "2016-05-01 08:03".to_string())));
    assert_eq!(local_time_of(Some((2016, 5, 1, 8, 3)), None), None);
    assert_eq!(local_time_of(None, Some(42)), None);
}

#[test]
fn the_time_now() {
    let now = now_string();
    assert_eq!(now.len(), 19);
    let t = chrono::NaiveDateTime::parse_from_str(&now, "%Y-%m-%d %H:%M:%S").expect("a local time");
    assert!(t.and_utc().timestamp() > 1_400_000_000);
}
