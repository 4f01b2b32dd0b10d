use bili_ticker_buy::clock::{
    clock_offset, get_local_time, millis_as_i64, millis_from_ntp_seconds, ntp_address,
    seconds_from_reading, server_time_from_reply, server_time_url, time_authority, TimeAuthority, TimeReply, DEFAULT_TIME_URL,
};

fn reply() -> TimeReply {
    TimeReply { data_now: None, data_t: None, server_time: None, time: None }
}

#[test]
fn local_time_is_after_2020() {
    assert!(get_local_time() > 1_577_836_800_000);
}

#[test]
fn seconds_under_data_now() {
    let r = TimeReply { data_now: Some(1_700_000_000), ..reply() };
    assert_eq!(server_time_from_reply(&r), Some(1_700_000_000_000));
}

#[test]
fn data_now_wins_over_other_shapes() {
    let r = TimeReply {
        data_now: Some(2),
        data_t: Some("5".to_string()),
        server_time: Some(7),
        time: Some(9),
    };
    assert_eq!(server_time_from_reply(&r), Some(2000));
}

#[test]
fn millisecond_text_under_data_t() {
    let r = TimeReply { data_t: Some("1700000000123".to_string()), ..reply() };
    assert_eq!(server_time_from_reply(&r), Some(1_700_000_000_123));
    let signed = TimeReply { data_t: Some("+42".to_string()), ..reply() };
    assert_eq!(server_time_from_reply(&signed), Some(42));
}

#[test]
fn unparsable_data_t_falls_through() {
    let r = TimeReply { data_t: Some("12a".to_string()), server_time: Some(55), ..reply() };
    assert_eq!(server_time_from_reply(&r), Some(55));
    let empty = TimeReply { data_t: Some(String::new()), ..reply() };
    assert_eq!(server_time_from_reply(&empty), None);
}

#[test]
fn bare_time_by_magnitude() {
    let secs = TimeReply { time: Some(1_700_000_000), ..reply() };
    assert_eq!(server_time_from_reply(&secs), Some(1_700_000_000_000));
    let millis = TimeReply { time: Some(1_700_000_000_123), ..reply() };
    assert_eq!(server_time_from_reply(&millis), Some(1_700_000_000_123));
    let edge = TimeReply { time: Some(100_000_000_000), ..reply() };
    assert_eq!(server_time_from_reply(&edge), Some(100_000_000_000_000));
}

#[test]
fn no_shape_is_a_sync_error() {
    assert_eq!(server_time_from_reply(&reply()), None);
    let huge = TimeReply { data_now: Some(i64::MAX), ..reply() };
    assert_eq!(server_time_from_reply(&huge), None);
}

#[test]
fn ntp_address_adds_default_port() {
    assert_eq!(ntp_address("ntp.aliyun.com"), "ntp.aliyun.com:123");
    assert_eq!(ntp_address("time.example:4123"), "time.example:4123");
}

#[test]
fn authority_by_scheme() {
    match time_authority(None) {
        TimeAuthority::Http(u) => assert_eq!(u, DEFAULT_TIME_URL),
        TimeAuthority::Ntp(_) => panic!("expected http"),
    }
    match time_authority(Some("https://a.example/now".to_string())) {
        TimeAuthority::Http(u) => assert_eq!(u, "https://a.example/now"),
        TimeAuthority::Ntp(_) => panic!("expected http"),
    }
    match time_authority(Some("pool.ntp.org".to_string())) {
        TimeAuthority::Ntp(a) => assert_eq!(a, "pool.ntp.org:123"),
        TimeAuthority::Http(_) => panic!("expected ntp"),
    }
}

#[test]
fn offset_is_authority_minus_local() {
    assert_eq!(clock_offset(1_000, 400), Some(600));
    assert_eq!(clock_offset(400, 1_000), Some(-600));
    assert_eq!(clock_offset(i64::MIN, 1), None);
}

#[test]
fn ntp_seconds_to_millis() {
    assert_eq!(millis_from_ntp_seconds(5), 5_000);
    assert_eq!(millis_from_ntp_seconds(u32::MAX), 4_294_967_295_000);
}

#[test]
fn reading_to_millis_and_seconds() {
    assert_eq!(millis_as_i64(Some(1_700_000_000_123)), 1_700_000_000_123);
    assert_eq!(millis_as_i64(Some(u128::MAX)), i64::MAX);
    assert_eq!(millis_as_i64(None), 0);
    assert_eq!(seconds_from_reading(Some(1_700_000_000_999)), 1_700_000_000);
    assert_eq!(seconds_from_reading(Some(u128::MAX)), u64::MAX);
    assert_eq!(seconds_from_reading(None), 0);
}

#[test]
fn server_url_defaults() {
    assert_eq!(server_time_url(None), DEFAULT_TIME_URL);
    assert_eq!(server_time_url(Some("ntp.example".to_string())), "ntp.example");
}
