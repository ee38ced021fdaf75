use syncnote::numbers::{parse_i64, parse_trimmed_i64, parse_u16, route_id, share_link_hours};

#[test]
fn u16_parsing_matches_std() {
    for s in ["465", "+587", "0", "65535", "65536", "-1", "", "+", "12a", " 25", "0025"] {
        assert_eq!(parse_u16(s), s.parse::<u16>().ok(), "{s:?}");
    }
}

#[test]
fn i64_parsing_matches_std() {
    for s in [
        "0", "-0", "+5", "-5", "9223372036854775807", "9223372036854775808", "-9223372036854775808",
        "-9223372036854775809", "", "-", "+", "1e3", "99999999999999999999999", "00042",
    ] {
        assert_eq!(parse_i64(s), s.parse::<i64>().ok(), "{s:?}");
    }
}

#[test]
fn trimmed_and_route_ids() {
    assert_eq!(parse_trimmed_i64("  12 "), Some(12));
    assert_eq!(route_id(Some("42")), 42);
    assert_eq!(route_id(Some("abc")), 0);
    assert_eq!(route_id(None), 0);
}

#[test]
fn link_hours() {
    assert_eq!(share_link_hours(" 3 ", false), Some(3));
    assert_eq!(share_link_hours("3", true), Some(72));
    assert_eq!(share_link_hours("", true), None);
    assert_eq!(share_link_hours("soon", false), None);
}

#[test]
fn decimal_round_trip() {
    for n in [0i64, 1, -1, 99, i64::MAX, i64::MIN] {
        assert_eq!(parse_i64(&syncnote::text::i64_to_string(n)), Some(n));
    }
}
