use roblox_studio_bridge::text::{decimal_string, is_whitespace, parse_u16, str_eq, str_less, two_digit_string};

#[test]
fn parses_ports_like_std() {
    for s in ["0", "7878", "+42", "65535", "007", "", "+", "-1", "65536", "12a", " 1", "99999999999"] {
        assert_eq!(parse_u16(s), s.parse::<u16>().ok(), "{s:?}");
    }
}

#[test]
fn decimal_and_two_digit_text() {
    assert_eq!(decimal_string(0), "0");
    assert_eq!(decimal_string(7878), "7878");
    assert_eq!(decimal_string(u64::MAX), u64::MAX.to_string());
    assert_eq!(two_digit_string(5), "05");
    assert_eq!(two_digit_string(59), "59");
}

#[test]
fn port_text_round_trips() {
    for p in [0u16, 1, 9, 10, 3000, 65535] {
        assert_eq!(parse_u16(&decimal_string(p as u64)), Some(p));
    }
}

#[test]
fn string_order_and_equality() {
    assert!(str_less("2024-11-05", "2025-03-26"));
    assert!(!str_less("2025-03-26", "2025-03-26"));
    assert!(str_less("2025", "2025-03-26"));
    assert!(!str_less("b", "abc"));
    assert!(str_eq("tools/list", "tools/list"));
    assert!(!str_eq("tools/list", "tools/lis"));
}

#[test]
fn whitespace_matches_std() {
    for u in 0u32..0x3100 {
        if let Some(c) = char::from_u32(u) {
            assert_eq!(is_whitespace(c), c.is_whitespace(), "U+{u:04X}");
        }
    }
}

#[test]
fn order_matches_std() {
    let words = ["", "a", "ab", "b", "2024-11-05", "2025-03-26", "2025-03-27", "é", "z", "ü"];
    for a in words {
        for b in words {
            assert_eq!(str_less(a, b), a < b, "{a:?} < {b:?}");
        }
    }
}
