use spotify_server::text::{ascii_string, decimal_text, parse_u16};

#[test]
fn parse_u16_accepts_what_std_accepts() {
    let cases = [
        "8080", "+80", "0065535", "65535", "65536", "-1", "-0", "", "+", "80a", " 80", "0", "++1",
        "99999999999999999999", "00000000000000000000000000000012", "１２",
    ];
    for case in cases {
        assert_eq!(parse_u16(case), case.parse::<u16>().ok(), "input {:?}", case);
    }
}

#[test]
fn parse_u16_exact_values() {
    assert_eq!(parse_u16("8080"), Some(8080));
    assert_eq!(parse_u16("+80"), Some(80));
    assert_eq!(parse_u16("0065535"), Some(65535));
    assert_eq!(parse_u16("65536"), None);
    assert_eq!(parse_u16("-1"), None);
    assert_eq!(parse_u16(""), None);
    assert_eq!(parse_u16("+"), None);
}

#[test]
fn decimal_text_renders_like_format() {
    for n in [0u16, 7, 10, 99, 100, 8080, 65535] {
        assert_eq!(decimal_text(n), format!("{}", n));
    }
    assert_eq!(decimal_text(8080), "8080");
}

#[test]
fn decimal_round_trip_on_all_ports() {
    for n in 0..=u16::MAX {
        assert_eq!(parse_u16(&decimal_text(n)), Some(n));
    }
}

#[test]
fn ascii_string_spells_bytes() {
    assert_eq!(ascii_string(b"Aa0-._~".to_vec()), "Aa0-._~");
    assert_eq!(ascii_string(Vec::new()), "");
}
