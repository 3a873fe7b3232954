use rayt::color::{hex_byte, hex_digit_value, parse_hex_rgb};

#[test]
fn hex_digits_upper_and_lower() {
    assert_eq!(hex_digit_value(b'0'), Some(0));
    assert_eq!(hex_digit_value(b'9'), Some(9));
    assert_eq!(hex_digit_value(b'a'), Some(10));
    assert_eq!(hex_digit_value(b'F'), Some(15));
    assert_eq!(hex_digit_value(b'g'), None);
    assert_eq!(hex_digit_value(b' '), None);
}

#[test]
fn hex_byte_values() {
    assert_eq!(hex_byte(b'f', b'f'), Some(255));
    assert_eq!(hex_byte(b'8', b'0'), Some(128));
    assert_eq!(hex_byte(b'0', b'A'), Some(10));
    assert_eq!(hex_byte(b'x', b'0'), None);
}

#[test]
fn parses_rrggbb() {
    assert_eq!(parse_hex_rgb(b"ff8000"), Some([255, 128, 0]));
    assert_eq!(parse_hex_rgb(b"1E90fF"), Some([30, 144, 255]));
    assert_eq!(parse_hex_rgb(b"000000"), Some([0, 0, 0]));
}

#[test]
fn rejects_non_hex() {
    assert_eq!(parse_hex_rgb(b"ff80zz"), None);
    assert_eq!(parse_hex_rgb(b"#ff800"), None);
    assert_eq!(parse_hex_rgb(b"+f8000"), None);
}
