use microservices::hex::{char_nibble, nibble_str, u16_from_hex, u16_to_hex, ParseHexError};

#[test]
fn nibbles_render_in_lower_case() {
    let text: String = (0u8..16).map(nibble_str).collect();
    assert_eq!(text, "0123456789abcdef");
    for n in 0u8..16 {
        assert_eq!(char_nibble(nibble_str(n).chars().next().unwrap()), Some(n));
    }
}

#[test]
fn digits_of_either_case_have_values() {
    assert_eq!(char_nibble('0'), Some(0));
    assert_eq!(char_nibble('9'), Some(9));
    assert_eq!(char_nibble('a'), Some(10));
    assert_eq!(char_nibble('f'), Some(15));
    assert_eq!(char_nibble('A'), Some(10));
    assert_eq!(char_nibble('F'), Some(15));
    assert_eq!(char_nibble('g'), None);
    assert_eq!(char_nibble('G'), None);
    assert_eq!(char_nibble('/'), None);
    assert_eq!(char_nibble(':'), None);
    assert_eq!(char_nibble('@'), None);
    assert_eq!(char_nibble('`'), None);
    assert_eq!(char_nibble(' '), None);
    assert_eq!(char_nibble('é'), None);
}

#[test]
fn u16_renders_as_four_digits() {
    assert_eq!(u16_to_hex(0), "0000");
    assert_eq!(u16_to_hex(0x1000), "1000");
    assert_eq!(u16_to_hex(0x00ff), "00ff");
    assert_eq!(u16_to_hex(0xabcd), "abcd");
    assert_eq!(u16_to_hex(0xffff), "ffff");
}

#[test]
fn u16_parses_like_std() {
    let cases = [
        "", "+", "-", "0", "00", "f", "F", "ffff", "FFFF", "+ffff", "10000", "0000000ffff",
        "0x10", "12 ", " 12", "1_0", "-0", "++1", "+-1", "123456789", "fffg", "é",
    ];
    for case in cases {
        let expected = u16::from_str_radix(case, 16).ok();
        assert_eq!(u16_from_hex(case).ok(), expected, "case {:?}", case);
    }
}

#[test]
fn parse_errors_name_the_first_fault() {
    assert_eq!(u16_from_hex(""), Err(ParseHexError::Empty));
    assert_eq!(u16_from_hex("+"), Err(ParseHexError::InvalidDigit));
    assert_eq!(u16_from_hex("zz"), Err(ParseHexError::InvalidDigit));
    assert_eq!(u16_from_hex("10000"), Err(ParseHexError::Overflow));
    assert_eq!(u16_from_hex("1000z"), Err(ParseHexError::InvalidDigit));
    assert_eq!(u16_from_hex("10000z"), Err(ParseHexError::Overflow));
}

#[test]
fn every_u16_round_trips_through_text() {
    let mut v: u16 = 0;
    loop {
        assert_eq!(u16_from_hex(&u16_to_hex(v)), Ok(v));
        if v == u16::MAX {
            break;
        }
        v += 1;
    }
}
