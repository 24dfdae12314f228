use microservices::esb::{ServiceAddress, ServiceName};

#[test]
fn short_names_are_zero_padded() {
    let name = ServiceName::from_str("lnpd");
    let mut expected = [0u8; 32];
    expected[..4].copy_from_slice(b"lnpd");
    assert_eq!(name.0, expected);
    assert_eq!(name.len(), 4);
}

#[test]
fn empty_name_is_all_zeros() {
    assert_eq!(ServiceName::from_str("").0, [0u8; 32]);
    assert_eq!(ServiceName::from_str(""), ServiceName::default());
    assert_eq!(ServiceName::from_str("").len(), 0);
    assert_eq!(ServiceName::from_str("").to_string(), "");
}

#[test]
fn name_of_exactly_32_bytes_fills_the_buffer() {
    let text = "really-long-service-name-exceedi";
    assert_eq!(text.len(), 32);
    let name = ServiceName::from_str(text);
    assert_eq!(&name.0[..], text.as_bytes());
    assert_eq!(name.len(), 32);
    assert_eq!(name.to_string(), text);
}

#[test]
fn long_names_are_truncated_to_32_bytes() {
    let long = ServiceName::from_str("really-long-service-name-exceeding-32b");
    let cut = ServiceName::from_str("really-long-service-name-exceedi");
    assert_eq!(long, cut);
    assert_eq!(long.to_string(), "really-long-service-name-exceedi");
}

#[test]
fn short_form_shows_first_and_last_four_bytes() {
    let name = ServiceName::from_str("really-long-service-name-exceeding-32b");
    assert_eq!(name.to_short_string(), "7265616c..65656469");
    let name = ServiceName::from_str("lnpd");
    assert_eq!(name.to_short_string(), "6c6e7064..00000000");
    assert_eq!(ServiceName([0xff; 32]).to_short_string(), "ffffffff..ffffffff");
}

#[test]
fn names_render_as_the_text_they_were_read_from() {
    for text in ["a", "lnpd", "peerd<1>", "żółw", "router-service", "日本語"] {
        assert_eq!(ServiceName::from_str(text).to_string(), text);
    }
}

#[test]
fn rendering_stops_at_the_first_zero_byte() {
    assert_eq!(ServiceName::from_str("ab\0cd").to_string(), "ab");
    assert_eq!(ServiceName::from_str("ab\0cd").len(), 2);
    assert_eq!(ServiceName::from_str("\0abc").to_string(), "");
}

#[test]
fn a_character_cut_in_two_renders_as_replacement() {
    let text = "0123456789012345678901234567890é";
    assert_eq!(text.len(), 33);
    let name = ServiceName::from_str(text);
    assert_eq!(name.0[31], 0xc3);
    assert_eq!(name.to_string(), "0123456789012345678901234567890\u{fffd}");
}

#[test]
fn name_bytes_round_trip() {
    let name = ServiceName::from_str("router");
    let bytes = name.to_bytes();
    assert_eq!(bytes.len(), 32);
    assert_eq!(&bytes[..6], b"router");
    assert_eq!(ServiceName::from_bytes(bytes), name);
}

#[test]
fn names_read_from_bytes_are_padded_or_truncated() {
    assert_eq!(ServiceName::from_bytes(b"abc".to_vec()), ServiceName::from_str("abc"));
    assert_eq!(ServiceName::from_bytes(vec![7u8; 40]), ServiceName([7u8; 32]));
    assert_eq!(ServiceName::from_slice(&[]), ServiceName::default());
}
