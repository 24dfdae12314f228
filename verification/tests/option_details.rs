use microservices::util::OptionDetails;

#[test]
fn details_with_a_message() {
    let details = OptionDetails::with("disk full");
    assert_eq!(details.0, Some("disk full".to_string()));
    assert_eq!(details.to_string(), "; \"disk full\"");
}

#[test]
fn no_details_render_as_nothing() {
    assert_eq!(OptionDetails::new().0, None);
    assert_eq!(OptionDetails::none().0, None);
    assert_eq!(OptionDetails::default().0, None);
    assert_eq!(OptionDetails::new().to_string(), "");
    assert_eq!(OptionDetails::new(), OptionDetails::none());
}

#[test]
fn details_from_a_string() {
    assert_eq!(OptionDetails::from("x".to_string()), OptionDetails::with("x"));
    assert_eq!(OptionDetails::with("").to_string(), "; \"\"");
}

#[test]
fn details_from_a_text() {
    assert_eq!(OptionDetails::from("x"), OptionDetails::with("x"));
    assert_eq!(OptionDetails::from("disk full").to_string(), "; \"disk full\"");
}
