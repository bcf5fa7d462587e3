use swaynoti::urgency::Urgency;

#[test]
fn urgency_from_wire_byte() {
    assert_eq!(Urgency::from(0u8), Urgency::Low);
    assert_eq!(Urgency::from(1u8), Urgency::Normal);
    assert_eq!(Urgency::from(2u8), Urgency::Critical);
    assert_eq!(Urgency::from(7u8), Urgency::Normal);
}

#[test]
fn urgency_names() {
    assert_eq!(Urgency::Low.css_class(), "low");
    assert_eq!(Urgency::Normal.css_class(), "normal");
    assert_eq!(Urgency::Critical.css_class(), "critical");
    assert_eq!(Urgency::Critical.to_string(), "critical");
    assert_eq!(u8::from(Urgency::Critical), 2);
}
