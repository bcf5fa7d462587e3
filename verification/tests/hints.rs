use swaynoti::bus::{CloseReason, HintValue, NotificationServer, ServerInfo};
use swaynoti::urgency::Urgency;

fn entry(key: &str, value: HintValue) -> (String, HintValue) {
    (key.to_string(), value)
}

fn image(bytes: Vec<HintValue>) -> HintValue {
    HintValue::Structure(vec![
        HintValue::I32(2),
        HintValue::I32(1),
        HintValue::I32(8),
        HintValue::Bool(true),
        HintValue::I32(8),
        HintValue::I32(4),
        HintValue::Array(bytes),
    ])
}

#[test]
fn empty_dictionary_gives_default_hints() {
    let h = NotificationServer::parse_hints(&Vec::new());
    assert_eq!(h.urgency, Urgency::Normal);
    assert!(h.category.is_none());
    assert!(!h.transient);
    assert!(!h.resident);
    assert!(h.value.is_none());
}

#[test]
fn every_known_key_is_read() {
    let hints = vec![
        entry("urgency", HintValue::U8(2)),
        entry("category", HintValue::Str("email".to_string())),
        entry("desktop-entry", HintValue::Str("org.mail".to_string())),
        entry("image-path", HintValue::Str("/tmp/a.png".to_string())),
        entry("sound-file", HintValue::Str("/tmp/a.oga".to_string())),
        entry("sound-name", HintValue::Str("message".to_string())),
        entry("suppress-sound", HintValue::Bool(true)),
        entry("transient", HintValue::Bool(true)),
        entry("x", HintValue::I32(-3)),
        entry("y", HintValue::I32(14)),
        entry("action-icons", HintValue::Bool(true)),
        entry("value", HintValue::I32(55)),
        entry("resident", HintValue::Bool(true)),
        entry("inline-reply", HintValue::Bool(true)),
        entry("image-data", image(vec![HintValue::U8(9), HintValue::U8(8)])),
    ];
    let h = NotificationServer::parse_hints(&hints);
    assert_eq!(h.urgency, Urgency::Critical);
    assert_eq!(h.category.as_deref(), Some("email"));
    assert_eq!(h.desktop_entry.as_deref(), Some("org.mail"));
    assert_eq!(h.image_path.as_deref(), Some("/tmp/a.png"));
    assert_eq!(h.sound_file.as_deref(), Some("/tmp/a.oga"));
    assert_eq!(h.sound_name.as_deref(), Some("message"));
    assert!(h.suppress_sound);
    assert!(h.transient);
    assert_eq!(h.x, Some(-3));
    assert_eq!(h.y, Some(14));
    assert!(h.action_icons);
    assert_eq!(h.value, Some(55));
    assert!(h.resident);
    assert!(h.inline_reply);
    let img = h.image_data.unwrap();
    assert_eq!((img.width, img.height, img.rowstride), (2, 1, 8));
    assert!(img.has_alpha);
    assert_eq!((img.bits_per_sample, img.channels), (8, 4));
    assert_eq!(img.data, vec![9, 8]);
}

#[test]
fn urgency_byte_out_of_range_means_normal() {
    let h = NotificationServer::parse_hints(&vec![entry("urgency", HintValue::U8(0))]);
    assert_eq!(h.urgency, Urgency::Low);
    let h = NotificationServer::parse_hints(&vec![entry("urgency", HintValue::U8(200))]);
    assert_eq!(h.urgency, Urgency::Normal);
}

#[test]
fn value_of_another_type_is_ignored() {
    let hints = vec![
        entry("urgency", HintValue::I32(2)),
        entry("category", HintValue::Bool(true)),
        entry("transient", HintValue::Str("yes".to_string())),
        entry("value", HintValue::U8(5)),
        entry("x", HintValue::Other),
        entry("image-data", HintValue::Str("no image".to_string())),
    ];
    let h = NotificationServer::parse_hints(&hints);
    assert_eq!(h.urgency, Urgency::Normal);
    assert!(h.category.is_none());
    assert!(!h.transient);
    assert!(h.value.is_none());
    assert!(h.x.is_none());
    assert!(h.image_data.is_none());
}

#[test]
fn unknown_keys_are_ignored() {
    let hints = vec![
        entry("x-vendor", HintValue::Str("a".to_string())),
        entry("Urgency", HintValue::U8(2)),
        entry("", HintValue::Bool(true)),
    ];
    let h = NotificationServer::parse_hints(&hints);
    assert_eq!(h.urgency, Urgency::Normal);
    assert!(!h.transient);
}

#[test]
fn later_entry_wins() {
    let hints = vec![
        entry("image_path", HintValue::Str("first".to_string())),
        entry("image-path", HintValue::Str("second".to_string())),
        entry("value", HintValue::I32(1)),
        entry("value", HintValue::I32(2)),
        entry("value", HintValue::Bool(false)),
    ];
    let h = NotificationServer::parse_hints(&hints);
    assert_eq!(h.image_path.as_deref(), Some("second"));
    assert_eq!(h.value, Some(2));
}

#[test]
fn image_keys_share_one_hint() {
    for key in ["image-data", "image_data", "icon_data"] {
        let h = NotificationServer::parse_hints(&vec![entry(key, image(vec![HintValue::U8(1)]))]);
        assert_eq!(h.image_data.unwrap().data, vec![1]);
    }
}

#[test]
fn image_needs_seven_members_of_the_right_types() {
    assert!(NotificationServer::parse_image_data(&HintValue::Structure(vec![
        HintValue::I32(1),
        HintValue::I32(1),
        HintValue::I32(4),
        HintValue::Bool(false),
        HintValue::I32(8),
        HintValue::I32(4),
    ]))
    .is_none());
    assert!(NotificationServer::parse_image_data(&HintValue::Structure(vec![
        HintValue::I32(1),
        HintValue::I32(1),
        HintValue::I32(4),
        HintValue::I32(0),
        HintValue::I32(8),
        HintValue::I32(4),
        HintValue::Array(vec![]),
    ]))
    .is_none());
    assert!(NotificationServer::parse_image_data(&HintValue::Structure(vec![
        HintValue::I32(1),
        HintValue::I32(1),
        HintValue::I32(4),
        HintValue::Bool(false),
        HintValue::I32(8),
        HintValue::I32(4),
        HintValue::Str("bytes".to_string()),
    ]))
    .is_none());
    assert!(NotificationServer::parse_image_data(&HintValue::Array(vec![])).is_none());
    assert!(NotificationServer::parse_image_data(&HintValue::Other).is_none());
}

#[test]
fn image_keeps_only_bytes_and_allows_more_members() {
    let value = HintValue::Structure(vec![
        HintValue::I32(3),
        HintValue::I32(2),
        HintValue::I32(12),
        HintValue::Bool(false),
        HintValue::I32(8),
        HintValue::I32(3),
        HintValue::Array(vec![
            HintValue::U8(1),
            HintValue::I32(2),
            HintValue::U8(3),
            HintValue::Other,
            HintValue::U8(5),
        ]),
        HintValue::Str("extra".to_string()),
    ]);
    let img = NotificationServer::parse_image_data(&value).unwrap();
    assert_eq!(img.width, 3);
    assert_eq!(img.height, 2);
    assert_eq!(img.rowstride, 12);
    assert!(!img.has_alpha);
    assert_eq!(img.bits_per_sample, 8);
    assert_eq!(img.channels, 3);
    assert_eq!(img.data, vec![1, 3, 5]);
}

#[test]
fn close_reasons_have_their_bus_numbers() {
    assert_eq!(CloseReason::Expired.code(), 1);
    assert_eq!(CloseReason::Dismissed.code(), 2);
    assert_eq!(CloseReason::CloseCall.code(), 3);
    assert_eq!(CloseReason::Undefined.code(), 4);
    assert_eq!(u32::from(CloseReason::CloseCall), 3);
}

#[test]
fn capabilities_are_the_advertised_set() {
    assert_eq!(
        NotificationServer::get_capabilities(),
        vec![
            "actions",
            "action-icons",
            "body",
            "body-hyperlinks",
            "body-markup",
            "icon-static",
            "persistence",
        ]
    );
}

#[test]
fn server_information_names_the_specification() {
    let (name, vendor, version, spec_version) = NotificationServer::get_server_information();
    assert_eq!(name, "swaynoti");
    assert_eq!(vendor, "swaynoti");
    assert_eq!(version, "0.1.0");
    assert_eq!(spec_version, "1.2");
    let info = ServerInfo::default();
    assert_eq!(info.spec_version, "1.2");
}
