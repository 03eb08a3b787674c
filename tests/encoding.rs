use mac_notification_sys::options::{MainButton, NotificationOptions};
use mac_notification_sys::text::{decimal_string, join_with_commas};

fn field(map: &Vec<(String, String)>, key: &str) -> String {
    map.iter().find(|(k, _)| k == key).map(|(_, v)| v.clone()).unwrap()
}

fn sounds() -> Vec<String> {
    vec!["Blow".to_string(), "Glass".to_string()]
}

const KEYS: [&str; 10] = [
    "mainButtonLabel",
    "actions",
    "closeButtonLabel",
    "appIcon",
    "contentImage",
    "groupID",
    "response",
    "deliveryDate",
    "synchronous",
    "sound",
];

#[test]
fn keys_are_fixed_and_ordered() {
    let o = NotificationOptions::new();
    let map = o.to_dictionary(&sounds());
    let keys: Vec<&str> = map.iter().map(|(k, _)| k.as_str()).collect();
    assert_eq!(keys, KEYS.to_vec());
}

#[test]
fn encoding_is_deterministic() {
    let mut o = NotificationOptions::new();
    o.main_button(MainButton::SingleAction("Go")).close_button("Close").sound("Glass");
    assert_eq!(o.to_dictionary(&sounds()), o.to_dictionary(&sounds()));
}

#[test]
fn single_action_encodes_label() {
    let mut o = NotificationOptions::new();
    o.main_button(MainButton::SingleAction("Reply"));
    let map = o.to_dictionary(&sounds());
    assert_eq!(field(&map, "mainButtonLabel"), "Reply");
    assert_eq!(field(&map, "actions"), "");
    assert_eq!(field(&map, "response"), "");
}

#[test]
fn dropdown_actions_are_comma_joined() {
    let actions = ["A", "B", "C"];
    let mut o = NotificationOptions::new();
    o.main_button(MainButton::DropdownActions("Pick", &actions));
    let map = o.to_dictionary(&sounds());
    assert_eq!(field(&map, "actions"), "A,B,C");
    assert_eq!(field(&map, "mainButtonLabel"), "Pick");
    assert_eq!(field(&map, "response"), "");
}

#[test]
fn response_field_sets_flag() {
    let mut o = NotificationOptions::new();
    o.main_button(MainButton::Response("Type here"));
    let map = o.to_dictionary(&sounds());
    assert_eq!(field(&map, "mainButtonLabel"), "Type here");
    assert_eq!(field(&map, "response"), "yes");
    assert_eq!(field(&map, "actions"), "");
}

#[test]
fn unknown_sound_is_muted() {
    let mut o = NotificationOptions::new();
    o.sound("Trumpet");
    assert_eq!(field(&o.to_dictionary(&sounds()), "sound"), "_mute");
}

#[test]
fn known_sound_is_kept() {
    let mut o = NotificationOptions::new();
    o.sound("Glass");
    assert_eq!(field(&o.to_dictionary(&sounds()), "sound"), "Glass");
    assert_eq!(field(&o.to_dictionary(&vec![]), "sound"), "_mute");
}

#[test]
fn delivery_date_synchronous() {
    let mut o = NotificationOptions::new();
    o.delivery_date(1700000000, true);
    let map = o.to_dictionary(&sounds());
    assert_eq!(field(&map, "deliveryDate"), "1700000000");
    assert_eq!(field(&map, "synchronous"), "yes");
}

#[test]
fn delivery_date_asynchronous() {
    let mut o = NotificationOptions::new();
    o.delivery_date(5, false);
    let map = o.to_dictionary(&sounds());
    assert_eq!(field(&map, "deliveryDate"), "5");
    assert_eq!(field(&map, "synchronous"), "");
}

#[test]
fn no_delivery_date_encodes_empty() {
    let map = NotificationOptions::new().to_dictionary(&sounds());
    assert_eq!(field(&map, "deliveryDate"), "");
    assert_eq!(field(&map, "synchronous"), "");
}

#[test]
fn defaults_encode_empty_but_sound() {
    let map = NotificationOptions::new().to_dictionary(&sounds());
    for (k, v) in map.iter() {
        if k == "sound" {
            assert_eq!(v, "_mute");
        } else {
            assert_eq!(v, "");
        }
    }
}

#[test]
fn plain_attributes_pass_through() {
    let mut o = NotificationOptions::new();
    o.close_button("Dismiss")
        .app_icon("/tmp/icon.icns")
        .content_image("/tmp/image.png")
        .group_id("group-1");
    let map = o.to_dictionary(&sounds());
    assert_eq!(field(&map, "closeButtonLabel"), "Dismiss");
    assert_eq!(field(&map, "appIcon"), "/tmp/icon.icns");
    assert_eq!(field(&map, "contentImage"), "/tmp/image.png");
    assert_eq!(field(&map, "groupID"), "group-1");
}

#[test]
fn later_setter_replaces_earlier() {
    let mut o = NotificationOptions::new();
    o.main_button(MainButton::SingleAction("One"))
        .main_button(MainButton::Response("Two"));
    let map = o.to_dictionary(&sounds());
    assert_eq!(field(&map, "mainButtonLabel"), "Two");
    assert_eq!(field(&map, "response"), "yes");
}

#[test]
fn decimal_rendering() {
    assert_eq!(decimal_string(0), "0");
    assert_eq!(decimal_string(7), "7");
    assert_eq!(decimal_string(10), "10");
    assert_eq!(decimal_string(-42), "-42");
    assert_eq!(decimal_string(i64::MAX), "9223372036854775807");
    assert_eq!(decimal_string(i64::MIN), "-9223372036854775808");
}

#[test]
fn comma_joining() {
    assert_eq!(join_with_commas(&[]), "");
    assert_eq!(join_with_commas(&["only"]), "only");
    assert_eq!(join_with_commas(&["a", "", "b"]), "a,,b");
}
