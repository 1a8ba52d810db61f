use systemctl_tui::dbus::encode_as_dbus_object_path;
use systemctl_tui::dbus::get_unit_path;

#[test]
fn test_get_unit_path() {
    assert_eq!(get_unit_path("test.service"), "/org/freedesktop/systemd1/unit/test_2eservice");
}

#[test]
fn test_encode_as_dbus_object_path() {
    assert_eq!(encode_as_dbus_object_path("test.service"), "test_2eservice");
    assert_eq!(encode_as_dbus_object_path("test-with-hyphen.service"), "test_2dwith_2dhyphen_2eservice");
}

#[test]
fn encode_keeps_plain_characters() {
    assert_eq!(encode_as_dbus_object_path("abcXYZ09/_"), "abcXYZ09/_");
    assert_eq!(encode_as_dbus_object_path(""), "");
}

#[test]
fn encode_writes_code_points_in_hex() {
    assert_eq!(encode_as_dbus_object_path(" "), "_20");
    assert_eq!(encode_as_dbus_object_path("a@b"), "a_40b");
    // multi-digit code point: 'ß' is U+00DF
    assert_eq!(encode_as_dbus_object_path("ß"), "_df");
}
