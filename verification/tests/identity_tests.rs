use mymonitor::identity::{choose_device_id, choose_hostname, hostname_from_buffer};

fn some(s: &str) -> Option<String> {
    Some(s.to_string())
}

#[test]
fn device_id_prefers_machine_id() {
    assert_eq!(choose_device_id(&some("abc123\n"), &some("host")), "abc123");
}

#[test]
fn device_id_falls_back_to_environment() {
    assert_eq!(choose_device_id(&some(" \n"), &some(" pi4 ")), "pi4");
    assert_eq!(choose_device_id(&None, &some("pi4")), "pi4");
}

#[test]
fn device_id_defaults_to_unknown() {
    assert_eq!(choose_device_id(&None, &None), "unknown-device");
    assert_eq!(choose_device_id(&some(""), &some("\t")), "unknown-device");
}

#[test]
fn hostname_prefers_system_name_as_is() {
    assert_eq!(choose_hostname(&some("sys"), &some("file"), &some("env")), "sys");
}

#[test]
fn hostname_falls_back_in_order() {
    assert_eq!(choose_hostname(&None, &some("  file\n"), &some("env")), "file");
    assert_eq!(choose_hostname(&None, &some("  "), &some("env ")), "env");
    assert_eq!(choose_hostname(&None, &None, &None), "unknown-host");
}

#[test]
fn buffer_hostname_stops_at_first_zero() {
    let mut buf = [0u8; 16];
    buf[..5].copy_from_slice(b"rpi-4");
    buf[6] = b'x';
    assert_eq!(hostname_from_buffer(&buf), Some("rpi-4".to_string()));
}

#[test]
fn buffer_without_zero_uses_all_bytes() {
    assert_eq!(hostname_from_buffer(b" edge "), Some("edge".to_string()));
}

#[test]
fn buffer_hostname_decodes_utf8() {
    assert_eq!(hostname_from_buffer("hôte\0".as_bytes()), Some("hôte".to_string()));
}

#[test]
fn buffer_with_invalid_utf8_or_blank_gives_none() {
    assert_eq!(hostname_from_buffer(&[0xff, 0xfe, 0]), None);
    assert_eq!(hostname_from_buffer(&[b' ', 0, b'a']), None);
    assert_eq!(hostname_from_buffer(&[0u8; 8]), None);
}
