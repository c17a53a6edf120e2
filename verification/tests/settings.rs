use ini::Ini;
use lamp_control::common::Lamp;
use lamp_control::hue::Hue;
use lamp_control::nanoleaf::Nanoleaf;
use lamp_control::settings::{read_settings, SettingsError};

const BOTH: &str = "[nanoleaf]\nip = 192.168.1.7\napi = panelkey\n\n[hue]\nip = 192.168.1.2\napi = bridgekey\n";

#[test]
fn nanoleaf_from_its_section() {
    let conf = Ini::load_from_str(BOTH).unwrap();
    let lamp = Nanoleaf::new(&conf).unwrap();
    assert_eq!(lamp.ip, "192.168.1.7");
    assert_eq!(lamp.api_key, "panelkey");
    assert_eq!(lamp.addr(), "http://192.168.1.7:16021/api/v1/panelkey");
}

#[test]
fn hue_from_its_section() {
    let conf = Ini::load_from_str(BOTH).unwrap();
    let lamp = Hue::new(&conf, 2).unwrap();
    assert_eq!(lamp.ip, "192.168.1.2");
    assert_eq!(lamp.api_key, "bridgekey");
    assert_eq!(lamp.lamp_id, 2);
    assert_eq!(lamp.addr(), "http://192.168.1.2/api/bridgekey/lights/2");
}

#[test]
fn a_missing_section_is_reported() {
    let conf = Ini::load_from_str("[nanoleaf]\nip = a\napi = b\n").unwrap();
    assert_eq!(Hue::new(&conf, 1).err(), Some(SettingsError::NoSection));
    let conf = Ini::load_from_str("ip = a\napi = b\n").unwrap();
    assert_eq!(Nanoleaf::new(&conf).err(), Some(SettingsError::NoSection));
}

#[test]
fn a_missing_address_is_reported() {
    let conf = Ini::load_from_str("[hue]\napi = b\n").unwrap();
    assert_eq!(Hue::new(&conf, 1).err(), Some(SettingsError::NoIp));
    let conf = Ini::load_from_str("[nanoleaf]\n").unwrap();
    assert_eq!(Nanoleaf::new(&conf).err(), Some(SettingsError::NoIp));
}

#[test]
fn a_missing_key_is_reported() {
    let conf = Ini::load_from_str("[hue]\nip = a\n").unwrap();
    assert_eq!(Hue::new(&conf, 1).err(), Some(SettingsError::NoApiKey));
    let conf = Ini::load_from_str("[nanoleaf]\nip = a\nkey = b\n").unwrap();
    assert_eq!(Nanoleaf::new(&conf).err(), Some(SettingsError::NoApiKey));
}

#[test]
fn the_first_of_two_sections_and_of_two_values_counts() {
    let conf =
        Ini::load_from_str("[hue]\nip = first\nip = second\napi = k\n[hue]\nip = third\napi = l\n")
            .unwrap();
    let settings = read_settings(&conf, "hue").unwrap();
    assert_eq!(settings.ip, "first");
    assert_eq!(settings.api_key, "k");
}

#[test]
fn settings_of_any_section() {
    let conf = Ini::load_from_str("[desk]\nip = 10.1.1.1\napi = 42\n").unwrap();
    let settings = read_settings(&conf, "desk").unwrap();
    assert_eq!(settings.ip, "10.1.1.1");
    assert_eq!(settings.api_key, "42");
    assert_eq!(read_settings(&conf, "Desk").err(), Some(SettingsError::NoSection));
}
