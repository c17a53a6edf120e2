use lamp_control::colour::{Hsv, UNIT};
use lamp_control::common::{scalegen, Lamp, Sig};
use lamp_control::hue::{temp_mapping, ColourOnDict, Hue, TempOnDict};
use serde_json::Value;

fn light() -> Hue {
    Hue { ip: "".to_string(), api_key: "".to_string(), lamp_id: 0 }
}

fn parsed(json: &str) -> ColourOnDict {
    let value: Value = serde_json::from_str(json).unwrap();
    let object = value.as_object().unwrap();
    assert_eq!(object.len(), 4);
    ColourOnDict {
        hue: object["hue"].as_i64().unwrap() as isize,
        bri: object["bri"].as_i64().unwrap() as isize,
        sat: object["sat"].as_i64().unwrap() as isize,
        on: object["on"].as_bool().unwrap(),
    }
}

#[test]
fn get_hue_of_fifty_degrees() {
    assert_eq!(Hsv::new(50 * UNIT, UNIT / 2, UNIT / 2).to_positive_degrees(), 50 * UNIT);
}

#[test]
fn get_hue_of_zero_degrees() {
    assert_eq!(Hsv::new(0, UNIT / 2, UNIT / 2).to_positive_degrees(), 0);
}

#[test]
fn get_hue_of_three_quarters_of_a_turn() {
    assert_eq!(Hsv::new(270 * UNIT, UNIT / 2, UNIT / 2).to_positive_degrees(), 270 * UNIT);
}

#[test]
fn get_hue_beyond_the_first_turn() {
    assert_eq!(Hsv::new(400 * UNIT, 0, 0).to_positive_degrees(), 40 * UNIT);
    assert_eq!(Hsv::new(-1, 0, 0).to_positive_degrees(), 360 * UNIT - 1);
    assert_eq!(Hsv::new(360 * UNIT, 0, 0).to_positive_degrees(), 0);
    assert_eq!(Hsv::new(-720 * UNIT, 0, 0).to_positive_degrees(), 0);
}

#[test]
fn get_sat_of_a_tenth() {
    let colour = Hsv::new(10 * UNIT, UNIT / 10, UNIT / 2);
    assert_eq!(scalegen(colour.saturation, UNIT, 255), 26);
}

#[test]
fn get_sat_of_nothing() {
    let colour = Hsv::new(10 * UNIT, 0, UNIT / 2);
    assert_eq!(scalegen(colour.saturation, UNIT, 255), 0);
}

#[test]
fn get_sat_of_all() {
    let colour = Hsv::new(10 * UNIT, UNIT, UNIT / 2);
    assert_eq!(scalegen(colour.saturation, UNIT, 255), 255);
}

#[test]
fn parse_hsv_of_a_pale_colour() {
    let colour = Hsv::new(50 * UNIT, UNIT / 10, UNIT / 10);
    let api = light().palette_command(colour).unwrap();
    assert_eq!(api.addr, "state");
    let expected = ColourOnDict { hue: 9102, sat: 26, bri: 26, on: true };
    assert_eq!(parsed(&api.json), expected);
}

#[test]
fn parse_hsv_of_a_strong_colour() {
    let colour = Hsv::new(180 * UNIT, 9 * UNIT / 10, 9 * UNIT / 10);
    let api = light().palette_command(colour).unwrap();
    let expected = ColourOnDict { hue: 32768, sat: 230, bri: 230, on: true };
    assert_eq!(parsed(&api.json), expected);
}

#[test]
fn parse_hsv_of_a_full_colour() {
    let colour = Hsv::new(270 * UNIT, UNIT, UNIT);
    let api = light().palette_command(colour).unwrap();
    let expected = ColourOnDict { hue: 49151, sat: 255, bri: 255, on: true };
    assert_eq!(parsed(&api.json), expected);
}

#[test]
fn palette_command_text_of_hue() {
    let api = light().palette_command(Hsv::new(50 * UNIT, UNIT / 10, UNIT / 10)).unwrap();
    assert_eq!(api.json, r#"{"bri":26,"hue":9102,"on":true,"sat":26}"#);
}

#[test]
fn palette_command_of_hue_rejects_what_is_out_of_range() {
    assert!(light().palette_command(Hsv::new(0, 2 * UNIT, 0)).is_none());
    assert!(light().palette_command(Hsv::new(0, 0, -1)).is_none());
}

#[test]
fn temp_mapping_of_a_hundred() {
    assert_eq!(temp_mapping(100), 154);
}

#[test]
fn temp_mapping_of_zero() {
    assert_eq!(temp_mapping(0), 500);
}

#[test]
fn temp_mapping_of_the_middle() {
    assert_eq!(temp_mapping(50), 327);
}

#[test]
fn temp_dict_turns_the_lamp_on() {
    let dict = TempOnDict::new(50);
    assert_eq!(dict, TempOnDict { ct: 327, on: true });
    assert_eq!(dict.to_json(), r#"{"ct":327,"on":true}"#);
}

#[test]
fn colour_dict_text() {
    let dict = ColourOnDict { hue: 30000, bri: 255, sat: 200, on: true };
    assert_eq!(dict.to_json(), r#"{"bri":255,"hue":30000,"on":true,"sat":200}"#);
    let dict = ColourOnDict { hue: -1, bri: 0, sat: 0, on: false };
    assert_eq!(dict.to_json(), r#"{"bri":0,"hue":-1,"on":false,"sat":0}"#);
}

#[test]
fn hue_on_command_text() {
    let cmd = light().on_command(true).unwrap();
    assert_eq!(cmd.addr, "state/on");
    assert_eq!(cmd.json, r#"{"on":true}"#);
    let cmd = light().on_command(false).unwrap();
    assert_eq!(cmd.json, r#"{"on":false}"#);
}

#[test]
fn hue_brightness_command_scales_to_the_lamp() {
    let cmd = light().brightness_command(100).unwrap();
    assert_eq!(cmd.addr, "state");
    assert_eq!(cmd.json, r#"{"bri":255}"#);
    let cmd = light().brightness_command(10).unwrap();
    assert_eq!(cmd.json, r#"{"bri":25}"#);
    assert!(light().brightness_command(101).is_none());
    assert!(light().brightness_command(-1).is_none());
}

#[test]
fn hue_colour_command_scales_to_the_lamp() {
    let cmd = light().colour_command(360, 100, 100).unwrap();
    assert_eq!(cmd.addr, "state");
    assert_eq!(parsed(&cmd.json), ColourOnDict { hue: 65535, sat: 255, bri: 255, on: true });
    let cmd = light().colour_command(180, 50, 10).unwrap();
    assert_eq!(parsed(&cmd.json), ColourOnDict { hue: 32767, sat: 127, bri: 25, on: true });
    assert!(light().colour_command(361, 0, 0).is_none());
    assert!(light().colour_command(0, -1, 0).is_none());
    assert!(light().colour_command(0, 0, 101).is_none());
}

#[test]
fn hue_temperature_command_text() {
    let cmd = light().temperature_command(100).unwrap();
    assert_eq!(cmd.addr, "state");
    assert_eq!(cmd.json, r#"{"ct":154,"on":true}"#);
    let cmd = light().temperature_command(0).unwrap();
    assert_eq!(cmd.json, r#"{"ct":500,"on":true}"#);
    assert!(light().temperature_command(101).is_none());
}

#[test]
fn hue_knows_no_scenes() {
    assert!(light().scene_command("Sunset".to_string()).is_none());
    assert!(light().put(&Sig::Scene("Sunset".to_string())).is_none());
}

#[test]
fn hue_address() {
    let lamp = Hue { ip: "192.168.1.2".to_string(), api_key: "abc".to_string(), lamp_id: 2 };
    assert_eq!(lamp.addr(), "http://192.168.1.2/api/abc/lights/2");
    let lamp = Hue { ip: "h".to_string(), api_key: "k".to_string(), lamp_id: -17 };
    assert_eq!(lamp.addr(), "http://h/api/k/lights/-17");
    let lamp = Hue { ip: "h".to_string(), api_key: "k".to_string(), lamp_id: 1203 };
    assert_eq!(lamp.addr(), "http://h/api/k/lights/1203");
}

#[test]
fn hue_put_sends_the_command_below_the_address() {
    let lamp = Hue { ip: "h".to_string(), api_key: "k".to_string(), lamp_id: 1 };
    let request = lamp.put(&Sig::On(true)).unwrap();
    assert_eq!(request.url, "http://h/api/k/lights/1/state/on");
    assert_eq!(request.content_type, "application/json");
    assert_eq!(request.body, r#"{"on":true}"#);
    let request = lamp.put(&Sig::Temp(50)).unwrap();
    assert_eq!(request.url, "http://h/api/k/lights/1/state");
    assert_eq!(request.body, r#"{"ct":327,"on":true}"#);
}
