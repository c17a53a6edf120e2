use lamp_control::hue;
use lamp_control::nanoleaf::calls::{
    Action, Brightness, Colour, Get, Identify, On, Send, Temperature,
};

#[test]
fn on_call() {
    let call = On::new(true);
    assert_eq!(call.to_json(), r#"{"on":{"value":true}}"#);
    assert_eq!(call.send_url(), "state");
    assert_eq!(call.get_url(), "state/on");
    assert_eq!(call.action(), Action::PUT);
    assert_eq!(On::new(false).to_json(), r#"{"on":{"value":false}}"#);
}

#[test]
fn brightness_call() {
    let call = Brightness::new(70, None);
    assert_eq!(call.to_json(), r#"{"brightness":{"value":70}}"#);
    assert_eq!(call.send_url(), "state");
    assert_eq!(call.action(), Action::PUT);
    assert_eq!(Brightness::new(0, None).to_json(), r#"{"brightness":{"value":0}}"#);
    assert_eq!(Brightness::new(100, None).to_json(), r#"{"brightness":{"value":100}}"#);
}

#[test]
fn brightness_call_with_a_duration() {
    let call = Brightness::new(70, Some(3));
    assert_eq!(call.to_json(), r#"{"brightness":{"duration":3,"value":70}}"#);
}

#[test]
fn brightness_step() {
    assert_eq!(Brightness::increment(-10).to_json(), r#"{"brightness":{"increment":-10}}"#);
    assert_eq!(Brightness::increment(25).to_json(), r#"{"brightness":{"increment":25}}"#);
}

#[test]
fn colour_call() {
    let call = Colour::new(120, 20, 70);
    assert_eq!(
        call.to_json(),
        r#"{"brightness":{"value":70},"hue":{"value":120},"sat":{"value":20}}"#
    );
    assert_eq!(call.send_url(), "state");
    assert_eq!(call.action(), Action::PUT);
    assert_eq!(
        Colour::new(360, 100, 100).to_json(),
        r#"{"brightness":{"value":100},"hue":{"value":360},"sat":{"value":100}}"#
    );
    assert_eq!(
        Colour::new(0, 0, 0).to_json(),
        r#"{"brightness":{"value":0},"hue":{"value":0},"sat":{"value":0}}"#
    );
}

#[test]
fn temperature_call() {
    let call = Temperature::new(5000);
    assert_eq!(call.to_json(), r#"{"ct":{"value":5000}}"#);
    assert_eq!(call.send_url(), "state");
    assert_eq!(call.action(), Action::PUT);
    assert_eq!(Temperature::new(1200).to_json(), r#"{"ct":{"value":1200}}"#);
    assert_eq!(Temperature::new(6500).to_json(), r#"{"ct":{"value":6500}}"#);
}

#[test]
fn temperature_step() {
    assert_eq!(Temperature::increment(300).to_json(), r#"{"ct":{"increment":300}}"#);
}

#[test]
fn identify_call() {
    let call = Identify::new();
    assert_eq!(call.to_json(), "");
    assert_eq!(call.send_url(), "identify");
    assert_eq!(call.action(), Action::PUT);
}

#[test]
fn on_call_of_hue() {
    let call = hue::calls::On::new(true);
    assert_eq!(call.to_json(), r#"{"on":true}"#);
    assert_eq!(call.send_url(), "state");
    assert_eq!(call.action(), Action::PUT);
    assert_eq!(hue::calls::On::new(false).to_json(), r#"{"on":false}"#);
}
