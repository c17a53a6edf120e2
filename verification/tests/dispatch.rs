use lamp_control::colour::{Hsv, UNIT};
use lamp_control::common::{Lamp, Sig};
use lamp_control::config_parse::{get_gradient_config, Config};
use lamp_control::dispatch::{resolve, select_lamps, Task};
use lamp_control::hue::Hue;
use lamp_control::nanoleaf::Nanoleaf;

#[test]
fn one_task_for_each_selected_lamp() {
    assert_eq!(select_lamps(3, &vec![0, 2]), vec![0, 2]);
    assert_eq!(select_lamps(3, &vec![2, 1, 0]), vec![0, 1, 2]);
    assert_eq!(select_lamps(3, &vec![1]), vec![1]);
}

#[test]
fn a_lamp_that_is_named_twice_gets_one_task() {
    assert_eq!(select_lamps(3, &vec![1, 1, 2, 1]), vec![1, 2]);
}

#[test]
fn a_number_that_is_no_lamp_gets_no_task() {
    assert_eq!(select_lamps(3, &vec![3, 7, 0]), vec![0]);
    assert_eq!(select_lamps(0, &vec![0, 1]), Vec::<usize>::new());
    assert_eq!(select_lamps(3, &vec![]), Vec::<usize>::new());
    assert_eq!(select_lamps(2, &vec![usize::MAX]), Vec::<usize>::new());
}

#[test]
fn off_turns_the_lamp_off() {
    assert!(matches!(resolve(&Config::Off), Task::Apply(Sig::On(false))));
}

#[test]
fn on_sends_its_signal() {
    assert!(matches!(
        resolve(&Config::On(Sig::Brightness(40))),
        Task::Apply(Sig::Brightness(40))
    ));
    assert!(matches!(resolve(&Config::On(Sig::On(true))), Task::Apply(Sig::On(true))));
    match resolve(&Config::On(Sig::Scene("Forest".to_string()))) {
        Task::Apply(Sig::Scene(name)) => assert_eq!(name, "Forest"),
        other => panic!("no scene: {:?}", other),
    }
}

#[test]
fn a_scene_is_selected_or_the_scenes_are_listed() {
    match resolve(&Config::Scene("Flames".to_string(), false)) {
        Task::Apply(Sig::Scene(name)) => assert_eq!(name, "Flames"),
        other => panic!("no scene: {:?}", other),
    }
    assert!(matches!(resolve(&Config::Scene("".to_string(), true)), Task::ListScenes));
    assert!(matches!(resolve(&Config::Scene("Flames".to_string(), true)), Task::ListScenes));
}

#[test]
fn a_gradient_is_run() {
    let config = get_gradient_config(10, 5).unwrap();
    match (resolve(&config), config) {
        (Task::Gradient(run), Config::Gradient(asked)) => assert_eq!(run, asked),
        other => panic!("no gradient: {:?}", other),
    }
}

#[test]
fn a_copy_of_each_kind_of_signal() {
    assert!(matches!(Clone::clone(&Sig::On(true)), Sig::On(true)));
    assert!(matches!(Clone::clone(&Sig::Brightness(3)), Sig::Brightness(3)));
    assert!(matches!(Clone::clone(&Sig::Colour(1, 2, 3)), Sig::Colour(1, 2, 3)));
    assert!(matches!(Clone::clone(&Sig::Temp(9)), Sig::Temp(9)));
    match Clone::clone(&Sig::Palette(Hsv::new(UNIT, 2, 3))) {
        Sig::Palette(colour) => assert_eq!(colour, Hsv::new(UNIT, 2, 3)),
        other => panic!("no palette colour: {:?}", other),
    }
    match Clone::clone(&Sig::Scene("x".to_string())) {
        Sig::Scene(name) => assert_eq!(name, "x"),
        other => panic!("no scene: {:?}", other),
    }
}

#[test]
fn each_selected_lamp_gets_the_same_signal_in_its_own_words() {
    let lights: Vec<Box<dyn Lamp + Send>> = vec![
        Box::new(Nanoleaf { ip: "n".to_string(), api_key: "k".to_string() }),
        Box::new(Hue { ip: "h".to_string(), api_key: "k".to_string(), lamp_id: 1 }),
        Box::new(Hue { ip: "h".to_string(), api_key: "k".to_string(), lamp_id: 2 }),
    ];
    let task = resolve(&Config::On(Sig::Brightness(100)));
    let signal = match task {
        Task::Apply(signal) => signal,
        other => panic!("no signal: {:?}", other),
    };
    let mut sent = vec![];
    for num in select_lamps(lights.len(), &vec![2, 0]) {
        let request = lights[num].put(&signal).unwrap();
        sent.push((request.url, request.body));
    }
    assert_eq!(
        sent,
        vec![
            (
                "http://n:16021/api/v1/k/state".to_string(),
                r#"{"brightness":{"value":100}}"#.to_string()
            ),
            ("http://h/api/k/lights/2/state".to_string(), r#"{"bri":255}"#.to_string()),
        ]
    );
}
