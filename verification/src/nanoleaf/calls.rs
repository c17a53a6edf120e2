//! Typed calls to the panels: each call checks its values when it is made,
//! and knows its JSON text and the address it goes to.

use crate::json::{
    bool_text, bool_value, insert_member, members, new_object, no_members, number_value,
    object_text, object_to_string, object_value, single, JsonObject,
};
use crate::text::int_text;
use vstd::prelude::*;
use vstd::string::*;

verus! {

/// How a call is sent.
#[derive(Clone, Copy, Debug, PartialEq, Eq, Structural)]
pub enum Action {
    PUT,
    POST,
}

/// A call that can be sent to the panels.
pub trait Send {
    /// The JSON text of the call.
    spec fn json_spec(&self) -> Seq<char>;

    /// The end of the address that the call is sent to.
    spec fn url_spec(&self) -> Seq<char>;

    /// How the call is sent.
    spec fn action_spec(&self) -> Action;

    /// The JSON text of the call.
    fn to_json(&self) -> (json: String)
        ensures
            json@ == self.json_spec(),
    ;

    /// The end of the address that the call is sent to.
    fn send_url(&self) -> (url: &str)
        ensures
            url@ == self.url_spec(),
    ;

    /// How the call is sent.
    fn action(&self) -> (action: Action)
        ensures
            action == self.action_spec(),
    ;
}

/// A call whose state can be asked for.
pub trait Get {
    /// The end of the address that answers.
    spec fn get_url_spec(&self) -> Seq<char>;

    /// The end of the address that answers.
    fn get_url(&self) -> (url: &str)
        ensures
            url@ == self.get_url_spec(),
    ;
}

/// Turn the panels on or off.
#[derive(Debug)]
pub struct On {
    on: JsonObject,
}

impl On {
    /// The state that the call asks for.
    pub closed spec fn inner(&self) -> Map<Seq<char>, Seq<char>> {
        members(self.on)
    }

    pub fn new(status: bool) -> (call: On)
        ensures
            call.inner() == no_members().insert("value"@, bool_text(status)),
    {
        let mut map = new_object();
        insert_member(&mut map, "value", bool_value(status));
        On { on: map }
    }
}

impl Send for On {
    open spec fn json_spec(&self) -> Seq<char> {
        single("on"@, object_text(self.inner()))
    }

    open spec fn url_spec(&self) -> Seq<char> {
        "state"@
    }

    open spec fn action_spec(&self) -> Action {
        Action::PUT
    }

    fn to_json(&self) -> (json: String) {
        let mut call = new_object();
        insert_member(&mut call, "on", object_value(&self.on));
        object_to_string(&call)
    }

    fn send_url(&self) -> (url: &str) {
        "state"
    }

    fn action(&self) -> (action: Action) {
        Action::PUT
    }
}

impl Get for On {
    open spec fn get_url_spec(&self) -> Seq<char> {
        "state/on"@
    }

    fn get_url(&self) -> (url: &str) {
        "state/on"
    }
}

/// Set the brightness of the panels, or change it by a step.
#[derive(Debug)]
pub struct Brightness {
    brightness: JsonObject,
}

/// What a brightness call holds: the value, and how long the change takes
/// where that is given.
pub open spec fn brightness_members(value: isize, duration: Option<usize>) -> Map<
    Seq<char>,
    Seq<char>,
> {
    match duration {
        Some(dur) => no_members().insert("value"@, int_text(value as int)).insert(
            "duration"@,
            int_text(dur as int),
        ),
        None => no_members().insert("value"@, int_text(value as int)),
    }
}

impl Brightness {
    /// What the call holds.
    pub closed spec fn inner(&self) -> Map<Seq<char>, Seq<char>> {
        members(self.brightness)
    }

    /// The call that sets the brightness to `value`, from 0 to 100, over
    /// `duration` seconds where a duration is given.
    pub fn new(value: isize, duration: Option<usize>) -> (call: Brightness)
        requires
            0 <= value <= 100,
            duration matches Some(dur) ==> dur <= isize::MAX,
        ensures
            call.inner() == brightness_members(value, duration),
    {
        let mut map = new_object();
        insert_member(&mut map, "value", number_value(value));
        if let Some(dur) = duration {
            insert_member(&mut map, "duration", number_value(dur as isize));
        }
        Brightness { brightness: map }
    }

    /// The call that changes the brightness by `value`.
    pub fn increment(value: isize) -> (call: Brightness)
        ensures
            call.inner() == no_members().insert("increment"@, int_text(value as int)),
    {
        let mut map = new_object();
        insert_member(&mut map, "increment", number_value(value));
        Brightness { brightness: map }
    }
}

impl Send for Brightness {
    open spec fn json_spec(&self) -> Seq<char> {
        single("brightness"@, object_text(self.inner()))
    }

    open spec fn url_spec(&self) -> Seq<char> {
        "state"@
    }

    open spec fn action_spec(&self) -> Action {
        Action::PUT
    }

    fn to_json(&self) -> (json: String) {
        let mut call = new_object();
        insert_member(&mut call, "brightness", object_value(&self.brightness));
        object_to_string(&call)
    }

    fn send_url(&self) -> (url: &str) {
        "state"
    }

    fn action(&self) -> (action: Action) {
        Action::PUT
    }
}

/// Set the colour of the panels.
#[derive(Debug)]
pub struct Colour {
    hue: JsonObject,
    sat: JsonObject,
    brightness: JsonObject,
}

impl Colour {
    /// The hue that the call asks for.
    pub closed spec fn hue(&self) -> Map<Seq<char>, Seq<char>> {
        members(self.hue)
    }

    /// The saturation that the call asks for.
    pub closed spec fn sat(&self) -> Map<Seq<char>, Seq<char>> {
        members(self.sat)
    }

    /// The brightness that the call asks for.
    pub closed spec fn brightness(&self) -> Map<Seq<char>, Seq<char>> {
        members(self.brightness)
    }

    /// The call that sets the colour: the hue from 0 to 360, saturation and
    /// brightness from 0 to 100.
    pub fn new(hue: isize, sat: isize, bri: isize) -> (call: Colour)
        requires
            0 <= hue <= 360,
            0 <= sat <= 100,
            0 <= bri <= 100,
        ensures
            call.hue() == no_members().insert("value"@, int_text(hue as int)),
            call.sat() == no_members().insert("value"@, int_text(sat as int)),
            call.brightness() == no_members().insert("value"@, int_text(bri as int)),
    {
        let mut hue_map = new_object();
        insert_member(&mut hue_map, "value", number_value(hue));

        let mut sat_map = new_object();
        insert_member(&mut sat_map, "value", number_value(sat));

        let mut bri_map = new_object();
        insert_member(&mut bri_map, "value", number_value(bri));
        Colour { sat: sat_map, hue: hue_map, brightness: bri_map }
    }
}

impl Send for Colour {
    open spec fn json_spec(&self) -> Seq<char> {
        object_text(
            no_members().insert("hue"@, object_text(self.hue())).insert(
                "sat"@,
                object_text(self.sat()),
            ).insert("brightness"@, object_text(self.brightness())),
        )
    }

    open spec fn url_spec(&self) -> Seq<char> {
        "state"@
    }

    open spec fn action_spec(&self) -> Action {
        Action::PUT
    }

    fn to_json(&self) -> (json: String) {
        let mut call = new_object();
        insert_member(&mut call, "hue", object_value(&self.hue));
        insert_member(&mut call, "sat", object_value(&self.sat));
        insert_member(&mut call, "brightness", object_value(&self.brightness));
        object_to_string(&call)
    }

    fn send_url(&self) -> (url: &str) {
        "state"
    }

    fn action(&self) -> (action: Action) {
        Action::PUT
    }
}

/// Set the colour temperature of the panels, or change it by a step.
#[derive(Debug)]
pub struct Temperature {
    ct: JsonObject,
}

impl Temperature {
    /// What the call holds.
    pub closed spec fn inner(&self) -> Map<Seq<char>, Seq<char>> {
        members(self.ct)
    }

    /// The call that sets the colour temperature to `value`, in the
    /// panels' own unit, from 1200 to 6500.
    pub fn new(value: isize) -> (call: Temperature)
        requires
            1200 <= value <= 6500,
        ensures
            call.inner() == no_members().insert("value"@, int_text(value as int)),
    {
        let mut map = new_object();
        insert_member(&mut map, "value", number_value(value));
        Temperature { ct: map }
    }

    /// The call that changes the colour temperature by `value`.
    pub fn increment(value: isize) -> (call: Temperature)
        ensures
            call.inner() == no_members().insert("increment"@, int_text(value as int)),
    {
        let mut map = new_object();
        insert_member(&mut map, "increment", number_value(value));
        Temperature { ct: map }
    }
}

impl Send for Temperature {
    open spec fn json_spec(&self) -> Seq<char> {
        single("ct"@, object_text(self.inner()))
    }

    open spec fn url_spec(&self) -> Seq<char> {
        "state"@
    }

    open spec fn action_spec(&self) -> Action {
        Action::PUT
    }

    fn to_json(&self) -> (json: String) {
        let mut call = new_object();
        insert_member(&mut call, "ct", object_value(&self.ct));
        object_to_string(&call)
    }

    fn send_url(&self) -> (url: &str) {
        "state"
    }

    fn action(&self) -> (action: Action) {
        Action::PUT
    }
}

/// Make the panels flash, to tell them from others.
#[derive(Debug)]
pub struct Identify {}

impl Identify {
    pub fn new() -> (call: Identify) {
        Identify {  }
    }
}

impl Send for Identify {
    open spec fn json_spec(&self) -> Seq<char> {
        ""@
    }

    open spec fn url_spec(&self) -> Seq<char> {
        "identify"@
    }

    open spec fn action_spec(&self) -> Action {
        Action::PUT
    }

    fn to_json(&self) -> (json: String) {
        String::from_str("")
    }

    fn send_url(&self) -> (url: &str) {
        "identify"
    }

    fn action(&self) -> (action: Action) {
        Action::PUT
    }
}

} // verus!
