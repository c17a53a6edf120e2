//! Generate API calls for Nanoleaf panels.
//!
//! # API overview
//!
//! The signal to change hue, saturation and brightness is given as a nested
//! dictionary: the key of the outer level is the property to change, the
//! value is a dictionary with the key "value" and the requested value.
//!
//! The values take a range of:
//! - brightness: [0, 100]
//! - sat: [0, 100]
//! - hue: [0, 360]
//!
//! ## Example command
//!
//! ``{"brightness": {"value":70}, "sat": {"value":20}, "hue": {"value":120}}``
//!
//! ## Colour temperature
//!
//! There is a colour temperature independent of the colour commands:
//! - ct: [1200, 6500]
//!
//! The lower values are the warmer ones. A temperature is asked for in
//! percent, where 100 is the warmest.
//!
//! These commands change all panels.

use crate::colour::{Hsv, FULL_TURN, UNIT};
use crate::common::{rounded, scalegen, ApiCommand, CommandView, Lamp};
use crate::json::{
    bool_text, bool_value, insert_member, members, new_object, no_members, number_value,
    object_text, object_to_string, object_value, single, string_text, string_value, JsonObject,
};
use crate::settings::{read_settings, settings_of, SettingsError};
use crate::text::{decimal, int_text};
use vstd::prelude::*;
use vstd::string::*;

pub mod calls;

pub use crate::scenes::SceneList;

verus! {

/// A dictionary of properties, each with a dictionary of its own.
pub type NestedDict = JsonObject;

/// The Nanoleaf panels behind one controller.
#[derive(Debug)]
pub struct Nanoleaf {
    /// The address of the controller.
    pub ip: String,
    /// The key that the API asks for.
    pub api_key: String,
}

/// The text of the dictionary that wraps one value: `{"value": ..}`.
pub open spec fn wrapped(value: Seq<char>) -> Seq<char> {
    single("value"@, value)
}

/// The colour temperature, in the lamp's unit, for a temperature in
/// percent: 100, the warmest, is 1200, and 0 is 6500.
pub open spec fn temp_mapped(val: int) -> int {
    rounded(100 - val, 100, 5300) + 1200
}

/// The members of the dictionary that sets hue, saturation and brightness.
pub open spec fn colour_members(hue: int, sat: int, bri: int) -> Map<Seq<char>, Seq<char>> {
    no_members().insert("hue"@, wrapped(int_text(hue))).insert(
        "sat"@,
        wrapped(int_text(sat)),
    ).insert("brightness"@, wrapped(int_text(bri)))
}

impl Nanoleaf {
    /// The panels that the section `nanoleaf` of the settings describes.
    pub fn new(conf: &ini::Ini) -> (lamp: Result<Nanoleaf, SettingsError>)
        ensures
            match settings_of(*conf, "nanoleaf"@) {
                Ok((ip, api_key)) => lamp matches Ok(lamp) && lamp.ip@ == ip && lamp.api_key@
                    == api_key,
                Err(e) => lamp matches Err(missing) && missing == e,
            },
    {
        match read_settings(conf, "nanoleaf") {
            Ok(settings) => Ok(Nanoleaf { ip: settings.ip, api_key: settings.api_key }),
            Err(e) => Err(e),
        }
    }
}

impl Lamp for Nanoleaf {
    open spec fn addr_spec(&self) -> Seq<char> {
        "http://"@ + self.ip@ + ":"@ + int_text(16021) + "/api/v1/"@ + self.api_key@
    }

    open spec fn on_spec(&self, state: bool) -> Option<CommandView> {
        Some(CommandView { addr: "state/on"@, json: single("on"@, wrapped(bool_text(state))) })
    }

    open spec fn brightness_spec(&self, val: isize) -> Option<CommandView> {
        if 0 <= val <= 100 {
            Some(
                CommandView {
                    addr: "state"@,
                    json: single("brightness"@, wrapped(int_text(val as int))),
                },
            )
        } else {
            None
        }
    }

    open spec fn colour_spec(&self, hue: isize, sat: isize, bri: isize) -> Option<CommandView> {
        if 0 <= hue <= 360 && 0 <= sat <= 100 && 0 <= bri <= 100 {
            Some(
                CommandView {
                    addr: "state"@,
                    json: object_text(colour_members(hue as int, sat as int, bri as int)),
                },
            )
        } else {
            None
        }
    }

    open spec fn palette_spec(&self, colour: Hsv) -> Option<CommandView> {
        if colour.in_range() {
            Some(
                CommandView {
                    addr: "state"@,
                    json: object_text(
                        colour_members(
                            rounded(colour.positive_hue(), FULL_TURN as int, 360),
                            rounded(colour.saturation as int, UNIT as int, 100),
                            rounded(colour.value as int, UNIT as int, 100),
                        ),
                    ),
                },
            )
        } else {
            None
        }
    }

    open spec fn temperature_spec(&self, temp: isize) -> Option<CommandView> {
        if 0 <= temp <= 100 {
            Some(
                CommandView {
                    addr: "state"@,
                    json: single("ct"@, wrapped(int_text(temp_mapped(temp as int)))),
                },
            )
        } else {
            None
        }
    }

    open spec fn scene_spec(&self, scene_name: Seq<char>) -> Option<CommandView> {
        Some(CommandView { addr: "effects"@, json: single("select"@, string_text(scene_name)) })
    }

    fn addr(&self) -> (base: String) {
        let port: isize = 16021;
        let mut base = String::from_str("http://");
        base.append(self.ip.as_str());
        base.append(":");
        base.append(decimal(port).as_str());
        base.append("/api/v1/");
        base.append(self.api_key.as_str());
        base
    }

    fn on_command(&self, state: bool) -> (cmd: Option<ApiCommand>) {
        let addr = String::from_str("state/on");
        let mut cmd_dict = new_object();
        let mut inner_struct = new_object();

        insert_member(&mut inner_struct, "value", bool_value(state));
        insert_member(&mut cmd_dict, "on", object_value(&inner_struct));

        let json = object_to_string(&cmd_dict);
        Some(ApiCommand { addr, json })
    }

    fn brightness_command(&self, val: isize) -> (cmd: Option<ApiCommand>) {
        if val < 0 || val > 100 {
            return None;
        }
        let addr = String::from_str("state");
        let mut cmd_dict = new_object();
        wrap_insert(&mut cmd_dict, "brightness", val);
        let json = object_to_string(&cmd_dict);
        Some(ApiCommand { addr, json })
    }

    fn colour_command(&self, hue: isize, sat: isize, bri: isize) -> (cmd: Option<ApiCommand>) {
        if hue < 0 || hue > 360 || sat < 0 || sat > 100 || bri < 0 || bri > 100 {
            return None;
        }
        let addr = String::from_str("state");
        let mut cmd_dict = new_object();

        wrap_insert(&mut cmd_dict, "hue", hue);
        wrap_insert(&mut cmd_dict, "sat", sat);
        wrap_insert(&mut cmd_dict, "brightness", bri);

        let json = object_to_string(&cmd_dict);
        Some(ApiCommand { addr, json })
    }

    fn palette_command(&self, colour: Hsv) -> (cmd: Option<ApiCommand>) {
        if !colour.is_in_range() {
            return None;
        }
        let addr = String::from_str("state");
        let mut cmd_dict = new_object();
        let hue = colour.to_positive_degrees();

        wrap_insert_scale(&mut cmd_dict, "hue", hue, FULL_TURN, 360);
        wrap_insert_scale(&mut cmd_dict, "sat", colour.saturation, UNIT, 100);
        wrap_insert_scale(&mut cmd_dict, "brightness", colour.value, UNIT, 100);

        let json = object_to_string(&cmd_dict);
        Some(ApiCommand { addr, json })
    }

    fn temperature_command(&self, temp: isize) -> (cmd: Option<ApiCommand>) {
        if temp < 0 || temp > 100 {
            return None;
        }
        let addr = String::from_str("state");
        let mut cmd_dict = new_object();
        let val = temp_mapping(temp);
        wrap_insert(&mut cmd_dict, "ct", val);
        let json = object_to_string(&cmd_dict);
        Some(ApiCommand { addr, json })
    }

    fn scene_command(&self, scene_name: String) -> (cmd: Option<ApiCommand>) {
        let addr = String::from_str("effects");
        let mut outer_dict = new_object();

        insert_member(&mut outer_dict, "select", string_value(scene_name.as_str()));
        let json = object_to_string(&outer_dict);
        Some(ApiCommand { addr, json })
    }
}

/// The warmer the temperature that is asked for, the lower the number that
/// the lamp is sent, and every number lies in the lamp's range.
pub proof fn lemma_temp_inverted(low: int, high: int)
    requires
        0 <= low <= high <= 100,
    ensures
        1200 <= temp_mapped(high) <= temp_mapped(low) <= 6500,
{
    crate::common::lemma_round_monotonic(100 - high, 100 - low, 100, 5300);
    crate::common::lemma_round_bounds(100 - high, 100, 5300);
    crate::common::lemma_round_bounds(100 - low, 100, 5300);
}

/// The colour temperature, in the lamp's unit, for a temperature in
/// percent, where 100 is the warmest.
pub fn temp_mapping(val: isize) -> (ct: isize)
    requires
        0 <= val <= 100,
    ensures
        ct == temp_mapped(val as int),
        1200 <= ct <= 6500,
{
    proof {
        crate::common::lemma_round_bounds(100 - val, 100, 5300);
    }
    scalegen((100 - val) as i64, 100, 5300) + 1200
}

/// Pack a value inside a nested dict, scaled from the range up to
/// `old_range` into the range up to `new_range` and rounded to the nearest
/// whole number.
pub fn wrap_insert_scale(
    outer_dict: &mut NestedDict,
    label: &str,
    value: i64,
    old_range: i64,
    new_range: isize,
)
    requires
        old_range > 0,
        0 <= value <= old_range,
    ensures
        members(*final(outer_dict)) == members(*old(outer_dict)).insert(
            label@,
            wrapped(int_text(rounded(value as int, old_range as int, new_range as int))),
        ),
{
    let mut inner_struct = new_object();
    let scaled_val = scalegen(value, old_range, new_range);
    insert_member(&mut inner_struct, "value", number_value(scaled_val));
    insert_member(outer_dict, label, object_value(&inner_struct));
}

/// Pack a value inside a nested dict without changing it.
pub fn wrap_insert(outer_dict: &mut NestedDict, label: &str, value: isize)
    ensures
        members(*final(outer_dict)) == members(*old(outer_dict)).insert(
            label@,
            wrapped(int_text(value as int)),
        ),
{
    let mut inner_struct = new_object();
    insert_member(&mut inner_struct, "value", number_value(value));
    insert_member(outer_dict, label, object_value(&inner_struct));
}

} // verus!
