//! Generate API calls for the Philips Hue lights.
//!
//! # API overview
//!
//! The signal to change hue, saturation and brightness of a light bulb is
//! given as a single-layer dictionary. If the light is off, it will not
//! turn back on when the colour is changed unless an "on" command is sent
//! with it.
//!
//! The values take a range of:
//! - hue: [0, 65535]
//! - sat: [0, 255]
//! - bri: [0, 255]
//! - on: true/false
//!
//! ## Example command
//!
//! ``{"hue":30000, "sat":200, "bri":255, "on":true}``
//!
//! ## Colour temperature
//!
//! There is a colour temperature independent of the colour commands:
//! - ct: [154, 500]
//!
//! A temperature is asked for in percent: 100 gives 154, the lowest value,
//! and 0 gives 500, the highest.
//!
//! The bulbs are addressed one by one, by a ``lamp_id``.

use crate::colour::{Hsv, FULL_TURN, UNIT};
use crate::common::{rounded, scale, scaled, scalegen, ApiCommand, CommandView, Lamp};
use crate::json::{
    bool_text, bool_value, insert_member, new_object, no_members, number_value, object_text,
    object_to_string, single,
};
use crate::settings::{read_settings, settings_of, SettingsError};
use crate::text::{decimal, int_text};
use vstd::prelude::*;
use vstd::string::*;

pub mod calls;

verus! {

/// Controller for one Hue light behind a bridge.
#[derive(Debug)]
pub struct Hue {
    /// The address of the bridge.
    pub ip: String,
    /// The key that the API asks for.
    pub api_key: String,
    /// Index of the lamp.
    pub lamp_id: isize,
}

/// Container for the values of a colour command.
#[derive(Clone, Copy, Debug, PartialEq, Eq, Structural)]
pub struct ColourOnDict {
    pub hue: isize,
    pub bri: isize,
    pub sat: isize,
    pub on: bool,
}

/// Container for the values of a colour temperature command.
#[derive(Clone, Copy, Debug, PartialEq, Eq, Structural)]
pub struct TempOnDict {
    pub ct: isize,
    pub on: bool,
}

/// The colour temperature, in the lamp's unit, for a temperature in
/// percent: 100 gives 154, and 0 gives 500.
pub open spec fn temp_mapped(val: int) -> int {
    scaled(100 - val, 100, 346) + 154
}

impl ColourOnDict {
    /// The members of the dictionary that the lamp is sent.
    pub open spec fn members(self) -> Map<Seq<char>, Seq<char>> {
        no_members().insert("hue"@, int_text(self.hue as int)).insert(
            "bri"@,
            int_text(self.bri as int),
        ).insert("sat"@, int_text(self.sat as int)).insert("on"@, bool_text(self.on))
    }

    /// The JSON text of the dictionary.
    pub fn to_json(&self) -> (json: String)
        ensures
            json@ == object_text(self.members()),
    {
        let mut dict = new_object();
        insert_member(&mut dict, "hue", number_value(self.hue));
        insert_member(&mut dict, "bri", number_value(self.bri));
        insert_member(&mut dict, "sat", number_value(self.sat));
        insert_member(&mut dict, "on", bool_value(self.on));
        object_to_string(&dict)
    }
}

impl TempOnDict {
    /// The dictionary that sets the colour temperature `value`, given in
    /// percent, and turns the lamp on.
    pub fn new(value: isize) -> (dict: TempOnDict)
        requires
            0 <= value <= 100,
        ensures
            dict.ct == temp_mapped(value as int),
            dict.on,
    {
        let ct = temp_mapping(value);
        let on = true;
        TempOnDict { ct, on }
    }

    /// The members of the dictionary that the lamp is sent.
    pub open spec fn members(self) -> Map<Seq<char>, Seq<char>> {
        no_members().insert("ct"@, int_text(self.ct as int)).insert("on"@, bool_text(self.on))
    }

    /// The JSON text of the dictionary.
    pub fn to_json(&self) -> (json: String)
        ensures
            json@ == object_text(self.members()),
    {
        let mut dict = new_object();
        insert_member(&mut dict, "ct", number_value(self.ct));
        insert_member(&mut dict, "on", bool_value(self.on));
        object_to_string(&dict)
    }
}

impl Hue {
    /// The light `lamp_id` behind the bridge that the section `hue` of the
    /// settings describes.
    pub fn new(conf: &ini::Ini, lamp_id: isize) -> (lamp: Result<Hue, SettingsError>)
        ensures
            match settings_of(*conf, "hue"@) {
                Ok((ip, api_key)) => lamp matches Ok(lamp) && lamp.ip@ == ip && lamp.api_key@
                    == api_key && lamp.lamp_id == lamp_id,
                Err(e) => lamp matches Err(missing) && missing == e,
            },
    {
        match read_settings(conf, "hue") {
            Ok(settings) => Ok(Hue { ip: settings.ip, api_key: settings.api_key, lamp_id }),
            Err(e) => Err(e),
        }
    }
}

impl Lamp for Hue {
    open spec fn addr_spec(&self) -> Seq<char> {
        "http://"@ + self.ip@ + "/api/"@ + self.api_key@ + "/lights/"@ + int_text(
            self.lamp_id as int,
        )
    }

    open spec fn on_spec(&self, state: bool) -> Option<CommandView> {
        Some(
            CommandView {
                addr: "state/on"@,
                json: single("on"@, bool_text(state)),
            },
        )
    }

    open spec fn brightness_spec(&self, val: isize) -> Option<CommandView> {
        if 0 <= val <= 100 {
            Some(
                CommandView {
                    addr: "state"@,
                    json: single("bri"@, int_text(scaled(val as int, 100, 255))),
                },
            )
        } else {
            None
        }
    }

    open spec fn colour_spec(&self, hue: isize, sat: isize, bri: isize) -> Option<CommandView> {
        if 0 <= hue <= 360 && 0 <= sat <= 100 && 0 <= bri <= 100 {
            Some(
                CommandView {
                    addr: "state"@,
                    json: object_text(
                        (ColourOnDict {
                            hue: scaled(hue as int, 360, 65535) as isize,
                            bri: scaled(bri as int, 100, 255) as isize,
                            sat: scaled(sat as int, 100, 255) as isize,
                            on: true,
                        }).members(),
                    ),
                },
            )
        } else {
            None
        }
    }

    open spec fn palette_spec(&self, colour: Hsv) -> Option<CommandView> {
        if colour.in_range() {
            Some(
                CommandView {
                    addr: "state"@,
                    json: object_text(
                        (ColourOnDict {
                            hue: rounded(colour.positive_hue(), FULL_TURN as int, 65535) as isize,
                            sat: rounded(colour.saturation as int, UNIT as int, 255) as isize,
                            bri: rounded(colour.value as int, UNIT as int, 255) as isize,
                            on: true,
                        }).members(),
                    ),
                },
            )
        } else {
            None
        }
    }

    open spec fn temperature_spec(&self, temp: isize) -> Option<CommandView> {
        if 0 <= temp <= 100 {
            Some(
                CommandView {
                    addr: "state"@,
                    json: object_text(
                        (TempOnDict { ct: temp_mapped(temp as int) as isize, on: true }).members(),
                    ),
                },
            )
        } else {
            None
        }
    }

    open spec fn scene_spec(&self, scene_name: Seq<char>) -> Option<CommandView> {
        None
    }

    fn addr(&self) -> (base: String) {
        let mut base = String::from_str("http://");
        base.append(self.ip.as_str());
        base.append("/api/");
        base.append(self.api_key.as_str());
        base.append("/lights/");
        base.append(decimal(self.lamp_id).as_str());
        base
    }

    fn on_command(&self, state: bool) -> (cmd: Option<ApiCommand>) {
        let addr = String::from_str("state/on");
        let mut inner_struct = new_object();
        insert_member(&mut inner_struct, "on", bool_value(state));

        let json = object_to_string(&inner_struct);
        Some(ApiCommand { addr, json })
    }

    fn brightness_command(&self, val: isize) -> (cmd: Option<ApiCommand>) {
        if val < 0 || val > 100 {
            return None;
        }
        let addr = String::from_str("state");
        let mut inner_struct = new_object();
        let val = scale(val, 100, 255);
        insert_member(&mut inner_struct, "bri", number_value(val));
        let json = object_to_string(&inner_struct);
        Some(ApiCommand { addr, json })
    }

    fn colour_command(&self, hue: isize, sat: isize, bri: isize) -> (cmd: Option<ApiCommand>) {
        if hue < 0 || hue > 360 || sat < 0 || sat > 100 || bri < 0 || bri > 100 {
            return None;
        }
        let addr = String::from_str("state");
        let hue = scale(hue, 360, 65535);
        let bri = scale(bri, 100, 255);
        let sat = scale(sat, 100, 255);
        let on = true;

        let colours = ColourOnDict { hue, bri, sat, on };
        let json = colours.to_json();
        Some(ApiCommand { addr, json })
    }

    fn palette_command(&self, colour: Hsv) -> (cmd: Option<ApiCommand>) {
        if !colour.is_in_range() {
            return None;
        }
        let addr = String::from_str("state");

        let hue = scalegen(colour.to_positive_degrees(), FULL_TURN, 65535);
        let sat = scalegen(colour.saturation, UNIT, 255);
        let bri = scalegen(colour.value, UNIT, 255);
        let on = true;

        let mixed_dict = ColourOnDict { hue, sat, bri, on };
        let json = mixed_dict.to_json();
        Some(ApiCommand { addr, json })
    }

    fn temperature_command(&self, temp: isize) -> (cmd: Option<ApiCommand>) {
        if temp < 0 || temp > 100 {
            return None;
        }
        let addr = String::from_str("state");
        let temp_dict = TempOnDict::new(temp);
        let json = temp_dict.to_json();
        Some(ApiCommand { addr, json })
    }

    fn scene_command(&self, scene_name: String) -> (cmd: Option<ApiCommand>) {
        None
    }
}

/// The higher the percent that is asked for, the lower the number that the
/// lamp is sent, and every number lies in the lamp's range.
pub proof fn lemma_temp_inverted(low: int, high: int)
    requires
        0 <= low <= high <= 100,
    ensures
        154 <= temp_mapped(high) <= temp_mapped(low) <= 500,
{
    crate::common::lemma_scale_monotonic(100 - high, 100 - low, 100, 346);
    crate::common::lemma_part_bounds(100 - high, 100, 346);
    crate::common::lemma_part_bounds(100 - low, 100, 346);
}

/// The colour temperature, in the lamp's unit, for a temperature in
/// percent: 100 gives 154, the lowest number, and 0 gives 500.
pub fn temp_mapping(val: isize) -> (ct: isize)
    requires
        0 <= val <= 100,
    ensures
        ct == temp_mapped(val as int),
        154 <= ct <= 500,
{
    proof {
        crate::common::lemma_part_bounds(100 - val, 100, 346);
    }
    scale(100 - val, 100, 346) + 154
}

} // verus!
