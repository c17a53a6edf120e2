//! Control of networked lamps of several vendors.
//!
//! A small set of lighting intents (power, brightness, colour, colour
//! temperature, a named scene, a smooth transition) is turned into the
//! request that each vendor's lamp expects. The library decides what is
//! sent and when; sending, waiting and reading files is left to the caller.
//!
//! - [`common`]: the signals, the lamp interface and the scaling between
//!   ranges
//! - [`colour`]: colours in fixed point, and the way from one to another
//! - [`nanoleaf`], [`hue`]: what a signal becomes for each vendor
//! - [`config_parse`]: from the command line to the intent, and the timed
//!   steps of a transition
//! - [`scenes`]: the list of scenes, found in a snapshot or asked of a lamp
//! - [`dispatch`]: one task for each selected lamp
//! - [`settings`], [`json`], [`text`]: the settings file, JSON payloads and
//!   decimal numbers

pub mod colour;
pub mod common;
pub mod config_parse;
pub mod dispatch;
pub mod hue;
pub mod json;
pub mod nanoleaf;
pub mod scenes;
pub mod settings;
pub mod text;
