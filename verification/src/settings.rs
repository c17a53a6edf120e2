//! The settings of the lamps, as an INI file holds them: one section for
//! each vendor, with the address `ip` and the key `api`.
//!
//! The file is read by the `ini` crate; what this module states of it is
//! believed, not proved.

use vstd::prelude::*;

verus! {

/// `ini::Ini`, an INI file that was read.
#[verifier::external_type_specification]
#[verifier::external_body]
pub struct ExIni(ini::Ini);

/// `ini::Properties`, the keys and values of one section.
#[verifier::external_type_specification]
#[verifier::external_body]
pub struct ExProperties(ini::Properties);

/// The named sections of a file: each name with the properties of the
/// first section of that name.
pub uninterp spec fn sections(conf: ini::Ini) -> Map<Seq<char>, Map<Seq<char>, Seq<char>>>;

/// The properties of a section: each key with the first value given for it.
pub uninterp spec fn properties(section: ini::Properties) -> Map<Seq<char>, Seq<char>>;

/// The section `name` of the file, by `ini::Ini::section`: the first
/// section of that name, where there is one.
#[verifier::external_body]
pub(crate) fn section<'a>(conf: &'a ini::Ini, name: &str) -> (found: Option<&'a ini::Properties>)
    ensures
        match found {
            Some(section) => sections(*conf).contains_key(name@) && properties(*section)
                == sections(*conf)[name@],
            None => !sections(*conf).contains_key(name@),
        },
{
    conf.section(Some(name))
}

/// The value of `key` in the section, by `ini::Properties::get`: the first
/// value given for that key, where there is one.
#[verifier::external_body]
pub(crate) fn property<'a>(section: &'a ini::Properties, key: &str) -> (found: Option<&'a str>)
    ensures
        match found {
            Some(value) => properties(*section).contains_key(key@) && value@ == properties(
                *section,
            )[key@],
            None => !properties(*section).contains_key(key@),
        },
{
    section.get(key)
}

/// Why the settings of a lamp could not be read.
#[derive(Clone, Copy, Debug, PartialEq, Eq, Structural)]
pub enum SettingsError {
    /// The file has no section for the vendor.
    NoSection,
    /// The section does not give the address, `ip`.
    NoIp,
    /// The section does not give the key, `api`.
    NoApiKey,
}

/// The settings of one vendor's lamps.
#[derive(Debug)]
pub struct Settings {
    /// The address of the lamp, or of its bridge.
    pub ip: String,
    /// The key that the API asks for.
    pub api_key: String,
}

/// What reading the section `vendor` gives: the address and the key, or the
/// first thing that is missing.
pub open spec fn settings_of(conf: ini::Ini, vendor: Seq<char>) -> Result<
    (Seq<char>, Seq<char>),
    SettingsError,
> {
    if !sections(conf).contains_key(vendor) {
        Err(SettingsError::NoSection)
    } else if !sections(conf)[vendor].contains_key("ip"@) {
        Err(SettingsError::NoIp)
    } else if !sections(conf)[vendor].contains_key("api"@) {
        Err(SettingsError::NoApiKey)
    } else {
        Ok((sections(conf)[vendor]["ip"@], sections(conf)[vendor]["api"@]))
    }
}

/// Reads the settings of one vendor from its section of the file.
pub fn read_settings(conf: &ini::Ini, vendor: &str) -> (read: Result<Settings, SettingsError>)
    ensures
        match settings_of(*conf, vendor@) {
            Ok((ip, api_key)) => read matches Ok(settings) && settings.ip@ == ip
                && settings.api_key@ == api_key,
            Err(e) => read matches Err(missing) && missing == e,
        },
{
    let section = match section(conf, vendor) {
        Some(section) => section,
        None => {
            return Err(SettingsError::NoSection);
        },
    };
    let ip = match property(section, "ip") {
        Some(ip) => ip,
        None => {
            return Err(SettingsError::NoIp);
        },
    };
    let api_key = match property(section, "api") {
        Some(api_key) => api_key,
        None => {
            return Err(SettingsError::NoApiKey);
        },
    };
    Ok(Settings { ip: ip.to_owned(), api_key: api_key.to_owned() })
}

} // verus!
