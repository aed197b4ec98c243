//! The settings value, its defaults, and where it is kept.

use crate::color::{decode_color, decode_hex_color};
use std::path::PathBuf;
use vstd::prelude::*;

verus! {

/// The settings of the overlay.
#[derive(Debug, Clone)]
pub struct Config {
    /// The hotkey that toggles the overlay, such as `ctrl+b` or `ctrl+shift+l`.
    pub hotkey: String,
    /// The opacity of the overlay, a single-precision number held as its bit
    /// pattern. It is meant to lie between zero and one; no value is refused.
    pub opacity_bits: u32,
    /// Whether notifications are shown.
    pub notifications_enabled: bool,
    /// The colour of the overlay, as `#RRGGBB` or `RRGGBB`.
    pub overlay_color: String,
}

/// A settings value as plain data.
pub ghost struct ConfigView {
    pub hotkey: Seq<char>,
    pub opacity_bits: u32,
    pub notifications_enabled: bool,
    pub overlay_color: Seq<char>,
}

impl View for Config {
    type V = ConfigView;

    open spec fn view(&self) -> ConfigView {
        ConfigView {
            hotkey: self.hotkey@,
            opacity_bits: self.opacity_bits,
            notifications_enabled: self.notifications_enabled,
            overlay_color: self.overlay_color@,
        }
    }
}

/// The settings of a first run: `ctrl+b`, three tenths opaque, notifications
/// on, a dark green that stays distinguishable to the colour-blind.
pub open spec fn default_config() -> ConfigView {
    ConfigView {
        hotkey: "ctrl+b"@,
        opacity_bits: 0x3E99_999A,
        notifications_enabled: true,
        overlay_color: "#1B5E20"@,
    }
}

impl Default for Config {
    fn default() -> (c: Config)
        ensures
            c@ == default_config(),
    {
        Config {
            hotkey: "ctrl+b".to_owned(),
            opacity_bits: 0x3E99_999A,
            notifications_enabled: true,
            overlay_color: "#1B5E20".to_owned(),
        }
    }
}

/// `std::path::PathBuf`, carried through as it is: nothing inside it is read here.
#[verifier::external_type_specification]
#[verifier::external_body]
pub struct ExPathBuf(PathBuf);

/// The path that a text writes: what `PathBuf::from` returns for it.
pub uninterp spec fn path_of(text: Seq<char>) -> PathBuf;

/// The path `base` with the component `name` added: what `Path::join` returns.
pub uninterp spec fn path_joined(base: PathBuf, name: Seq<char>) -> PathBuf;

/// Calls `dirs::home_dir`. Nothing is claimed of the result: it depends on
/// the variable `HOME` and on the user's account, and may be `None`.
#[verifier::external_body]
fn home_dir() -> (home: Option<PathBuf>) {
    dirs::home_dir()
}

/// Calls `PathBuf::from` on a text. Not proved: the contract only gives the result its name.
#[verifier::external_body]
fn path_from(text: &str) -> (path: PathBuf)
    ensures
        path == path_of(text@),
{
    PathBuf::from(text)
}

/// Calls `Path::join`. Not proved: the contract only gives the result its name.
#[verifier::external_body]
fn join(base: &PathBuf, name: &str) -> (path: PathBuf)
    ensures
        path == path_joined(*base, name@),
{
    base.join(name)
}

/// Where the settings are kept for a user whose home directory is `home`:
/// `.pawgate/config.json` under it, or under the current directory where no
/// home directory is known.
pub open spec fn config_path_under(home: Option<PathBuf>) -> PathBuf {
    let base = match home {
        Some(dir) => dir,
        None => path_of("."@),
    };
    path_joined(path_joined(base, ".pawgate"@), "config.json"@)
}

impl Config {
    /// The colour of the overlay as red, green and blue. Text that is no
    /// colour gives the fallback colour.
    pub fn parse_overlay_color(&self) -> (rgb: (u8, u8, u8))
        ensures
            rgb == decode_color(self.overlay_color@),
    {
        decode_hex_color(self.overlay_color.as_str())
    }

    /// Where the settings are kept for a user whose home directory is `home`.
    pub fn config_path_in(home: Option<PathBuf>) -> (path: PathBuf)
        ensures
            path == config_path_under(home),
    {
        let base = match home {
            Some(dir) => dir,
            None => path_from("."),
        };
        join(&join(&base, ".pawgate"), "config.json")
    }

    /// Where the settings are kept: `~/.pawgate/config.json`, or the same
    /// under the current directory where the home directory cannot be found.
    pub fn config_path() -> (path: PathBuf)
        ensures
            exists|home: Option<PathBuf>| path == config_path_under(home),
    {
        Config::config_path_in(home_dir())
    }
}

} // verus!
