//! Settings for a screen-dimming privacy overlay: the hotkey grammar, the
//! overlay colour codec and the rules of the configuration store.

pub mod color;
pub mod config;
pub mod hotkey;
pub mod hotkey_laws;
pub mod keys;
pub mod store;
pub mod text;
