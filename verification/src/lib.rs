//! Configuration protocol, preset model and TUI state machine for Shure
//! USB microphones (MVX2U and relatives).
pub mod protocol;
pub mod protocol_laws;
pub mod text;
pub mod presets;
pub mod preset_laws;
pub mod app;
pub mod app_laws;
pub mod keys;
pub mod ruler;
pub mod actions;
pub mod action_laws;
pub mod probe;
pub mod device_plan;
pub mod control_laws;
