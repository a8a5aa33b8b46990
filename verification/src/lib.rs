//! Verified core of a Riot Client account switcher: reading session text,
//! sealing shared account files, the switch and logout procedures, and the
//! switcher's screen state.
pub mod client;
pub mod crypto;
pub mod db;
pub mod riot;
pub mod text;
pub mod ui;
