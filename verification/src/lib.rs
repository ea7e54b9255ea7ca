//! Verified core of the OpenSCQ30 desktop tools for the Soundcore R50i NC:
//! packet parsing and serialisation, device state updates, and the decisions
//! behind the tray menu and the settings backend.

pub mod backend;
pub mod connection;
pub mod gui_app;
pub mod gui_tray;
pub mod modules;
pub mod packet;
pub mod properties;
pub mod settings;
pub mod structures;
pub mod tray;
pub mod text;
