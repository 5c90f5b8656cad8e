//! Keeps the default audio output in step with whether a monitored
//! application is capturing audio, plus the small decision rules of the
//! tray utility's other automations.

pub mod text;
pub mod device;
pub mod error;
pub mod session;
pub mod routing;
pub mod config;
pub mod process;
pub mod startup;
pub mod power;
pub mod display;
pub mod taskbar;
pub mod connection;
