//! Planning and decision logic of an Arch Linux installer.
//!
//! The installer is a fixed sequence of outside actions (running commands,
//! writing configuration files, copying files).  This library describes that
//! sequence as plain values ([`plan::Step`]) and decides, for each outcome an
//! action reports, whether installation proceeds or stops with an error.
//! The binary around it performs the actions.
pub mod base;
pub mod eval;
pub mod exec;
pub mod linux;
pub mod locale;
pub mod network;
pub mod partition;
pub mod pattern;
pub mod plan;
pub mod text;
