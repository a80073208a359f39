//! Rules of a build-status light: which colour a build outcome asks for,
//! the command that sets it on the device, and how the device's answer reads.

pub mod color;
pub mod command;
pub mod laws;
pub mod outcome;
pub mod text;
pub mod webhook;
