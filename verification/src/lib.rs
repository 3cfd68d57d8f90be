//! The decisions of the `boppo` command line tool, free of input and output.

pub mod activity;
pub mod command;
pub mod device;
pub mod devices;
pub mod discover;
pub mod json;
pub mod laws;
pub mod notice;
pub mod pairing;
pub mod progress;
pub mod protocol;
pub mod repair;
pub mod session;
pub mod text;
pub mod usb;
pub mod wifi;
