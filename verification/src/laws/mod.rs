//! What holds of the library as a whole.

pub mod activities;
pub mod bars;
pub mod commands;
pub mod connection;
pub mod discovery;
pub mod documents;
pub mod ending;
pub mod in_step;
pub mod messages;
pub mod names;
pub mod outcomes;
pub mod pairing;
pub mod parts;
pub mod registry;
pub mod registry_runs;
pub mod runs;
pub mod saving;
pub mod search;
pub mod transfers;
pub mod usb;
