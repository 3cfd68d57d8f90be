//! The choice of the device that a command works on.

use crate::notice::Problem;
use crate::protocol::{Action, Device};
use vstd::prelude::*;

verus! {

/// The lookup of the device that is asked for, or of the default device.
pub open spec fn lookup_for(device_arg: Option<String>) -> Action {
    match device_arg {
        Some(identifier) => Action::Resolve(identifier),
        None => Action::FindDefault,
    }
}

/// The lookup of the device that a command works on.
pub fn lookup(device_arg: &Option<String>) -> (res: Action)
    ensures
        res == lookup_for(*device_arg),
{
    match device_arg {
        Some(identifier) => Action::Resolve(identifier.clone()),
        None => Action::FindDefault,
    }
}

/// The problem of a lookup that found nothing.
pub open spec fn missing(device_arg: Option<String>) -> Problem {
    match device_arg {
        Some(identifier) => Problem::NotInStore(identifier),
        None => Problem::NoDefault,
    }
}

/// The device that a command works on, given what its lookup found.
pub fn get_active_device(device_arg: Option<String>, found: Option<Device>) -> (res: Result<
    Device,
    Problem,
>)
    ensures
        res == (match found {
            Some(device) => Ok(device),
            None => Err(missing(device_arg)),
        }),
{
    match found {
        Some(device) => Ok(device),
        None => match device_arg {
            Some(identifier) => Err(Problem::NotInStore(identifier)),
            None => Err(Problem::NoDefault),
        },
    }
}

/// The default that is set is this serial number.
pub open spec fn is_default_serial(default: Option<String>, serial: Seq<char>) -> bool {
    match default {
        Some(default) => default@ == serial,
        None => false,
    }
}

/// Whether a serial number is the default.
pub fn is_default(default: &Option<String>, serial: &String) -> (res: bool)
    ensures
        res == is_default_serial(*default, serial@),
{
    match default {
        Some(default) => *default == *serial,
        None => false,
    }
}

} // verus!
