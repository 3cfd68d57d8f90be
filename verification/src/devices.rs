//! The commands that manage the registered devices.

use crate::command::DevicesCommands;
use crate::device::{get_active_device, is_default, is_default_serial, lookup, lookup_for, missing};
use crate::json::{device_json, device_list, device_list_json, json_pretty, shown_device};
use crate::notice::{DeviceRow, Notice, Problem};
use crate::protocol::{
    failed_with, failure_of, Action, Device, DeviceCredentials, Event, Failure, Turn,
};
use crate::text::{copied, optional_view};
use vstd::prelude::*;

verus! {

/// Where a command on the registered devices stands.
pub enum DevicesState {
    /// The store is being listed.
    Listing { json: bool },
    /// The active device is being looked up.
    Finding { device_arg: Option<String>, json: bool },
    /// The store is being asked whether the device is the default.
    CheckingDefault(Device),
    /// The device is on its way into the store.
    Adding { serial: String },
    /// The device to remove is being looked up.
    FindingRemoved { identifier: String },
    /// The device is being removed.
    Removing { identifier: String, serial: String },
    /// The default, which the device was, is being cleared.
    Clearing { serial: String },
    /// The device to make the default is being looked up.
    FindingDefault { identifier: String },
    /// The device is being made the default.
    Setting { serial: String },
    /// The store is being written, and then the user is told.
    Saving { then_tell: Notice },
    /// The user is being told of the result.
    Reporting,
}

/// The rows that the store's devices have in the table.
pub open spec fn device_rows(devices: Seq<Device>, default: Option<String>) -> Seq<DeviceRow> {
    devices.map_values(
        |device: Device|
            DeviceRow {
                serial: device.serial,
                nickname: device.credentials.nickname,
                is_default: is_default_serial(default, device.serial@),
            },
    )
}

/// Makes the rows that the store's devices have in the table.
pub fn rows_of(devices: &Vec<Device>, default: &Option<String>) -> (res: Vec<DeviceRow>)
    ensures
        res@ == device_rows(devices@, *default),
{
    let mut rows: Vec<DeviceRow> = Vec::new();
    for i in 0..devices.len()
        invariant
            rows@ == device_rows(devices@, *default).take(i as int),
    {
        let device = &devices[i];
        rows.push(
            DeviceRow {
                serial: device.serial.clone(),
                nickname: copied(&device.credentials.nickname),
                is_default: is_default(default, &device.serial),
            },
        );
        assert(rows@ =~= device_rows(devices@, *default).take(i + 1));
    }
    assert(rows@ =~= device_rows(devices@, *default));
    rows
}

/// The first turn of a command on the registered devices.
pub open spec fn devices_begun(device_arg: Option<String>, command: DevicesCommands) -> Turn<
    DevicesState,
> {
    match command {
        DevicesCommands::List { json } => Turn::Act(
            DevicesState::Listing { json },
            Action::ListDevices,
        ),
        DevicesCommands::Get { json } => Turn::Act(
            DevicesState::Finding { device_arg, json },
            lookup_for(device_arg),
        ),
        DevicesCommands::Add { serial, password, nickname } => Turn::Act(
            DevicesState::Adding { serial },
            Action::SetDevice(
                Device { serial, credentials: DeviceCredentials { password, nickname } },
            ),
        ),
        DevicesCommands::Remove { identifier } => Turn::Act(
            DevicesState::FindingRemoved { identifier },
            Action::Resolve(identifier),
        ),
        DevicesCommands::SetDefault { identifier } => Turn::Act(
            DevicesState::FindingDefault { identifier },
            Action::Resolve(identifier),
        ),
    }
}

/// Begins a command on the registered devices.
pub fn begin_devices_commands(device_arg: Option<String>, command: DevicesCommands) -> (res: Turn<
    DevicesState,
>)
    ensures
        res == devices_begun(device_arg, command),
{
    match command {
        DevicesCommands::List { json } => Turn::Act(
            DevicesState::Listing { json },
            Action::ListDevices,
        ),
        DevicesCommands::Get { json } => {
            let action = lookup(&device_arg);
            Turn::Act(DevicesState::Finding { device_arg, json }, action)
        },
        DevicesCommands::Add { serial, password, nickname } => {
            let device = Device {
                serial: serial.clone(),
                credentials: DeviceCredentials { password, nickname },
            };
            Turn::Act(DevicesState::Adding { serial }, Action::SetDevice(device))
        },
        DevicesCommands::Remove { identifier } => {
            let action = Action::Resolve(identifier.clone());
            Turn::Act(DevicesState::FindingRemoved { identifier }, action)
        },
        DevicesCommands::SetDefault { identifier } => {
            let action = Action::Resolve(identifier.clone());
            Turn::Act(DevicesState::FindingDefault { identifier }, action)
        },
    }
}

/// The last notice of a command.
pub open spec fn report(notice: Notice) -> Turn<DevicesState> {
    Turn::Act(DevicesState::Reporting, Action::Tell(notice))
}

/// The turn that shows a document.
pub open spec fn shows_json(document: Seq<char>, turn: Turn<DevicesState>) -> bool {
    &&& turn matches Turn::Act(DevicesState::Reporting, Action::Tell(Notice::Text(shown)))
    &&& shown@ == document
}

/// Shows a document, or fails where it could not be written.
fn show_json(document: Result<String, serde_json::Error>) -> (res: Turn<DevicesState>)
    ensures
        match document {
            Ok(text) => res == report(Notice::Text(text)),
            Err(error) => res == Turn::<DevicesState>::Fail(Failure::Json(error)),
        },
{
    match document {
        Ok(text) => Turn::Act(DevicesState::Reporting, Action::Tell(Notice::Text(text))),
        Err(error) => Turn::Fail(Failure::Json(error)),
    }
}

/// The turn that writes the store, after which the user is told.
pub open spec fn saved(then_tell: Notice) -> Turn<DevicesState> {
    Turn::Act(DevicesState::Saving { then_tell }, Action::SaveStore)
}

/// What follows an event during a command on the registered devices.
pub open spec fn devices_steps(
    state: DevicesState,
    event: Event,
    turn: Turn<DevicesState>,
) -> bool {
    match (state, event) {
        (DevicesState::Listing { json }, Event::Devices { devices, default }) => if json {
            shows_json(json_pretty(device_list(device_rows(devices@, default))), turn)
        } else if devices@.len() == 0 {
            turn == report(Notice::NoDevices)
        } else {
            &&& turn matches Turn::Act(
                DevicesState::Reporting,
                Action::Tell(Notice::DeviceTable(rows)),
            )
            &&& rows@ == device_rows(devices@, default)
        },
        (DevicesState::Finding { json, .. }, Event::Found(Some(device))) => if json {
            turn == Turn::Act(DevicesState::CheckingDefault(device), Action::GetDefault)
        } else {
            turn == report(
                Notice::Credentials {
                    serial: device.serial,
                    password: device.credentials.password,
                },
            )
        },
        (DevicesState::Finding { device_arg, .. }, Event::Found(None)) => turn == Turn::<
            DevicesState,
        >::Fail(Failure::Refused(missing(device_arg))),
        (DevicesState::CheckingDefault(device), Event::Default(default)) => shows_json(
            json_pretty(
                shown_device(
                    device.serial@,
                    device.credentials.password@,
                    optional_view(device.credentials.nickname),
                    is_default_serial(default, device.serial@),
                ),
            ),
            turn,
        ),
        (DevicesState::Adding { serial }, Event::Done) => turn == saved(
            Notice::DeviceAdded(serial),
        ),
        (DevicesState::FindingRemoved { identifier }, Event::Found(Some(device))) => turn
            == Turn::Act(
            DevicesState::Removing { identifier, serial: device.serial },
            Action::RemoveDevice(device.serial),
        ),
        (DevicesState::FindingRemoved { identifier }, Event::Found(None)) => turn == Turn::<
            DevicesState,
        >::Fail(Failure::Refused(Problem::NotFound(identifier))),
        (
            DevicesState::Removing { identifier, serial },
            Event::Removed { removed, default },
        ) => if !removed {
            turn == Turn::<DevicesState>::Fail(Failure::Refused(Problem::NotFound(identifier)))
        } else if is_default_serial(default, serial@) {
            turn == Turn::Act(DevicesState::Clearing { serial }, Action::ClearDefault)
        } else {
            turn == saved(Notice::DeviceRemoved(serial))
        },
        (DevicesState::Clearing { serial }, Event::Done) => turn == saved(
            Notice::DeviceRemoved(serial),
        ),
        (DevicesState::FindingDefault { .. }, Event::Found(Some(device))) => turn == Turn::Act(
            DevicesState::Setting { serial: device.serial },
            Action::SetDefault(device.serial),
        ),
        (DevicesState::FindingDefault { identifier }, Event::Found(None)) => turn == Turn::<
            DevicesState,
        >::Fail(Failure::Refused(Problem::NotFound(identifier))),
        (DevicesState::Setting { serial }, Event::Done) => turn == saved(
            Notice::DefaultSet(serial),
        ),
        (DevicesState::Saving { then_tell }, Event::Done) => turn == report(then_tell),
        (DevicesState::Reporting, Event::Done) => turn == Turn::<DevicesState>::Done,
        (_, event) => turn == Turn::<DevicesState>::Fail(failed_with(event)),
    }
}

/// Takes a command on the registered devices one event further.
pub fn run_devices_commands(state: DevicesState, event: Event) -> (res: Turn<DevicesState>)
    ensures
        devices_steps(state, event, res),
{
    match (state, event) {
        (DevicesState::Listing { json }, Event::Devices { devices, default }) => {
            let rows = rows_of(&devices, &default);
            if json {
                show_json(device_list_json(&rows))
            } else if devices.len() == 0 {
                Turn::Act(DevicesState::Reporting, Action::Tell(Notice::NoDevices))
            } else {
                Turn::Act(DevicesState::Reporting, Action::Tell(Notice::DeviceTable(rows)))
            }
        },
        (DevicesState::Finding { device_arg, json }, Event::Found(found)) => {
            match get_active_device(device_arg, found) {
                Ok(device) => {
                    if json {
                        Turn::Act(DevicesState::CheckingDefault(device), Action::GetDefault)
                    } else {
                        let notice = Notice::Credentials {
                            serial: device.serial,
                            password: device.credentials.password,
                        };
                        Turn::Act(DevicesState::Reporting, Action::Tell(notice))
                    }
                },
                Err(problem) => Turn::Fail(Failure::Refused(problem)),
            }
        },
        (DevicesState::CheckingDefault(device), Event::Default(default)) => {
            let document = device_json(
                device.serial.as_str(),
                device.credentials.password.as_str(),
                &device.credentials.nickname,
                is_default(&default, &device.serial),
            );
            show_json(document)
        },
        (DevicesState::Adding { serial }, Event::Done) => Turn::Act(
            DevicesState::Saving { then_tell: Notice::DeviceAdded(serial) },
            Action::SaveStore,
        ),
        (DevicesState::FindingRemoved { identifier }, Event::Found(found)) => match found {
            Some(device) => {
                let action = Action::RemoveDevice(device.serial.clone());
                Turn::Act(DevicesState::Removing { identifier, serial: device.serial }, action)
            },
            None => Turn::Fail(Failure::Refused(Problem::NotFound(identifier))),
        },
        (
            DevicesState::Removing { identifier, serial },
            Event::Removed { removed, default },
        ) => {
            if !removed {
                Turn::Fail(Failure::Refused(Problem::NotFound(identifier)))
            } else if is_default(&default, &serial) {
                Turn::Act(DevicesState::Clearing { serial }, Action::ClearDefault)
            } else {
                Turn::Act(
                    DevicesState::Saving { then_tell: Notice::DeviceRemoved(serial) },
                    Action::SaveStore,
                )
            }
        },
        (DevicesState::Clearing { serial }, Event::Done) => Turn::Act(
            DevicesState::Saving { then_tell: Notice::DeviceRemoved(serial) },
            Action::SaveStore,
        ),
        (DevicesState::FindingDefault { identifier }, Event::Found(found)) => match found {
            Some(device) => {
                let action = Action::SetDefault(device.serial.clone());
                Turn::Act(DevicesState::Setting { serial: device.serial }, action)
            },
            None => Turn::Fail(Failure::Refused(Problem::NotFound(identifier))),
        },
        (DevicesState::Setting { serial }, Event::Done) => Turn::Act(
            DevicesState::Saving { then_tell: Notice::DefaultSet(serial) },
            Action::SaveStore,
        ),
        (DevicesState::Saving { then_tell }, Event::Done) => Turn::Act(
            DevicesState::Reporting,
            Action::Tell(then_tell),
        ),
        (DevicesState::Reporting, Event::Done) => Turn::Done,
        (_, event) => Turn::Fail(failure_of(event)),
    }
}

} // verus!
