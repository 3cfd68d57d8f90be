//! A run of the tool, from the command line to its outcome.

use crate::activity::{
    activity_begun, activity_steps, begin_activity_commands, run_activity_commands, ActivityState,
};
use crate::command::{ActivityCommands, Cli, Commands, ShellKind, WifiCommands};
use crate::device::{lookup, lookup_for};
use crate::devices::{
    begin_devices_commands, devices_begun, devices_steps, run_devices_commands, DevicesState,
};
use crate::notice::Notice;
use crate::protocol::{failed_with, failure_of, Action, Device, Event, Turn};
use crate::repair::{
    begin_repair, repair_begun, repair_turn, try_repair_on_unauthorized, RepairState,
};
use crate::usb::{begin_usb_commands, run_usb_commands, usb_begun, usb_turn, UsbState};
use crate::wifi::{begin_wifi_commands, run_wifi_commands, wifi_begun, wifi_steps, WifiState};
use vstd::prelude::*;

verus! {

/// A command that talks to a device, and whose failure may be repaired.
pub enum NetworkCommand {
    Wifi(WifiCommands),
    Activity(ActivityCommands),
}

/// Where a run stands.
#[allow(inconsistent_fields)]
pub enum Session {
    /// The active device is being looked up, for the case of repair.
    FindingActive { device_arg: Option<String>, command: NetworkCommand },
    Wifi { state: WifiState, active: Option<String> },
    Activity { state: ActivityState, active: Option<String> },
    Repairing(RepairState),
    Usb(UsbState),
    Devices(DevicesState),
    /// The completion script is being written.
    Generating(ShellKind),
    /// The user is being told of the result.
    Reporting,
}

/// The serial number of the device that was found, if any.
pub open spec fn found_serial(found: Option<Device>) -> Option<String> {
    match found {
        Some(device) => Some(device.serial),
        None => None,
    }
}

/// The turn of the run that a turn of repair stands for.
pub open spec fn while_repairing(turn: Turn<RepairState>) -> Turn<Session> {
    match turn {
        Turn::Act(state, action) => Turn::Act(Session::Repairing(state), action),
        Turn::Done => Turn::Done,
        Turn::Fail(failure) => Turn::Fail(failure),
    }
}

/// Takes a turn of repair for one of the run.
fn from_repair(turn: Turn<RepairState>) -> (res: Turn<Session>)
    ensures
        res == while_repairing(turn),
{
    match turn {
        Turn::Act(state, action) => Turn::Act(Session::Repairing(state), action),
        Turn::Done => Turn::Done,
        Turn::Fail(failure) => Turn::Fail(failure),
    }
}

/// The turn of the run that a turn over Wi-Fi stands for: a failure goes to
/// repair.
pub open spec fn while_on_wifi(active: Option<String>, turn: Turn<WifiState>) -> Turn<Session> {
    match turn {
        Turn::Act(state, action) => Turn::Act(Session::Wifi { state, active }, action),
        Turn::Done => Turn::Done,
        Turn::Fail(failure) => while_repairing(repair_begun(failure, active)),
    }
}

/// Takes a turn over Wi-Fi for one of the run.
fn from_wifi(active: Option<String>, turn: Turn<WifiState>) -> (res: Turn<Session>)
    ensures
        res == while_on_wifi(active, turn),
{
    match turn {
        Turn::Act(state, action) => Turn::Act(Session::Wifi { state, active }, action),
        Turn::Done => Turn::Done,
        Turn::Fail(failure) => from_repair(begin_repair(failure, active)),
    }
}

/// The turn of the run that a turn of an activity command stands for: a failure
/// goes to repair.
pub open spec fn while_on_activity(active: Option<String>, turn: Turn<ActivityState>) -> Turn<
    Session,
> {
    match turn {
        Turn::Act(state, action) => Turn::Act(Session::Activity { state, active }, action),
        Turn::Done => Turn::Done,
        Turn::Fail(failure) => while_repairing(repair_begun(failure, active)),
    }
}

/// Takes a turn of an activity command for one of the run.
fn from_activity(active: Option<String>, turn: Turn<ActivityState>) -> (res: Turn<Session>)
    ensures
        res == while_on_activity(active, turn),
{
    match turn {
        Turn::Act(state, action) => Turn::Act(Session::Activity { state, active }, action),
        Turn::Done => Turn::Done,
        Turn::Fail(failure) => from_repair(begin_repair(failure, active)),
    }
}

/// The turn of the run that a turn over USB stands for.
pub open spec fn while_on_usb(turn: Turn<UsbState>) -> Turn<Session> {
    match turn {
        Turn::Act(state, action) => Turn::Act(Session::Usb(state), action),
        Turn::Done => Turn::Done,
        Turn::Fail(failure) => Turn::Fail(failure),
    }
}

/// Takes a turn over USB for one of the run.
fn from_usb(turn: Turn<UsbState>) -> (res: Turn<Session>)
    ensures
        res == while_on_usb(turn),
{
    match turn {
        Turn::Act(state, action) => Turn::Act(Session::Usb(state), action),
        Turn::Done => Turn::Done,
        Turn::Fail(failure) => Turn::Fail(failure),
    }
}

/// The turn of the run that a turn on the registered devices stands for.
pub open spec fn while_on_devices(turn: Turn<DevicesState>) -> Turn<Session> {
    match turn {
        Turn::Act(state, action) => Turn::Act(Session::Devices(state), action),
        Turn::Done => Turn::Done,
        Turn::Fail(failure) => Turn::Fail(failure),
    }
}

/// Takes a turn on the registered devices for one of the run.
fn from_devices(turn: Turn<DevicesState>) -> (res: Turn<Session>)
    ensures
        res == while_on_devices(turn),
{
    match turn {
        Turn::Act(state, action) => Turn::Act(Session::Devices(state), action),
        Turn::Done => Turn::Done,
        Turn::Fail(failure) => Turn::Fail(failure),
    }
}

/// The first turn of a run.
pub open spec fn session_begun(cli: Cli) -> Turn<Session> {
    match cli.command {
        Commands::Wifi(command) => Turn::Act(
            Session::FindingActive {
                device_arg: cli.device,
                command: NetworkCommand::Wifi(command),
            },
            lookup_for(cli.device),
        ),
        Commands::Activity(command) => Turn::Act(
            Session::FindingActive {
                device_arg: cli.device,
                command: NetworkCommand::Activity(command),
            },
            lookup_for(cli.device),
        ),
        Commands::Usb { port, command } => while_on_usb(usb_begun(port, command)),
        Commands::Devices(command) => while_on_devices(devices_begun(cli.device, command)),
        Commands::Version { version } => Turn::Act(
            Session::Reporting,
            Action::Tell(Notice::Text(version)),
        ),
        Commands::Completions(shell) => Turn::Act(
            Session::Generating(shell),
            Action::GenerateCompletions(shell),
        ),
    }
}

/// What follows an event during a run.
pub open spec fn session_steps(session: Session, event: Event, turn: Turn<Session>) -> bool {
    match (session, event) {
        (
            Session::FindingActive { device_arg, command: NetworkCommand::Wifi(command) },
            Event::Found(found),
        ) => turn == while_on_wifi(found_serial(found), wifi_begun(device_arg, command)),
        (
            Session::FindingActive { device_arg, command: NetworkCommand::Activity(command) },
            Event::Found(found),
        ) => turn == while_on_activity(found_serial(found), activity_begun(device_arg, command)),
        (Session::Wifi { state, active }, event) => exists|step: Turn<WifiState>| #[trigger]
            wifi_steps(state, event, step) && turn == while_on_wifi(active, step),
        (Session::Activity { state, active }, event) => exists|step: Turn<ActivityState>|
         #[trigger]
            activity_steps(state, event, step) && turn == while_on_activity(active, step),
        (Session::Repairing(state), event) => turn == while_repairing(repair_turn(state, event)),
        (Session::Usb(state), event) => turn == while_on_usb(usb_turn(state, event)),
        (Session::Devices(state), event) => exists|step: Turn<DevicesState>| #[trigger]
            devices_steps(state, event, step) && turn == while_on_devices(step),
        (Session::Generating(shell), Event::Done) => turn == Turn::Act(
            Session::Reporting,
            Action::Tell(Notice::InstallHint(shell)),
        ),
        (Session::Reporting, Event::Done) => turn == Turn::<Session>::Done,
        (_, event) => turn == Turn::<Session>::Fail(failed_with(event)),
    }
}

impl Session {
    /// Begins a run.
    pub fn begin(cli: Cli) -> (res: Turn<Session>)
        ensures
            res == session_begun(cli),
    {
        let device_arg = cli.device;
        match cli.command {
            Commands::Wifi(command) => {
                let action = lookup(&device_arg);
                let command = NetworkCommand::Wifi(command);
                Turn::Act(Session::FindingActive { device_arg, command }, action)
            },
            Commands::Activity(command) => {
                let action = lookup(&device_arg);
                let command = NetworkCommand::Activity(command);
                Turn::Act(Session::FindingActive { device_arg, command }, action)
            },
            Commands::Usb { port, command } => from_usb(begin_usb_commands(port, command)),
            Commands::Devices(command) => from_devices(
                begin_devices_commands(device_arg, command),
            ),
            Commands::Version { version } => Turn::Act(
                Session::Reporting,
                Action::Tell(Notice::Text(version)),
            ),
            Commands::Completions(shell) => Turn::Act(
                Session::Generating(shell),
                Action::GenerateCompletions(shell),
            ),
        }
    }

    /// Takes a run one event further.
    pub fn advance(self, event: Event) -> (res: Turn<Session>)
        ensures
            session_steps(self, event, res),
    {
        match (self, event) {
            (Session::FindingActive { device_arg, command }, Event::Found(found)) => {
                let active = match found {
                    Some(device) => Some(device.serial),
                    None => None,
                };
                match command {
                    NetworkCommand::Wifi(command) => from_wifi(
                        active,
                        begin_wifi_commands(device_arg, command),
                    ),
                    NetworkCommand::Activity(command) => from_activity(
                        active,
                        begin_activity_commands(device_arg, command),
                    ),
                }
            },
            (Session::Wifi { state, active }, event) => from_wifi(
                active,
                run_wifi_commands(state, event),
            ),
            (Session::Activity { state, active }, event) => from_activity(
                active,
                run_activity_commands(state, event),
            ),
            (Session::Repairing(state), event) => from_repair(
                try_repair_on_unauthorized(state, event),
            ),
            (Session::Usb(state), event) => from_usb(run_usb_commands(state, event)),
            (Session::Devices(state), event) => from_devices(run_devices_commands(state, event)),
            (Session::Generating(shell), Event::Done) => Turn::Act(
                Session::Reporting,
                Action::Tell(Notice::InstallHint(shell)),
            ),
            (Session::Reporting, Event::Done) => Turn::Done,
            (_, event) => Turn::Fail(failure_of(event)),
        }
    }
}

} // verus!
