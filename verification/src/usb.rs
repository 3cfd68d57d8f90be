//! The commands over USB serial.

use crate::command::UsbCommands;
use crate::notice::{Notice, Problem};
use crate::protocol::{
    failed_by, failed_with, failure_by, failure_of, Action, Event, Failure, Turn,
};
use vstd::prelude::*;

verus! {

/// Where a command over USB stands.
pub enum UsbState {
    /// A device is being looked for.
    FindingPort(UsbCommands),
    /// The user is being told of the port.
    TellingPort { port: String, command: UsbCommands },
    /// The port is being opened.
    Opening(UsbCommands),
    /// The command is being run.
    Executing,
    /// Wi-Fi credentials are being sent.
    Sending,
    /// The user is being told of the result.
    Reporting,
}

/// The turn that announces a port.
pub open spec fn port_chosen(port: String, command: UsbCommands) -> Turn<UsbState> {
    Turn::Act(UsbState::TellingPort { port, command }, Action::Tell(Notice::UsingPort(port)))
}

/// Announces a port.
fn choose_port(port: String, command: UsbCommands) -> (res: Turn<UsbState>)
    ensures
        res == port_chosen(port, command),
{
    let notice = Notice::UsingPort(port.clone());
    Turn::Act(UsbState::TellingPort { port, command }, Action::Tell(notice))
}

/// The first turn of a command over USB: without a port one is looked for.
pub open spec fn usb_begun(port: Option<String>, command: UsbCommands) -> Turn<UsbState> {
    match port {
        Some(port) => port_chosen(port, command),
        None => Turn::Act(UsbState::FindingPort(command), Action::FindPort),
    }
}

/// Begins a command over USB.
pub fn begin_usb_commands(port: Option<String>, command: UsbCommands) -> (res: Turn<UsbState>)
    ensures
        res == usb_begun(port, command),
{
    match port {
        Some(port) => choose_port(port, command),
        None => Turn::Act(UsbState::FindingPort(command), Action::FindPort),
    }
}

/// The turn that follows an event during a command over USB.
pub open spec fn usb_turn(state: UsbState, event: Event) -> Turn<UsbState> {
    match (state, event) {
        (UsbState::FindingPort(command), Event::Port(Some(port))) => port_chosen(port, command),
        (UsbState::FindingPort(_), Event::Port(None)) => Turn::Fail(
            Failure::Refused(Problem::NoUsbDevice),
        ),
        (UsbState::FindingPort(_), event) => Turn::Fail(
            failed_by(Problem::EnumerateFailed, event),
        ),
        (UsbState::TellingPort { port, command }, Event::Done) => Turn::Act(
            UsbState::Opening(command),
            Action::OpenPort(port),
        ),
        (UsbState::Opening(UsbCommands::ExecuteCommand { command }), Event::Done) => Turn::Act(
            UsbState::Executing,
            Action::UsbRun(command),
        ),
        (UsbState::Opening(UsbCommands::SendWifi { ssid, password }), Event::Done) => Turn::Act(
            UsbState::Sending,
            Action::UsbSendWifi { ssid, passphrase: password },
        ),
        (UsbState::Executing, Event::Output(output)) => Turn::Act(
            UsbState::Reporting,
            Action::Tell(Notice::Output(output)),
        ),
        (UsbState::Sending, Event::Done) => Turn::Act(
            UsbState::Reporting,
            Action::Tell(Notice::WifiSent),
        ),
        (UsbState::Reporting, Event::Done) => Turn::Done,
        (_, event) => Turn::Fail(failed_with(event)),
    }
}

/// Takes a command over USB one event further.
pub fn run_usb_commands(state: UsbState, event: Event) -> (res: Turn<UsbState>)
    ensures
        res == usb_turn(state, event),
{
    match (state, event) {
        (UsbState::FindingPort(command), Event::Port(found)) => match found {
            Some(port) => choose_port(port, command),
            None => Turn::Fail(Failure::Refused(Problem::NoUsbDevice)),
        },
        (UsbState::FindingPort(_), event) => Turn::Fail(
            failure_by(Problem::EnumerateFailed, event),
        ),
        (UsbState::TellingPort { port, command }, Event::Done) => Turn::Act(
            UsbState::Opening(command),
            Action::OpenPort(port),
        ),
        (UsbState::Opening(command), Event::Done) => match command {
            UsbCommands::ExecuteCommand { command } => Turn::Act(
                UsbState::Executing,
                Action::UsbRun(command),
            ),
            UsbCommands::SendWifi { ssid, password } => Turn::Act(
                UsbState::Sending,
                Action::UsbSendWifi { ssid, passphrase: password },
            ),
        },
        (UsbState::Executing, Event::Output(output)) => Turn::Act(
            UsbState::Reporting,
            Action::Tell(Notice::Output(output)),
        ),
        (UsbState::Sending, Event::Done) => Turn::Act(
            UsbState::Reporting,
            Action::Tell(Notice::WifiSent),
        ),
        (UsbState::Reporting, Event::Done) => Turn::Done,
        (_, event) => Turn::Fail(failure_of(event)),
    }
}

} // verus!
