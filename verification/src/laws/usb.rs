//! Laws of the commands over USB, from the command line on.

use crate::command::{Cli, Commands, UsbCommands};
use crate::laws::parts::follows;
use crate::laws::runs::{asks, is_session_run};
use crate::notice::Notice;
use crate::protocol::{Action, Event, Turn};
use crate::session::{session_begun, session_steps, Session};
use crate::usb::UsbState;
use vstd::prelude::*;

verus! {

/// The port that a command works on: the one of the command line, or else the
/// one that the search found.
pub open spec fn port_of(port: Option<String>, events: Seq<Event>) -> String {
    match port {
        Some(port) => port,
        None => events[0]->Port_0->Some_0,
    }
}

/// What is asked of the open port.
pub open spec fn asks_port(command: UsbCommands, action: Action) -> bool {
    match command {
        UsbCommands::ExecuteCommand { command } => action == Action::UsbRun(command),
        UsbCommands::SendWifi { ssid, password } => action == (Action::UsbSendWifi {
            ssid,
            passphrase: password,
        }),
    }
}

/// What the user is told in the end: the output of the command, or that the
/// credentials were sent.
pub open spec fn tells_result(command: UsbCommands, answer: Event, action: Action) -> bool {
    match command {
        UsbCommands::ExecuteCommand { .. } => {
            &&& answer matches Event::Output(output)
            &&& action == Action::Tell(Notice::Output(output))
        },
        UsbCommands::SendWifi { .. } => action == Action::Tell(Notice::WifiSent),
    }
}

/// State and action at turn `i`, where it asks for an action.
spec fn usb_at(
    port: Option<String>,
    command: UsbCommands,
    events: Seq<Event>,
    i: int,
    session: Session,
    action: Action,
) -> bool {
    let first: int = if port is None { 1 } else { 0 };
    let chosen = port_of(port, events);
    &&& session matches Session::Usb(state)
    &&& i >= first && port is None ==> events[0] is Port && events[0]->Port_0 is Some
    &&& if i < first {
        state == UsbState::FindingPort(command) && action == Action::FindPort
    } else if i == first {
        &&& state == (UsbState::TellingPort { port: chosen, command })
        &&& action == Action::Tell(Notice::UsingPort(chosen))
    } else if i == first + 1 {
        &&& state == UsbState::Opening(command)
        &&& action == Action::OpenPort(chosen)
    } else if i == first + 2 {
        &&& state == (if command is SendWifi { UsbState::Sending } else { UsbState::Executing })
        &&& asks_port(command, action)
    } else {
        &&& i == first + 3
        &&& state == UsbState::Reporting
        &&& tells_result(command, events[i - 1], action)
    }
}

proof fn lemma_usb_schedule(
    cli: Cli,
    port: Option<String>,
    command: UsbCommands,
    events: Seq<Event>,
    turns: Seq<Turn<Session>>,
    i: int,
)
    requires
        is_session_run(session_begun(cli), events, turns),
        cli.command == (Commands::Usb { port, command }),
        0 <= i < turns.len(),
    ensures
        match turns[i] {
            Turn::Act(session, action) => usb_at(port, command, events, i, session, action),
            Turn::Done => i == (if port is None { 5int } else { 4 }),
            Turn::Fail(_) => true,
        },
    decreases i,
{
    if i > 0 {
        lemma_usb_schedule(cli, port, command, events, turns, i - 1);
        let event = events[i - 1];
        assert(turns[i - 1] is Act && session_steps(turns[i - 1]->Act_0, event, turns[i]));
    }
}

/// A command over USB works on the port of the command line; only where there is
/// none is a port looked for, and then it works on the one that was found. It
/// announces the port, opens it, asks it what the command line says, be it the
/// command or the network's name and password, and tells the result.
pub proof fn law_usb(
    cli: Cli,
    port: Option<String>,
    command: UsbCommands,
    events: Seq<Event>,
    turns: Seq<Turn<Session>>,
)
    requires
        is_session_run(session_begun(cli), events, turns),
        cli.command == (Commands::Usb { port, command }),
    ensures
        ({
            let first: int = if port is None { 1 } else { 0 };
            let chosen = port_of(port, events);
            follows(
                turns,
                first + 4,
                |i: int, action: Action|
                    {
                        &&& i < first ==> action == Action::FindPort
                        &&& i >= first && port is None ==> events[0] is Port
                            && events[0]->Port_0 is Some
                        &&& i == first ==> action == Action::Tell(Notice::UsingPort(chosen))
                        &&& i == first + 1 ==> action == Action::OpenPort(chosen)
                        &&& i == first + 2 ==> asks_port(command, action)
                        &&& i == first + 3 ==> tells_result(command, events[i - 1], action)
                    },
            )
        }),
        forall|i: int|
            0 <= i < turns.len() && (#[trigger] turns[i]) is Act && turns[i]->Act_1 is OpenPort
                ==> turns[i]->Act_1->OpenPort_0 == port_of(port, events),
        port is Some ==> forall|i: int|
            0 <= i < turns.len() ==> !asks(#[trigger] turns[i], Action::FindPort),
{
    assert forall|i: int| 0 <= i < turns.len() implies match #[trigger] turns[i] {
        Turn::Act(session, action) => usb_at(port, command, events, i, session, action),
        Turn::Done => i == (if port is None { 5int } else { 4 }),
        Turn::Fail(_) => true,
    } by {
        lemma_usb_schedule(cli, port, command, events, turns, i);
    }
}

} // verus!
