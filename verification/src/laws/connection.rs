//! The law of connections: what is asked of a device, and of which.

use crate::activity::{activity_steps, ActivityState};
use crate::command::Cli;
use crate::device::lookup_for;
use crate::laws::runs::{asks, is_session_run};
use crate::protocol::{Action, Event, Turn};
use crate::session::{session_begun, session_steps, Session};
use crate::wifi::{wifi_steps, WifiState};
use vstd::prelude::*;

verus! {

/// An action that asks something of the connected device.
pub open spec fn is_request(action: Action) -> bool {
    match action {
        Action::SyncDir { .. }
        | Action::Upload { .. }
        | Action::Download(_)
        | Action::ReadDir(_)
        | Action::RemoveFile(_)
        | Action::RemoveDir(_)
        | Action::RemoveDirAll(_)
        | Action::RunCommand(_)
        | Action::GetInfo
        | Action::StartActivity(_) => true,
        _ => false,
    }
}

/// At turn `j` a connection is asked for to the device that the lookup just
/// before has found, with the password that the store has for it.
pub open spec fn connects_at(
    cli: Cli,
    events: Seq<Event>,
    turns: Seq<Turn<Session>>,
    j: int,
) -> bool {
    &&& 0 < j
    &&& asks(turns[j - 1], lookup_for(cli.device))
    &&& events[j - 1] matches Event::Found(Some(device))
    &&& asks(
        turns[j],
        Action::Connect { serial: device.serial, password: device.credentials.password },
    )
}

/// Before turn `i` the connection to the device asked for was opened.
pub open spec fn connected_before(
    cli: Cli,
    events: Seq<Event>,
    turns: Seq<Turn<Session>>,
    i: int,
) -> bool {
    exists|j: int|
        #![trigger turns[j]]
        0 < j < i && connects_at(cli, events, turns, j) && events[j] == Event::Done
}

/// The states in which the device is connected.
spec fn is_connected(session: Session) -> bool {
    match session {
        Session::Wifi { state, .. } => match state {
            WifiState::TellingDryRun(_)
            | WifiState::Syncing { .. }
            | WifiState::ReadingFile(_)
            | WifiState::Uploading { .. }
            | WifiState::ReadingMusic { .. }
            | WifiState::UploadingMusic { .. }
            | WifiState::TellingMusic { .. }
            | WifiState::Downloading(_)
            | WifiState::Writing { .. }
            | WifiState::ReadingDir
            | WifiState::Removing { .. }
            | WifiState::Executing
            | WifiState::FetchingInfo { .. } => true,
            _ => false,
        },
        Session::Activity { state, .. } => match state {
            ActivityState::Staging { .. }
            | ActivityState::Syncing { .. }
            | ActivityState::TellingDeployed { .. }
            | ActivityState::Starting { .. } => true,
            _ => false,
        },
        _ => false,
    }
}

/// What holds of turn `i` of a run, where it asks for an action.
spec fn connection_at(
    cli: Cli,
    events: Seq<Event>,
    turns: Seq<Turn<Session>>,
    i: int,
) -> bool {
    let session = turns[i]->Act_0;
    let action = turns[i]->Act_1;
    &&& is_request(action) ==> is_connected(session)
    &&& is_connected(session) ==> connected_before(cli, events, turns, i)
    &&& match session {
        Session::FindingActive { device_arg, .. } => device_arg == cli.device,
        Session::Wifi { state: WifiState::Finding { device_arg, .. }, .. } => {
            &&& device_arg == cli.device
            &&& action == lookup_for(cli.device)
        },
        Session::Wifi { state: WifiState::Connecting { .. }, .. } => connects_at(
            cli,
            events,
            turns,
            i,
        ),
        Session::Activity { state: ActivityState::Preparing { device_arg, .. }, .. } => device_arg
            == cli.device,
        Session::Activity { state: ActivityState::Finding { device_arg, .. }, .. } => {
            &&& device_arg == cli.device
            &&& action == lookup_for(cli.device)
        },
        Session::Activity { state: ActivityState::Connecting { .. }, .. } => connects_at(
            cli,
            events,
            turns,
            i,
        ),
        _ => true,
    }
}

proof fn lemma_connection(cli: Cli, events: Seq<Event>, turns: Seq<Turn<Session>>, i: int)
    requires
        is_session_run(session_begun(cli), events, turns),
        0 <= i < turns.len(),
    ensures
        turns[i] is Act ==> connection_at(cli, events, turns, i),
    decreases i,
{
    if i > 0 {
        lemma_connection(cli, events, turns, i - 1);
        let event = events[i - 1];
        let session = turns[i - 1]->Act_0;
        assert(turns[i - 1] is Act && session_steps(session, event, turns[i]));
        if is_connected(session) {
            let j = choose|j: int|
                #![trigger turns[j]]
                0 < j < i - 1 && connects_at(cli, events, turns, j) && events[j] == Event::Done;
            assert(turns[j] is Act);
            assert(connected_before(cli, events, turns, i));
        }
        if turns[i] is Act {
            match session {
                Session::Wifi { state, active } => {
                    let step = choose|step: Turn<WifiState>| #[trigger]
                        wifi_steps(state, event, step) && turns[i]
                            == crate::session::while_on_wifi(active, step);
                    assert(wifi_steps(state, event, step));
                    assert(connection_at(cli, events, turns, i));
                },
                Session::Activity { state, active } => {
                    let step = choose|step: Turn<ActivityState>| #[trigger]
                        activity_steps(state, event, step) && turns[i]
                            == crate::session::while_on_activity(active, step);
                    assert(activity_steps(state, event, step));
                    assert(connection_at(cli, events, turns, i));
                },
                _ => {
                    assert(connection_at(cli, events, turns, i));
                },
            }
        }
    }
}

/// Nothing is asked of a device before the connection to it is open, and the
/// connection is always to the device that the command line asks for, or to the
/// default where it asks for none, with the password that the store has.
pub proof fn law_requests_go_to_the_device_asked_for(
    cli: Cli,
    events: Seq<Event>,
    turns: Seq<Turn<Session>>,
    i: int,
)
    requires
        is_session_run(session_begun(cli), events, turns),
        0 <= i < turns.len(),
        turns[i] is Act,
        is_request(turns[i]->Act_1),
    ensures
        connected_before(cli, events, turns, i),
{
    lemma_connection(cli, events, turns, i);
}

} // verus!
