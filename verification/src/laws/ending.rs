//! Laws of how a run ends.

use crate::activity::{activity_steps, ActivityState};
use crate::command::{Cli, DeviceCommands};
use crate::devices::{devices_steps, DevicesState};
use crate::discover::{discover_steps, DiscoverState, Queue};
use crate::laws::runs::is_session_run;
use crate::notice::Notice;
use crate::pairing::PairState;
use crate::protocol::{refused_credentials, Action, Event, ErrorReport, Failure, Turn};
use crate::repair::RepairState;
use crate::session::{session_begun, session_steps, NetworkCommand, Session};
use crate::usb::UsbState;
use crate::wifi::{wifi_begun, wifi_steps, MusicQueue, WifiState};
use vstd::prelude::*;

verus! {

/// The steps that pairing takes at most from a state on.
pub open spec fn pair_steps_left(state: PairState) -> nat {
    match state {
        PairState::Announcing { .. } => 5,
        PairState::Requesting { .. } => 4,
        PairState::Storing { .. } => 3,
        PairState::Saving { .. } => 2,
        PairState::Reporting => 1,
    }
}

/// The steps that the devices still in the queue take at most.
pub open spec fn queue_steps_left(queue: Queue) -> nat {
    if queue.next < queue.found@.len() {
        (12 * (queue.found@.len() - queue.next)) as nat
    } else {
        0
    }
}

/// The steps that discovery takes at most from a state on, not counting those
/// for devices that are yet to be found.
pub open spec fn discover_steps_left(state: DiscoverState) -> nat {
    match state {
        DiscoverState::Announcing => 3,
        DiscoverState::Browsing => 2,
        DiscoverState::ReportingNone => 1,
        DiscoverState::Checking { queue, .. } => 12 + queue_steps_left(queue),
        DiscoverState::TellingKnown { queue } => 1 + queue_steps_left(queue),
        DiscoverState::TellingNew { queue, .. } => 11 + queue_steps_left(queue),
        DiscoverState::Asking { queue, .. } => 10 + queue_steps_left(queue),
        DiscoverState::Naming { queue, .. } => 9 + queue_steps_left(queue),
        DiscoverState::CheckingDefault { queue, .. } => 8 + queue_steps_left(queue),
        DiscoverState::SettingDefault { queue, .. } => 7 + queue_steps_left(queue),
        DiscoverState::TellingDefault { queue, .. } => 6 + queue_steps_left(queue),
        DiscoverState::Pairing { queue, pair } => pair_steps_left(pair) + queue_steps_left(queue),
    }
}

/// The steps that the music files still in the queue take at most.
pub open spec fn music_steps_left(queue: MusicQueue) -> nat {
    if queue.next < queue.files@.len() {
        (3 * (queue.files@.len() - queue.next)) as nat
    } else {
        0
    }
}

/// The steps that a command takes at most once its device is connected.
pub open spec fn command_steps(command: DeviceCommands) -> nat {
    match command {
        DeviceCommands::UploadMusic(files) => 3 * files@.len(),
        _ => 3,
    }
}

/// The steps that a command over Wi-Fi takes at most from a state on.
pub open spec fn wifi_steps_left(state: WifiState) -> nat {
    match state {
        WifiState::Finding { command, .. } => 2 + command_steps(command),
        WifiState::Connecting { command } => 1 + command_steps(command),
        WifiState::TellingDryRun(_) => 3,
        WifiState::Syncing { .. } => 2,
        WifiState::ReadingFile(_) => 3,
        WifiState::Uploading { .. } => 2,
        WifiState::ReadingMusic { queue, .. } => 3 + music_steps_left(queue),
        WifiState::UploadingMusic { queue, .. } => 2 + music_steps_left(queue),
        WifiState::TellingMusic { queue } => 1 + music_steps_left(queue),
        WifiState::Downloading(_) => 3,
        WifiState::Writing { .. } => 2,
        WifiState::ReadingDir => 2,
        WifiState::Removing { .. } => 2,
        WifiState::Executing => 2,
        WifiState::FetchingInfo { .. } => 2,
        WifiState::LookingUp { .. } => 7,
        WifiState::Naming { .. } => 6,
        WifiState::Pairing(pair) => pair_steps_left(pair),
        WifiState::Discovering(state) => discover_steps_left(state),
        WifiState::Reporting => 1,
    }
}

/// The steps that an activity command takes at most from a state on.
pub open spec fn activity_steps_left(state: ActivityState) -> nat {
    match state {
        ActivityState::Building => 1,
        ActivityState::Preparing { .. } => 8,
        ActivityState::Finding { .. } => 7,
        ActivityState::Connecting { .. } => 6,
        ActivityState::Staging { .. } => 5,
        ActivityState::Syncing { .. } => 4,
        ActivityState::TellingDeployed { .. } => 3,
        ActivityState::Starting { .. } => 2,
        ActivityState::Reporting => 1,
    }
}

/// The steps that repair takes at most from a state on.
pub open spec fn repair_steps_left(state: RepairState) -> nat {
    match state {
        RepairState::Telling { .. } => 8,
        RepairState::Asking { .. } => 7,
        RepairState::LookingUp { .. } => 6,
        RepairState::Pairing(pair) => pair_steps_left(pair),
    }
}

/// The steps that a command over USB takes at most from a state on.
pub open spec fn usb_steps_left(state: UsbState) -> nat {
    match state {
        UsbState::FindingPort(_) => 5,
        UsbState::TellingPort { .. } => 4,
        UsbState::Opening(_) => 3,
        UsbState::Executing => 2,
        UsbState::Sending => 2,
        UsbState::Reporting => 1,
    }
}

/// The steps that a command on the registered devices takes at most from a
/// state on.
pub open spec fn devices_steps_left(state: DevicesState) -> nat {
    match state {
        DevicesState::Listing { .. } => 2,
        DevicesState::Finding { .. } => 3,
        DevicesState::CheckingDefault(_) => 2,
        DevicesState::Adding { .. } => 3,
        DevicesState::FindingRemoved { .. } => 5,
        DevicesState::Removing { .. } => 4,
        DevicesState::Clearing { .. } => 3,
        DevicesState::FindingDefault { .. } => 4,
        DevicesState::Setting { .. } => 3,
        DevicesState::Saving { .. } => 2,
        DevicesState::Reporting => 1,
    }
}

/// The steps that a run takes at most from a state on, not counting those for
/// devices that are yet to be found.
pub open spec fn session_steps_left(session: Session) -> nat {
    match session {
        Session::FindingActive { device_arg, command } => match command {
            NetworkCommand::Wifi(command) => 9 + wifi_steps_left(
                wifi_begun(device_arg, command)->Act_0,
            ),
            NetworkCommand::Activity(_) => 17,
        },
        Session::Wifi { state, .. } => 8 + wifi_steps_left(state),
        Session::Activity { state, .. } => 8 + activity_steps_left(state),
        Session::Repairing(state) => repair_steps_left(state),
        Session::Usb(state) => usb_steps_left(state),
        Session::Devices(state) => devices_steps_left(state),
        Session::Generating(_) => 2,
        Session::Reporting => 1,
    }
}

/// The steps that a run takes at most from a turn on.
pub open spec fn turn_steps_left(turn: Turn<Session>) -> nat {
    match turn {
        Turn::Act(session, _) => session_steps_left(session),
        _ => 0,
    }
}

/// The devices that an event brings.
pub open spec fn devices_found(event: Event) -> nat {
    match event {
        Event::Discovered(found) => found@.len(),
        _ => 0,
    }
}

/// The devices that the first `n` events bring.
pub open spec fn devices_found_in(events: Seq<Event>, n: int) -> nat
    decreases n,
{
    if n <= 0 {
        0
    } else {
        devices_found_in(events, n - 1) + devices_found(events[n - 1])
    }
}

proof fn lemma_discover_progress(state: DiscoverState, event: Event, turn: Turn<DiscoverState>)
    requires
        discover_steps(state, event, turn),
    ensures
        1 + (match turn {
            Turn::Act(next, _) => discover_steps_left(next),
            _ => 0,
        }) <= discover_steps_left(state) + 12 * devices_found(event),
{
    assert forall|queue: Queue| (#[trigger] queue.found@).len() <= usize::MAX by {
        assert(queue.found.len() == queue.found@.len());
    }
}

proof fn lemma_wifi_progress(state: WifiState, event: Event, turn: Turn<WifiState>)
    requires
        wifi_steps(state, event, turn),
    ensures
        1 + (match turn {
            Turn::Act(next, _) => wifi_steps_left(next),
            _ => 0,
        }) <= wifi_steps_left(state) + 12 * devices_found(event),
{
    assert forall|queue: MusicQueue| (#[trigger] queue.files@).len() <= usize::MAX by {
        assert(queue.files.len() == queue.files@.len());
    }
    if let WifiState::Discovering(inner) = state {
        let found = choose|found: Turn<DiscoverState>| #[trigger]
            discover_steps(inner, event, found) && turn == crate::wifi::while_discovering(found);
        lemma_discover_progress(inner, event, found);
    }
}

proof fn lemma_progress(session: Session, event: Event, turn: Turn<Session>)
    requires
        session_steps(session, event, turn),
    ensures
        1 + turn_steps_left(turn) <= session_steps_left(session) + 12 * devices_found(event),
{
    match session {
        Session::Wifi { state, active } => {
            let step = choose|step: Turn<WifiState>| #[trigger]
                wifi_steps(state, event, step) && turn == crate::session::while_on_wifi(
                    active,
                    step,
                );
            lemma_wifi_progress(state, event, step);
        },
        Session::Activity { state, active } => {
            let step = choose|step: Turn<ActivityState>| #[trigger]
                activity_steps(state, event, step) && turn == crate::session::while_on_activity(
                    active,
                    step,
                );
            assert(activity_steps(state, event, step));
        },
        Session::Devices(state) => {
            let step = choose|step: Turn<DevicesState>| #[trigger]
                devices_steps(state, event, step) && turn == crate::session::while_on_devices(step);
            assert(devices_steps(state, event, step));
        },
        _ => {},
    }
}

proof fn lemma_bound(cli: Cli, events: Seq<Event>, turns: Seq<Turn<Session>>, i: int)
    requires
        is_session_run(session_begun(cli), events, turns),
        0 <= i < turns.len(),
    ensures
        i + turn_steps_left(turns[i]) <= turn_steps_left(session_begun(cli)) + 12
            * devices_found_in(events, i),
    decreases i,
{
    if i > 0 {
        lemma_bound(cli, events, turns, i - 1);
        let event = events[i - 1];
        assert(turns[i - 1] is Act && session_steps(turns[i - 1]->Act_0, event, turns[i]));
        lemma_progress(turns[i - 1]->Act_0, event, turns[i]);
    }
}

/// Every run ends: the command line settles how many actions a run takes at
/// most, but for twelve more per device that a search finds.
pub proof fn law_every_run_ends(cli: Cli, events: Seq<Event>, turns: Seq<Turn<Session>>)
    requires
        is_session_run(session_begun(cli), events, turns),
    ensures
        events.len() <= turn_steps_left(session_begun(cli)) + 12 * devices_found_in(
            events,
            events.len() as int,
        ),
{
    lemma_bound(cli, events, turns, turns.len() - 1);
}

/// The run fails with an error, as it is or put down to some problem.
pub open spec fn fails_with(failure: Failure, error: ErrorReport) -> bool {
    failure is Action && failure->error == error
}

proof fn lemma_wifi_stops(state: WifiState, error: ErrorReport, turn: Turn<WifiState>)
    requires
        wifi_steps(state, Event::Failed(error), turn),
    ensures
        turn is Fail,
        fails_with(turn->Fail_0, error),
{
    if let WifiState::Discovering(inner) = state {
        let event = Event::Failed(error);
        let found = choose|found: Turn<DiscoverState>| #[trigger]
            discover_steps(inner, event, found) && turn == crate::wifi::while_discovering(found);
        assert(discover_steps(inner, event, found));
    }
}

/// An action that fails is the last of its command: the run ends with that
/// error, unless the error is a device's refusal of the credentials during a
/// command that talks to one, which the user is then told of.
pub proof fn law_a_failed_action_ends_the_command(
    session: Session,
    error: ErrorReport,
    turn: Turn<Session>,
)
    requires
        session_steps(session, Event::Failed(error), turn),
    ensures
        match turn {
            Turn::Act(next, action) => {
                &&& session is Wifi || session is Activity
                &&& action == Action::Tell(Notice::Unauthorized)
                &&& next matches Session::Repairing(RepairState::Telling { failure, .. })
                &&& fails_with(failure, error)
                &&& refused_credentials(failure)
            },
            Turn::Done => false,
            Turn::Fail(failure) => fails_with(failure, error),
        },
{
    let event = Event::Failed(error);
    match session {
        Session::Wifi { state, active } => {
            let step = choose|step: Turn<WifiState>| #[trigger]
                wifi_steps(state, event, step) && turn == crate::session::while_on_wifi(
                    active,
                    step,
                );
            lemma_wifi_stops(state, error, step);
        },
        Session::Activity { state, active } => {
            let step = choose|step: Turn<ActivityState>| #[trigger]
                activity_steps(state, event, step) && turn == crate::session::while_on_activity(
                    active,
                    step,
                );
            assert(activity_steps(state, event, step));
        },
        Session::Devices(state) => {
            let step = choose|step: Turn<DevicesState>| #[trigger]
                devices_steps(state, event, step) && turn == crate::session::while_on_devices(step);
            assert(devices_steps(state, event, step));
        },
        _ => {},
    }
}

} // verus!
