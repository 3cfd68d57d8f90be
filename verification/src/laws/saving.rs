//! Laws of the store: which runs leave it alone, and that none ends well with a
//! change unsaved.

use crate::activity::{activity_begun, activity_steps, ActivityState};
use crate::command::{ActivityCommands, Cli, Commands, DeviceCommands, WifiCommands};
use crate::devices::{devices_steps, DevicesState};
use crate::discover::{discover_steps, DiscoverState};
use crate::laws::runs::{is_activity_run, is_session_run, is_wifi_run};
use crate::pairing::PairState;
use crate::protocol::{Action, Event, Turn};
use crate::repair::RepairState;
use crate::session::{session_begun, session_steps, NetworkCommand, Session};
use crate::wifi::{wifi_begun, wifi_steps, WifiState};
use vstd::prelude::*;

verus! {

/// An action that changes the store.
pub open spec fn is_change(action: Action) -> bool {
    match action {
        Action::SetDevice(_)
        | Action::RemoveDevice(_)
        | Action::SetDefault(_)
        | Action::ClearDefault => true,
        _ => false,
    }
}

/// After `n` events the store holds a change that has not been written.
pub open spec fn is_unsaved(events: Seq<Event>, turns: Seq<Turn<Session>>, n: int) -> bool
    decreases n,
{
    if n <= 0 {
        false
    } else if turns[n - 1] is Act && turns[n - 1]->Act_1 == Action::SaveStore && events[n - 1]
        == Event::Done {
        false
    } else if turns[n - 1] is Act && is_change(turns[n - 1]->Act_1) {
        true
    } else {
        is_unsaved(events, turns, n - 1)
    }
}

/// Pairing has yet to write the store.
spec fn pairing_will_save(state: PairState) -> bool {
    !(state is Reporting)
}

/// The states in which the store may hold a change that has not been written.
spec fn may_be_unsaved(session: Session) -> bool {
    match session {
        Session::Wifi { state: WifiState::Pairing(pair), .. } => pairing_will_save(pair),
        Session::Wifi { state: WifiState::Discovering(state), .. } => match state {
            DiscoverState::TellingDefault { .. } => true,
            DiscoverState::Pairing { pair, .. } => pairing_will_save(pair),
            _ => false,
        },
        Session::Repairing(state) => match state {
            RepairState::Pairing(pair) => pairing_will_save(pair),
            _ => true,
        },
        Session::Devices(state) => state is Clearing || state is Saving,
        _ => false,
    }
}

/// The states that come with a change of the store.
spec fn is_changing(session: Session) -> bool {
    match session {
        Session::Wifi { state: WifiState::Pairing(pair), .. } => pair is Storing,
        Session::Wifi { state: WifiState::Discovering(state), .. } => match state {
            DiscoverState::SettingDefault { .. } => true,
            DiscoverState::Pairing { pair, .. } => pair is Storing,
            _ => false,
        },
        Session::Repairing(RepairState::Pairing(pair)) => pair is Storing,
        Session::Devices(state) => state is Adding || state is Removing || state is Setting
            || state is Clearing,
        _ => false,
    }
}

/// The states that come with the writing of the store.
spec fn is_saving(session: Session) -> bool {
    match session {
        Session::Wifi { state: WifiState::Pairing(pair), .. } => pair is Saving,
        Session::Wifi {
            state: WifiState::Discovering(DiscoverState::Pairing { pair, .. }),
            ..
        } => pair is Saving,
        Session::Repairing(RepairState::Pairing(pair)) => pair is Saving,
        Session::Devices(state) => state is Saving,
        _ => false,
    }
}

/// What holds of a state and the action that comes with it.
spec fn saving_fits(session: Session, action: Action) -> bool {
    &&& is_change(action) ==> is_changing(session)
    &&& is_saving(session) ==> action == Action::SaveStore
}

/// One step: the fit of state and action is kept, and a change is not lost from
/// sight until the store is written.
proof fn lemma_saving_step(session: Session, action: Action, event: Event, turn: Turn<Session>)
    requires
        saving_fits(session, action),
        session_steps(session, event, turn),
    ensures
        turn is Act ==> saving_fits(turn->Act_0, turn->Act_1),
        may_be_unsaved(session) && !(action == Action::SaveStore && event == Event::Done) ==> match
            turn {
            Turn::Act(next, _) => may_be_unsaved(next),
            Turn::Done => false,
            Turn::Fail(_) => true,
        },
        is_change(action) ==> match turn {
            Turn::Act(next, _) => may_be_unsaved(next),
            Turn::Done => false,
            Turn::Fail(_) => true,
        },
{
    match session {
        Session::Wifi { state, active } => {
            let step = choose|step: Turn<WifiState>| #[trigger]
                wifi_steps(state, event, step) && turn == crate::session::while_on_wifi(
                    active,
                    step,
                );
            assert(wifi_steps(state, event, step));
            if let WifiState::Discovering(inner) = state {
                let found = choose|found: Turn<DiscoverState>| #[trigger]
                    discover_steps(inner, event, found) && step
                        == crate::wifi::while_discovering(found);
                assert(discover_steps(inner, event, found));
            }
        },
        Session::Activity { state, active } => {
            let step = choose|step: Turn<ActivityState>| #[trigger]
                activity_steps(state, event, step) && turn == crate::session::while_on_activity(
                    active,
                    step,
                );
            assert(activity_steps(state, event, step));
        },
        Session::Devices(state) => {
            let step = choose|step: Turn<DevicesState>| #[trigger]
                devices_steps(state, event, step) && turn == crate::session::while_on_devices(step);
            assert(devices_steps(state, event, step));
        },
        _ => {},
    }
}

proof fn lemma_saving(cli: Cli, events: Seq<Event>, turns: Seq<Turn<Session>>, i: int)
    requires
        is_session_run(session_begun(cli), events, turns),
        0 <= i < turns.len(),
    ensures
        turns[i] is Act ==> saving_fits(turns[i]->Act_0, turns[i]->Act_1),
        is_unsaved(events, turns, i) ==> match turns[i] {
            Turn::Act(session, _) => may_be_unsaved(session),
            Turn::Done => false,
            Turn::Fail(_) => true,
        },
    decreases i,
{
    if i > 0 {
        lemma_saving(cli, events, turns, i - 1);
        let event = events[i - 1];
        assert(turns[i - 1] is Act && session_steps(turns[i - 1]->Act_0, event, turns[i]));
        lemma_saving_step(turns[i - 1]->Act_0, turns[i - 1]->Act_1, event, turns[i]);
    }
}

/// A run that ends well leaves no change of the store unsaved: after the last
/// change the store has been written.
pub proof fn law_success_leaves_nothing_unsaved(
    cli: Cli,
    events: Seq<Event>,
    turns: Seq<Turn<Session>>,
)
    requires
        is_session_run(session_begun(cli), events, turns),
        turns.last() is Done,
    ensures
        !is_unsaved(events, turns, events.len() as int),
{
    lemma_saving(cli, events, turns, turns.len() - 1);
}

/// An action that neither changes the store nor writes it.
pub open spec fn leaves_store(action: Action) -> bool {
    !is_change(action) && action != Action::SaveStore
}

/// The states of a command over Wi-Fi that works on the active device.
spec fn is_on_device(state: WifiState) -> bool {
    match state {
        WifiState::LookingUp { .. }
        | WifiState::Naming { .. }
        | WifiState::Pairing(_)
        | WifiState::Discovering(_) => false,
        _ => true,
    }
}

proof fn lemma_wifi_leaves_store(state: WifiState, event: Event, turn: Turn<WifiState>)
    requires
        is_on_device(state),
        wifi_steps(state, event, turn),
    ensures
        turn matches Turn::Act(next, action) ==> is_on_device(next) && leaves_store(action),
{
}

proof fn lemma_activity_leaves_store(
    state: ActivityState,
    event: Event,
    turn: Turn<ActivityState>,
)
    requires
        activity_steps(state, event, turn),
    ensures
        turn matches Turn::Act(_, action) ==> leaves_store(action),
{
}

proof fn lemma_wifi_turn_leaves_store(
    device_arg: Option<String>,
    command: DeviceCommands,
    events: Seq<Event>,
    turns: Seq<Turn<WifiState>>,
    i: int,
)
    requires
        is_wifi_run(wifi_begun(device_arg, WifiCommands::OnDevice(command)), events, turns),
        0 <= i < turns.len(),
    ensures
        turns[i] matches Turn::Act(state, action) ==> is_on_device(state) && leaves_store(action),
    decreases i,
{
    if i > 0 {
        lemma_wifi_turn_leaves_store(device_arg, command, events, turns, i - 1);
        let event = events[i - 1];
        assert(turns[i - 1] is Act && wifi_steps(turns[i - 1]->Act_0, event, turns[i]));
        lemma_wifi_leaves_store(turns[i - 1]->Act_0, event, turns[i]);
    }
}

/// A command on the active device leaves the store alone: whatever its outcome,
/// it neither changes the store nor writes it.
pub proof fn law_device_commands_leave_the_store_alone(
    device_arg: Option<String>,
    command: DeviceCommands,
    events: Seq<Event>,
    turns: Seq<Turn<WifiState>>,
    i: int,
)
    requires
        is_wifi_run(wifi_begun(device_arg, WifiCommands::OnDevice(command)), events, turns),
        0 <= i < turns.len(),
        turns[i] is Act,
    ensures
        leaves_store(turns[i]->Act_1),
{
    lemma_wifi_turn_leaves_store(device_arg, command, events, turns, i);
}

/// An activity command leaves the store alone: whatever its outcome, it neither
/// changes the store nor writes it.
pub proof fn law_activity_commands_leave_the_store_alone(
    device_arg: Option<String>,
    command: ActivityCommands,
    events: Seq<Event>,
    turns: Seq<Turn<ActivityState>>,
    i: int,
)
    requires
        is_activity_run(activity_begun(device_arg, command), events, turns),
        0 <= i < turns.len(),
        turns[i] is Act,
    ensures
        leaves_store(turns[i]->Act_1),
{
    if i > 0 {
        let event = events[i - 1];
        assert(turns[i - 1] is Act && activity_steps(turns[i - 1]->Act_0, event, turns[i]));
        lemma_activity_leaves_store(turns[i - 1]->Act_0, event, turns[i]);
    }
}

/// A command line for a command on the active device, or for an activity
/// command.
pub open spec fn is_for_active_device(cli: Cli) -> bool {
    match cli.command {
        Commands::Wifi(command) => command is OnDevice,
        Commands::Activity(_) => true,
        _ => false,
    }
}

/// The states of a run for the active device.
spec fn is_run_for_active_device(session: Session) -> bool {
    match session {
        Session::FindingActive { command, .. } => match command {
            NetworkCommand::Wifi(command) => command is OnDevice,
            NetworkCommand::Activity(_) => true,
        },
        Session::Wifi { state, .. } => is_on_device(state),
        Session::Activity { .. } | Session::Repairing(_) => true,
        _ => false,
    }
}

proof fn lemma_run_leaves_store(session: Session, event: Event, turn: Turn<Session>)
    requires
        is_run_for_active_device(session),
        session_steps(session, event, turn),
    ensures
        turn matches Turn::Act(next, action) ==> is_run_for_active_device(next) && (next
            is Repairing || leaves_store(action)),
{
    match session {
        Session::Wifi { state, active } => {
            let step = choose|step: Turn<WifiState>| #[trigger]
                wifi_steps(state, event, step) && turn == crate::session::while_on_wifi(
                    active,
                    step,
                );
            lemma_wifi_leaves_store(state, event, step);
        },
        Session::Activity { state, active } => {
            let step = choose|step: Turn<ActivityState>| #[trigger]
                activity_steps(state, event, step) && turn == crate::session::while_on_activity(
                    active,
                    step,
                );
            lemma_activity_leaves_store(state, event, step);
        },
        _ => {},
    }
}

proof fn lemma_only_repair_changes(
    cli: Cli,
    events: Seq<Event>,
    turns: Seq<Turn<Session>>,
    i: int,
)
    requires
        is_session_run(session_begun(cli), events, turns),
        is_for_active_device(cli),
        0 <= i < turns.len(),
    ensures
        turns[i] matches Turn::Act(session, action) ==> is_run_for_active_device(session) && (
        session is Repairing || leaves_store(action)),
    decreases i,
{
    if i > 0 {
        lemma_only_repair_changes(cli, events, turns, i - 1);
        let event = events[i - 1];
        assert(turns[i - 1] is Act && session_steps(turns[i - 1]->Act_0, event, turns[i]));
        lemma_run_leaves_store(turns[i - 1]->Act_0, event, turns[i]);
    }
}

/// A run for a command on the active device, or for an activity command, changes
/// or writes the store in no other place than repair.
pub proof fn law_only_repair_changes_the_store(
    cli: Cli,
    events: Seq<Event>,
    turns: Seq<Turn<Session>>,
    i: int,
)
    requires
        is_session_run(session_begun(cli), events, turns),
        is_for_active_device(cli),
        0 <= i < turns.len(),
        turns[i] is Act,
        !leaves_store(turns[i]->Act_1),
    ensures
        turns[i]->Act_0 is Repairing,
{
    lemma_only_repair_changes(cli, events, turns, i);
}

} // verus!
