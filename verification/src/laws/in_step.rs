//! The law of the exchange: a run whose actions end as they should never gets
//! out of step.

use crate::activity::{activity_steps, ActivityState};
use crate::command::Cli;
use crate::devices::{devices_steps, DevicesState};
use crate::discover::{discover_steps, DiscoverState};
use crate::laws::runs::is_session_run;
use crate::pairing::PairState;
use crate::protocol::{Action, Event, Failure, Turn};
use crate::repair::RepairState;
use crate::session::{session_begun, session_steps, Session};
use crate::usb::UsbState;
use crate::wifi::{wifi_steps, WifiState};
use vstd::prelude::*;

verus! {

/// The kinds of events.
pub ghost enum Reply {
    Done,
    Failed,
    Found,
    Credentials,
    Removed,
    Default,
    Devices,
    Line,
    Bytes,
    Entries,
    Output,
    Info,
    Discovered,
    Password,
    Port,
    Package,
    Staged,
}

/// The kind of an event.
pub open spec fn kind_of(event: Event) -> Reply {
    match event {
        Event::Done => Reply::Done,
        Event::Failed(_) => Reply::Failed,
        Event::Found(_) => Reply::Found,
        Event::Credentials(_) => Reply::Credentials,
        Event::Removed { .. } => Reply::Removed,
        Event::Default(_) => Reply::Default,
        Event::Devices { .. } => Reply::Devices,
        Event::Line(_) => Reply::Line,
        Event::Bytes(_) => Reply::Bytes,
        Event::Entries(_) => Reply::Entries,
        Event::Output(_) => Reply::Output,
        Event::Info(_) => Reply::Info,
        Event::Discovered(_) => Reply::Discovered,
        Event::Password(_) => Reply::Password,
        Event::Port(_) => Reply::Port,
        Event::Package(_) => Reply::Package,
        Event::Staged(_) => Reply::Staged,
    }
}

/// The kind of event that an action ends in where it succeeds.
pub open spec fn reply_to(action: Action) -> Reply {
    match action {
        Action::Resolve(_) | Action::FindDefault => Reply::Found,
        Action::GetDevice(_) => Reply::Credentials,
        Action::RemoveDevice(_) => Reply::Removed,
        Action::GetDefault => Reply::Default,
        Action::ListDevices => Reply::Devices,
        Action::Ask(_) => Reply::Line,
        Action::Download(_) | Action::ReadFile(_) | Action::ReadMusic(_) => Reply::Bytes,
        Action::ReadDir(_) => Reply::Entries,
        Action::RunCommand(_) | Action::UsbRun(_) => Reply::Output,
        Action::GetInfo => Reply::Info,
        Action::Browse => Reply::Discovered,
        Action::PairDevice(_) => Reply::Password,
        Action::FindPort => Reply::Port,
        Action::Build { .. } | Action::PackageName => Reply::Package,
        Action::Stage(_) => Reply::Staged,
        _ => Reply::Done,
    }
}

/// An event that an action may end in.
pub open spec fn answers(action: Action, event: Event) -> bool {
    event is Failed || kind_of(event) == reply_to(action)
}

spec fn pair_awaits(state: PairState) -> Reply {
    match state {
        PairState::Requesting { .. } => Reply::Password,
        _ => Reply::Done,
    }
}

spec fn discover_awaits(state: DiscoverState) -> Reply {
    match state {
        DiscoverState::Browsing => Reply::Discovered,
        DiscoverState::Checking { .. } => Reply::Credentials,
        DiscoverState::Asking { .. } | DiscoverState::Naming { .. } => Reply::Line,
        DiscoverState::CheckingDefault { .. } => Reply::Default,
        DiscoverState::Pairing { pair, .. } => pair_awaits(pair),
        _ => Reply::Done,
    }
}

spec fn wifi_awaits(state: WifiState) -> Reply {
    match state {
        WifiState::Finding { .. } => Reply::Found,
        WifiState::ReadingFile(_)
        | WifiState::ReadingMusic { .. }
        | WifiState::Downloading(_) => Reply::Bytes,
        WifiState::ReadingDir => Reply::Entries,
        WifiState::Executing => Reply::Output,
        WifiState::FetchingInfo { .. } => Reply::Info,
        WifiState::LookingUp { .. } => Reply::Credentials,
        WifiState::Naming { .. } => Reply::Line,
        WifiState::Pairing(pair) => pair_awaits(pair),
        WifiState::Discovering(state) => discover_awaits(state),
        _ => Reply::Done,
    }
}

spec fn activity_awaits(state: ActivityState) -> Reply {
    match state {
        ActivityState::Building | ActivityState::Preparing { .. } => Reply::Package,
        ActivityState::Finding { .. } => Reply::Found,
        ActivityState::Staging { .. } => Reply::Staged,
        _ => Reply::Done,
    }
}

spec fn devices_awaits(state: DevicesState) -> Reply {
    match state {
        DevicesState::Listing { .. } => Reply::Devices,
        DevicesState::Finding { .. }
        | DevicesState::FindingRemoved { .. }
        | DevicesState::FindingDefault { .. } => Reply::Found,
        DevicesState::CheckingDefault(_) => Reply::Default,
        DevicesState::Removing { .. } => Reply::Removed,
        _ => Reply::Done,
    }
}

spec fn session_awaits(session: Session) -> Reply {
    match session {
        Session::FindingActive { .. } => Reply::Found,
        Session::Wifi { state, .. } => wifi_awaits(state),
        Session::Activity { state, .. } => activity_awaits(state),
        Session::Repairing(state) => match state {
            RepairState::Asking { .. } => Reply::Line,
            RepairState::LookingUp { .. } => Reply::Credentials,
            RepairState::Pairing(pair) => pair_awaits(pair),
            _ => Reply::Done,
        },
        Session::Usb(state) => match state {
            UsbState::FindingPort(_) => Reply::Port,
            UsbState::Executing => Reply::Output,
            _ => Reply::Done,
        },
        Session::Devices(state) => devices_awaits(state),
        _ => Reply::Done,
    }
}

/// A failure that the user or the world has brought about: the command was
/// refused, or an action ended in an error.
pub open spec fn is_in_step(failure: Failure) -> bool {
    failure is Refused || failure is Action
}

/// The failures that repair may hand back are in step.
spec fn keeps_in_step(session: Session) -> bool {
    match session {
        Session::Repairing(RepairState::Telling { failure, .. }) => is_in_step(failure),
        Session::Repairing(RepairState::Asking { failure, .. }) => is_in_step(failure),
        _ => true,
    }
}

proof fn lemma_discover_in_step(state: DiscoverState, event: Event, turn: Turn<DiscoverState>)
    requires
        discover_steps(state, event, turn),
        event is Failed || kind_of(event) == discover_awaits(state),
    ensures
        turn matches Turn::Act(next, action) ==> discover_awaits(next) == reply_to(action),
        turn matches Turn::Fail(failure) ==> is_in_step(failure),
{
}

proof fn lemma_wifi_in_step(state: WifiState, event: Event, turn: Turn<WifiState>)
    requires
        wifi_steps(state, event, turn),
        event is Failed || kind_of(event) == wifi_awaits(state),
    ensures
        turn matches Turn::Act(next, action) ==> wifi_awaits(next) == reply_to(action),
        turn matches Turn::Fail(failure) ==> is_in_step(failure),
{
    if let WifiState::Discovering(inner) = state {
        let found = choose|found: Turn<DiscoverState>| #[trigger]
            discover_steps(inner, event, found) && turn == crate::wifi::while_discovering(found);
        lemma_discover_in_step(inner, event, found);
    }
}

proof fn lemma_in_step(session: Session, event: Event, turn: Turn<Session>)
    requires
        session_steps(session, event, turn),
        event is Failed || kind_of(event) == session_awaits(session),
        keeps_in_step(session),
    ensures
        turn matches Turn::Act(next, action) ==> session_awaits(next) == reply_to(action)
            && keeps_in_step(next),
        turn matches Turn::Fail(failure) ==> is_in_step(failure),
{
    match session {
        Session::Wifi { state, active } => {
            let step = choose|step: Turn<WifiState>| #[trigger]
                wifi_steps(state, event, step) && turn == crate::session::while_on_wifi(
                    active,
                    step,
                );
            lemma_wifi_in_step(state, event, step);
        },
        Session::Activity { state, active } => {
            let step = choose|step: Turn<ActivityState>| #[trigger]
                activity_steps(state, event, step) && turn == crate::session::while_on_activity(
                    active,
                    step,
                );
            assert(activity_steps(state, event, step));
        },
        Session::Devices(state) => {
            let step = choose|step: Turn<DevicesState>| #[trigger]
                devices_steps(state, event, step) && turn == crate::session::while_on_devices(step);
            assert(devices_steps(state, event, step));
        },
        _ => {},
    }
}

proof fn lemma_run_in_step(cli: Cli, events: Seq<Event>, turns: Seq<Turn<Session>>, i: int)
    requires
        is_session_run(session_begun(cli), events, turns),
        forall|j: int|
            0 <= j < events.len() ==> answers(turns[j]->Act_1, #[trigger] events[j]),
        0 <= i < turns.len(),
    ensures
        turns[i] matches Turn::Fail(failure) ==> is_in_step(failure),
        turns[i] matches Turn::Act(session, action) ==> session_awaits(session) == reply_to(action)
            && keeps_in_step(session),
    decreases i,
{
    if i > 0 {
        lemma_run_in_step(cli, events, turns, i - 1);
        let event = events[i - 1];
        assert(turns[i - 1] is Act && session_steps(turns[i - 1]->Act_0, event, turns[i]));
        assert(answers(turns[i - 1]->Act_1, event));
        lemma_in_step(turns[i - 1]->Act_0, event, turns[i]);
    }
}

/// A run in which every action ends in an event of its kind, or fails, never
/// ends out of step, nor for want of a document: where it fails, the command was
/// refused or an action has failed.
pub proof fn law_answered_runs_stay_in_step(
    cli: Cli,
    events: Seq<Event>,
    turns: Seq<Turn<Session>>,
)
    requires
        is_session_run(session_begun(cli), events, turns),
        forall|j: int|
            0 <= j < events.len() ==> answers(turns[j]->Act_1, #[trigger] events[j]),
    ensures
        turns.last() matches Turn::Fail(failure) ==> is_in_step(failure),
{
    lemma_run_in_step(cli, events, turns, turns.len() - 1);
}

/// An event of another kind than a state awaits ends the run.
proof fn lemma_out_of_step(session: Session, event: Event, turn: Turn<Session>)
    requires
        session_steps(session, event, turn),
        !(event is Failed),
        kind_of(event) != session_awaits(session),
    ensures
        turn == Turn::<Session>::Fail(Failure::OutOfStep),
{
    match session {
        Session::Wifi { state, active } => {
            let step = choose|step: Turn<WifiState>| #[trigger]
                wifi_steps(state, event, step) && turn == crate::session::while_on_wifi(
                    active,
                    step,
                );
            assert(wifi_steps(state, event, step));
            if let WifiState::Discovering(inner) = state {
                let found = choose|found: Turn<DiscoverState>| #[trigger]
                    discover_steps(inner, event, found) && step
                        == crate::wifi::while_discovering(found);
                assert(discover_steps(inner, event, found));
            }
        },
        Session::Activity { state, active } => {
            let step = choose|step: Turn<ActivityState>| #[trigger]
                activity_steps(state, event, step) && turn == crate::session::while_on_activity(
                    active,
                    step,
                );
            assert(activity_steps(state, event, step));
        },
        Session::Devices(state) => {
            let step = choose|step: Turn<DevicesState>| #[trigger]
                devices_steps(state, event, step) && turn == crate::session::while_on_devices(step);
            assert(devices_steps(state, event, step));
        },
        _ => {},
    }
}

proof fn lemma_awaits(cli: Cli, events: Seq<Event>, turns: Seq<Turn<Session>>, i: int)
    requires
        is_session_run(session_begun(cli), events, turns),
        0 <= i < turns.len(),
    ensures
        turns[i] matches Turn::Act(session, action) ==> session_awaits(session) == reply_to(action)
            && keeps_in_step(session),
    decreases i,
{
    if i > 0 {
        lemma_awaits(cli, events, turns, i - 1);
        let event = events[i - 1];
        assert(turns[i - 1] is Act && session_steps(turns[i - 1]->Act_0, event, turns[i]));
        if event is Failed || kind_of(event) == session_awaits(turns[i - 1]->Act_0) {
            lemma_in_step(turns[i - 1]->Act_0, event, turns[i]);
        } else {
            lemma_out_of_step(turns[i - 1]->Act_0, event, turns[i]);
        }
    }
}

/// An event that does not answer the action ends the run at once, out of step; and
/// nothing else does.
pub proof fn law_only_answers_are_taken(
    cli: Cli,
    events: Seq<Event>,
    turns: Seq<Turn<Session>>,
    i: int,
)
    requires
        is_session_run(session_begun(cli), events, turns),
        0 <= i < events.len(),
    ensures
        turns[i + 1] == Turn::<Session>::Fail(Failure::OutOfStep) <==> !answers(
            turns[i]->Act_1,
            events[i],
        ),
{
    lemma_awaits(cli, events, turns, i);
    let event = events[i];
    assert(turns[i] is Act && session_steps(turns[i]->Act_0, event, turns[i + 1]));
    if answers(turns[i]->Act_1, event) {
        lemma_in_step(turns[i]->Act_0, event, turns[i + 1]);
    } else {
        lemma_out_of_step(turns[i]->Act_0, event, turns[i + 1]);
    }
}

} // verus!
