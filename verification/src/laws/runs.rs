//! Runs: the turns that a flow takes on a sequence of events.

use crate::activity::{activity_steps, ActivityState};
use crate::devices::{devices_steps, DevicesState};
use crate::discover::{discover_steps, DiscoverState};
use crate::pairing::{pair_turn, PairState};
use crate::protocol::{Action, Event, Turn};
use crate::repair::{repair_turn, RepairState};
use crate::session::{session_steps, Session};
use crate::wifi::{wifi_steps, WifiState};
use vstd::prelude::*;

verus! {

/// `turns` are the turns of a flow that starts with `first` and goes on as
/// `steps` says: every event answers the action of the turn at its place.
pub open spec fn is_run<S>(
    steps: spec_fn(S, Event, Turn<S>) -> bool,
    first: Turn<S>,
    events: Seq<Event>,
    turns: Seq<Turn<S>>,
) -> bool {
    &&& turns.len() == events.len() + 1
    &&& turns[0] == first
    &&& forall|i: int|
        #![trigger events[i]]
        0 <= i < events.len() ==> turns[i] is Act && steps(
            turns[i]->Act_0,
            events[i],
            turns[i + 1],
        )
}

/// A turn asks for an action.
pub open spec fn asks<S>(turn: Turn<S>, action: Action) -> bool {
    turn is Act && turn->Act_1 == action
}

/// A run of pairing.
pub open spec fn is_pair_run(
    first: Turn<PairState>,
    events: Seq<Event>,
    turns: Seq<Turn<PairState>>,
) -> bool {
    is_run(
        |state: PairState, event: Event, turn: Turn<PairState>| turn == pair_turn(state, event),
        first,
        events,
        turns,
    )
}

/// A run of discovery.
pub open spec fn is_discover_run(
    first: Turn<DiscoverState>,
    events: Seq<Event>,
    turns: Seq<Turn<DiscoverState>>,
) -> bool {
    is_run(
        |state: DiscoverState, event: Event, turn: Turn<DiscoverState>|
            discover_steps(state, event, turn),
        first,
        events,
        turns,
    )
}

/// A run of a command over Wi-Fi.
pub open spec fn is_wifi_run(
    first: Turn<WifiState>,
    events: Seq<Event>,
    turns: Seq<Turn<WifiState>>,
) -> bool {
    is_run(
        |state: WifiState, event: Event, turn: Turn<WifiState>| wifi_steps(state, event, turn),
        first,
        events,
        turns,
    )
}

/// A run of an activity command.
pub open spec fn is_activity_run(
    first: Turn<ActivityState>,
    events: Seq<Event>,
    turns: Seq<Turn<ActivityState>>,
) -> bool {
    is_run(
        |state: ActivityState, event: Event, turn: Turn<ActivityState>|
            activity_steps(state, event, turn),
        first,
        events,
        turns,
    )
}

/// A run of a command on the registered devices.
pub open spec fn is_devices_run(
    first: Turn<DevicesState>,
    events: Seq<Event>,
    turns: Seq<Turn<DevicesState>>,
) -> bool {
    is_run(
        |state: DevicesState, event: Event, turn: Turn<DevicesState>|
            devices_steps(state, event, turn),
        first,
        events,
        turns,
    )
}

/// A run of repair.
pub open spec fn is_repair_run(
    first: Turn<RepairState>,
    events: Seq<Event>,
    turns: Seq<Turn<RepairState>>,
) -> bool {
    is_run(
        |state: RepairState, event: Event, turn: Turn<RepairState>|
            turn == repair_turn(state, event),
        first,
        events,
        turns,
    )
}

/// A run of the tool.
pub open spec fn is_session_run(
    first: Turn<Session>,
    events: Seq<Event>,
    turns: Seq<Turn<Session>>,
) -> bool {
    is_run(
        |session: Session, event: Event, turn: Turn<Session>| session_steps(session, event, turn),
        first,
        events,
        turns,
    )
}

} // verus!
