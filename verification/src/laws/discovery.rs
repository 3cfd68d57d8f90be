//! Laws of discovery.

use crate::command::WifiCommands;
use crate::discover::{discover_steps, discovery_begun, DiscoverState, Queue};
use crate::laws::runs::{asks, is_discover_run, is_wifi_run};
use crate::notice::Notice;
use crate::pairing::PairState;
use crate::protocol::{Action, Event, Turn};
use crate::text::says_yes;
use crate::wifi::{wifi_begun, wifi_steps, while_discovering, WifiState};
use vstd::prelude::*;

verus! {

/// Before turn `i` the store was asked for a device and did not know it.
pub open spec fn found_new<S>(
    events: Seq<Event>,
    turns: Seq<Turn<S>>,
    i: int,
    serial: String,
) -> bool {
    exists|j: int|
        0 <= j < i && asks(#[trigger] turns[j], Action::GetDevice(serial)) && events[j]
            == Event::Credentials(None)
}

/// Before turn `i` the user agreed to pair with a device that the store did not
/// know.
pub open spec fn agreed_to<S>(
    events: Seq<Event>,
    turns: Seq<Turn<S>>,
    i: int,
    serial: String,
) -> bool {
    exists|k: int|
        0 <= k < i && asks(#[trigger] turns[k], Action::Ask(Notice::PairQuestion)) && events[k] is
            Line && says_yes(events[k]->Line_0@) && found_new(events, turns, k, serial)
}

/// The search found a device with this serial number.
pub open spec fn was_found(events: Seq<Event>, serial: String) -> bool {
    &&& events[1] matches Event::Discovered(found)
    &&& exists|k: int| 0 <= k < found@.len() && (#[trigger] found@[k]).serial == serial
}

/// Up to turn `i` the store was asked for a device.
spec fn looked_up(turns: Seq<Turn<DiscoverState>>, i: int, serial: String) -> bool {
    exists|j: int| 0 <= j <= i && asks(#[trigger] turns[j], Action::GetDevice(serial))
}

/// The devices that a state goes through.
spec fn queue_of(state: DiscoverState) -> Option<Queue> {
    match state {
        DiscoverState::Checking { queue, .. } => Some(queue),
        DiscoverState::TellingKnown { queue } => Some(queue),
        DiscoverState::TellingNew { queue, .. } => Some(queue),
        DiscoverState::Asking { queue, .. } => Some(queue),
        DiscoverState::Naming { queue, .. } => Some(queue),
        DiscoverState::CheckingDefault { queue, .. } => Some(queue),
        DiscoverState::SettingDefault { queue, .. } => Some(queue),
        DiscoverState::TellingDefault { queue, .. } => Some(queue),
        DiscoverState::Pairing { queue, .. } => Some(queue),
        _ => None,
    }
}

/// The serial number of the device whose turn it is.
spec fn serial_of(state: DiscoverState) -> Option<String> {
    match state {
        DiscoverState::Checking { device, .. } => Some(device.serial),
        DiscoverState::TellingNew { device, .. } => Some(device.serial),
        DiscoverState::Asking { device, .. } => Some(device.serial),
        DiscoverState::Naming { device, .. } => Some(device.serial),
        DiscoverState::CheckingDefault { device, .. } => Some(device.serial),
        DiscoverState::SettingDefault { device, .. } => Some(device.serial),
        DiscoverState::TellingDefault { device, .. } => Some(device.serial),
        DiscoverState::Pairing { pair: PairState::Announcing { serial, .. }, .. } => Some(serial),
        DiscoverState::Pairing { pair: PairState::Requesting { serial, .. }, .. } => Some(serial),
        _ => None,
    }
}

/// What holds of turn `i` of discovery, where it asks for an action.
spec fn discover_turn_at(
    events: Seq<Event>,
    turns: Seq<Turn<DiscoverState>>,
    i: int,
) -> bool {
    let state = turns[i]->Act_0;
    let action = turns[i]->Act_1;
    &&& action is PairDevice ==> state is Pairing && state->pair is Requesting && action
        == Action::PairDevice(state->pair->Requesting_serial)
    &&& action is SetDefault ==> state is SettingDefault && action == Action::SetDefault(
        state->SettingDefault_device.serial,
    ) && i > 0 && asks(turns[i - 1], Action::GetDefault) && events[i - 1]
        == Event::Default(None)
    &&& match state {
        DiscoverState::Announcing => i == 0,
        DiscoverState::Browsing => i == 1,
        DiscoverState::ReportingNone => i == 2 && events[1] is Discovered
            && events[1]->Discovered_0@.len() == 0,
        DiscoverState::Checking { device, .. } => action == Action::GetDevice(device.serial),
        DiscoverState::TellingNew { device, .. } => found_new(events, turns, i, device.serial),
        DiscoverState::Asking { device, .. } => {
            &&& found_new(events, turns, i, device.serial)
            &&& action == Action::Ask(Notice::PairQuestion)
        },
        DiscoverState::Naming { device, .. } => agreed_to(events, turns, i, device.serial),
        DiscoverState::CheckingDefault { device, .. } => {
            &&& agreed_to(events, turns, i, device.serial)
            &&& action == Action::GetDefault
        },
        DiscoverState::SettingDefault { device, .. } => agreed_to(
            events,
            turns,
            i,
            device.serial,
        ),
        DiscoverState::TellingDefault { device, .. } => agreed_to(
            events,
            turns,
            i,
            device.serial,
        ),
        DiscoverState::Pairing { pair: PairState::Announcing { serial, .. }, .. } => agreed_to(
            events,
            turns,
            i,
            serial,
        ),
        DiscoverState::Pairing { pair: PairState::Requesting { serial, .. }, .. } => agreed_to(
            events,
            turns,
            i,
            serial,
        ),
        _ => true,
    }
    &&& serial_of(state) matches Some(serial) ==> was_found(events, serial)
    &&& queue_of(state) matches Some(queue) ==> {
        &&& i >= 2
        &&& events[1] == Event::Discovered(queue.found)
        &&& queue.next <= queue.found@.len()
        &&& forall|k: int|
            0 <= k < queue.next ==> looked_up(turns, i, (#[trigger] queue.found@[k]).serial)
    }
}

proof fn lemma_looked_up_stays(turns: Seq<Turn<DiscoverState>>, i: int, serial: String)
    requires
        looked_up(turns, i, serial),
    ensures
        looked_up(turns, i + 1, serial),
{
    let j = choose|j: int| 0 <= j <= i && asks(#[trigger] turns[j], Action::GetDevice(serial));
    assert(asks(turns[j], Action::GetDevice(serial)));
}

proof fn lemma_discover_schedule(
    events: Seq<Event>,
    turns: Seq<Turn<DiscoverState>>,
    i: int,
)
    requires
        is_discover_run(discovery_begun(), events, turns),
        0 <= i < turns.len(),
    ensures
        turns[i] is Act ==> discover_turn_at(events, turns, i),
        turns[i] is Done ==> {
            &&& i >= 2
            &&& events[1] matches Event::Discovered(found)
            &&& forall|k: int|
                0 <= k < found@.len() ==> looked_up(turns, i, (#[trigger] found@[k]).serial)
        },
    decreases i,
{
    if i > 0 {
        lemma_discover_schedule(events, turns, i - 1);
        let event = events[i - 1];
        let state = turns[i - 1]->Act_0;
        assert(turns[i - 1] is Act && discover_steps(state, event, turns[i]));
        if let Some(queue) = queue_of(state) {
            assert(queue.found.len() == queue.found@.len());
            assert forall|k: int| 0 <= k < queue.next implies looked_up(
                turns,
                i,
                (#[trigger] queue.found@[k]).serial,
            ) by {
                lemma_looked_up_stays(turns, i - 1, queue.found@[k].serial);
            }
        }
        if let DiscoverState::Checking { device, .. } = state {
            assert(asks(turns[i - 1], Action::GetDevice(device.serial)));
        }
        if let DiscoverState::Asking { device, .. } = state {
            assert(asks(turns[i - 1], Action::Ask(Notice::PairQuestion)));
        }
        if turns[i] is Act {
            if let DiscoverState::Checking { device, .. } = turns[i]->Act_0 {
                assert(asks(turns[i], Action::GetDevice(device.serial)));
            }
        }
    }
}

/// The turn of discovery behind a turn of the command that discovers.
spec fn discovery_turn(turn: Turn<WifiState>) -> Turn<DiscoverState> {
    match turn {
        Turn::Act(WifiState::Discovering(state), action) => Turn::Act(state, action),
        Turn::Act(_, _) => Turn::Done,
        Turn::Done => Turn::Done,
        Turn::Fail(failure) => Turn::Fail(failure),
    }
}

/// The turns of discovery behind those of the command that discovers.
spec fn discovery_turns(turns: Seq<Turn<WifiState>>) -> Seq<Turn<DiscoverState>> {
    turns.map_values(|turn: Turn<WifiState>| discovery_turn(turn))
}

/// Every turn of the command that discovers is one of discovery.
proof fn lemma_discovers(
    device_arg: Option<String>,
    events: Seq<Event>,
    turns: Seq<Turn<WifiState>>,
    i: int,
)
    requires
        is_wifi_run(wifi_begun(device_arg, WifiCommands::Discover), events, turns),
        0 <= i < turns.len(),
    ensures
        turns[i] == while_discovering(discovery_turn(turns[i])),
        i > 0 ==> discover_steps(
            discovery_turn(turns[i - 1])->Act_0,
            events[i - 1],
            discovery_turn(turns[i]),
        ),
    decreases i,
{
    if i > 0 {
        lemma_discovers(device_arg, events, turns, i - 1);
        let event = events[i - 1];
        assert(turns[i - 1] is Act && wifi_steps(turns[i - 1]->Act_0, event, turns[i]));
        let state = discovery_turn(turns[i - 1])->Act_0;
        assert(turns[i - 1]->Act_0 == WifiState::Discovering(state));
        let step = choose|step: Turn<DiscoverState>| #[trigger]
            discover_steps(state, event, step) && turns[i] == while_discovering(step);
        assert(discovery_turn(turns[i]) == step);
    }
}

/// A run of the command that discovers is a run of discovery.
proof fn lemma_discovery_run(
    device_arg: Option<String>,
    events: Seq<Event>,
    turns: Seq<Turn<WifiState>>,
)
    requires
        is_wifi_run(wifi_begun(device_arg, WifiCommands::Discover), events, turns),
    ensures
        is_discover_run(discovery_begun(), events, discovery_turns(turns)),
        forall|i: int|
            0 <= i < turns.len() ==> #[trigger] turns[i] == while_discovering(
                discovery_turns(turns)[i],
            ),
{
    assert forall|i: int| 0 <= i < turns.len() implies #[trigger] turns[i] == while_discovering(
        discovery_turns(turns)[i],
    ) by {
        lemma_discovers(device_arg, events, turns, i);
    }
    let inner = discovery_turns(turns);
    assert(turns[0] == while_discovering(discovery_begun()));
    assert(inner[0] == discovery_begun());
    assert forall|i: int|
        #![trigger inner[i]]
        0 <= i < events.len() implies inner[i] is Act && discover_steps(
        inner[i]->Act_0,
        events[i],
        inner[i + 1],
    ) by {
        lemma_discovers(device_arg, events, turns, i);
        lemma_discovers(device_arg, events, turns, i + 1);
        assert(turns[i] is Act);
    }
}

/// What the user agreed to is the same in the turns of the command.
proof fn lemma_agreed_to(
    events: Seq<Event>,
    turns: Seq<Turn<WifiState>>,
    i: int,
    serial: String,
)
    requires
        0 <= i < turns.len(),
        forall|j: int|
            0 <= j < turns.len() ==> #[trigger] turns[j] == while_discovering(
                discovery_turns(turns)[j],
            ),
        agreed_to(events, discovery_turns(turns), i, serial),
    ensures
        agreed_to(events, turns, i, serial),
{
    let inner = discovery_turns(turns);
    let k = choose|k: int|
        0 <= k < i && asks(#[trigger] inner[k], Action::Ask(Notice::PairQuestion)) && events[k] is
            Line && says_yes(events[k]->Line_0@) && found_new(events, inner, k, serial);
    let j = choose|j: int|
        0 <= j < k && asks(#[trigger] inner[j], Action::GetDevice(serial)) && events[j]
            == Event::Credentials(None);
    assert(asks(turns[j], Action::GetDevice(serial)));
    assert(found_new(events, turns, k, serial));
    assert(asks(turns[k], Action::Ask(Notice::PairQuestion)));
}

/// Discovery pairs only with a device that the search found and that the store
/// did not know when it was asked, and only after the user has agreed to it.
pub proof fn law_only_new_devices_are_paired_with_on_request(
    device_arg: Option<String>,
    events: Seq<Event>,
    turns: Seq<Turn<WifiState>>,
    i: int,
    serial: String,
)
    requires
        is_wifi_run(wifi_begun(device_arg, WifiCommands::Discover), events, turns),
        0 <= i < turns.len(),
        asks(turns[i], Action::PairDevice(serial)),
    ensures
        was_found(events, serial),
        agreed_to(events, turns, i, serial),
{
    lemma_discovery_run(device_arg, events, turns);
    let inner = discovery_turns(turns);
    assert(asks(inner[i], Action::PairDevice(serial)));
    lemma_discover_schedule(events, inner, i);
    lemma_agreed_to(events, turns, i, serial);
}

/// Discovery sets the default only where none was set a moment ago, and only to
/// a device that the search found and that the user has agreed to pair with.
pub proof fn law_discovery_keeps_a_default(
    device_arg: Option<String>,
    events: Seq<Event>,
    turns: Seq<Turn<WifiState>>,
    i: int,
    serial: String,
)
    requires
        is_wifi_run(wifi_begun(device_arg, WifiCommands::Discover), events, turns),
        0 <= i < turns.len(),
        asks(turns[i], Action::SetDefault(serial)),
    ensures
        i > 0,
        asks(turns[i - 1], Action::GetDefault),
        events[i - 1] == Event::Default(None),
        was_found(events, serial),
        agreed_to(events, turns, i, serial),
{
    lemma_discovery_run(device_arg, events, turns);
    let inner = discovery_turns(turns);
    assert(asks(inner[i], Action::SetDefault(serial)));
    lemma_discover_schedule(events, inner, i);
    assert(turns[i - 1] == while_discovering(inner[i - 1]));
    lemma_agreed_to(events, turns, i, serial);
}

/// Discovery that ends well has asked the store for every device that the
/// search found.
pub proof fn law_every_found_device_has_its_turn(
    device_arg: Option<String>,
    events: Seq<Event>,
    turns: Seq<Turn<WifiState>>,
)
    requires
        is_wifi_run(wifi_begun(device_arg, WifiCommands::Discover), events, turns),
        turns.last() is Done,
    ensures
        events.len() >= 2,
        asks(turns[1], Action::Browse),
        events[1] is Discovered,
        forall|k: int|
            0 <= k < events[1]->Discovered_0@.len() ==> exists|j: int|
                0 <= j < turns.len() && asks(
                    #[trigger] turns[j],
                    Action::GetDevice((#[trigger] events[1]->Discovered_0@[k]).serial),
                ),
{
    lemma_discovery_run(device_arg, events, turns);
    let inner = discovery_turns(turns);
    assert(turns.last() == while_discovering(inner.last()));
    lemma_discover_schedule(events, inner, turns.len() - 1);
    let event = events[0];
    assert(inner[0] is Act && discover_steps(inner[0]->Act_0, event, inner[1]));
    let event = events[1];
    assert(inner[1] is Act);
    assert(turns[1] == while_discovering(inner[1]));
    assert forall|k: int| 0 <= k < events[1]->Discovered_0@.len() implies exists|j: int|
        0 <= j < turns.len() && asks(
            #[trigger] turns[j],
            Action::GetDevice((#[trigger] events[1]->Discovered_0@[k]).serial),
        ) by {
        let serial = events[1]->Discovered_0@[k].serial;
        assert(looked_up(inner, turns.len() - 1, serial));
        let j = choose|j: int|
            0 <= j <= turns.len() - 1 && asks(#[trigger] inner[j], Action::GetDevice(serial));
        assert(asks(turns[j], Action::GetDevice(serial)));
    }
}

} // verus!
