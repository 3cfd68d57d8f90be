//! The law of discovery, from the command line on: what follows each answer.

use crate::command::{Cli, Commands, WifiCommands};
use crate::discover::{discover_steps, DiscoverState, Queue};
use crate::laws::parts::{is_repairing, lookup_of};
use crate::laws::runs::{asks, is_session_run};
use crate::notice::Notice;
use crate::pairing::PairState;
use crate::protocol::{Action, Device, Event, FoundDevice, Turn};
use crate::session::{session_begun, session_steps, while_on_wifi, Session};
use crate::text::{optional_view, says_yes, trimmed};
use crate::wifi::{while_discovering, wifi_steps, WifiState};
use vstd::prelude::*;

verus! {

/// How many devices the store has been asked for up to turn `i`.
pub open spec fn visited(turns: Seq<Turn<Session>>, i: int) -> int
    decreases i + 1,
{
    if i < 0 {
        0
    } else if turns[i] is Act && turns[i]->Act_1 is GetDevice {
        visited(turns, i - 1) + 1
    } else {
        visited(turns, i - 1)
    }
}

/// The nickname that the answer at turn `q` gives a device: what the user has typed,
/// without the white space around it, or the device's own name where that is
/// nothing.
pub open spec fn named_at(
    events: Seq<Event>,
    turns: Seq<Turn<Session>>,
    q: int,
    device: FoundDevice,
    nickname: Option<String>,
) -> bool {
    &&& 0 <= q
    &&& asks(turns[q], Action::Ask(Notice::NicknameQuestion(Some(device.device_name))))
    &&& events[q] matches Event::Line(line)
    &&& optional_view(nickname) == (if trimmed(line@).len() == 0 {
        Some(device.device_name@)
    } else {
        Some(trimmed(line@))
    })
}

/// The turn of the question for the nickname that a device is paired with under at
/// turn `i`: right before the question for the default, which is two turns back, or
/// four where the device was made the default in between.
pub open spec fn question_before(turns: Seq<Turn<Session>>, i: int) -> int {
    if asks(turns[i - 2], Action::GetDefault) {
        i - 3
    } else {
        i - 5
    }
}

/// The next device of the search has its turn, or all have had theirs.
pub open spec fn goes_to_next(
    found: Seq<FoundDevice>,
    count: int,
    next: Turn<Session>,
) -> bool {
    if count < found.len() {
        asks(next, Action::GetDevice(found[count].serial))
    } else {
        next is Done
    }
}

/// What follows turn `i` of discovery. Every device that the search found has its
/// turn, in order. One that the store knows is shown. One that it does not know is
/// shown and offered; where the user agrees, the nickname is asked for, the device
/// is made the default if none is set, and it is paired with: it goes into the store
/// with the password that it handed out and the nickname that was typed, default or
/// not, and the store is written.
pub open spec fn discovery_goes_on(
    events: Seq<Event>,
    turns: Seq<Turn<Session>>,
    i: int,
) -> bool {
    let found = events[2]->Discovered_0@;
    let count = visited(turns, i);
    let device = found[count - 1];
    let next = turns[i + 1];
    match (turns[i]->Act_1, events[i]) {
        (Action::Tell(Notice::Searching), _) => asks(next, Action::Browse),
        (Action::Browse, Event::Discovered(_)) => i == 2 && if found.len() == 0 {
            asks(next, Action::Tell(Notice::NoDevicesFound))
        } else {
            goes_to_next(found, 0, next)
        },
        (Action::Tell(Notice::NoDevicesFound), _) => next is Done,
        (Action::GetDevice(serial), Event::Credentials(known)) => {
            &&& 1 <= count <= found.len()
            &&& serial == device.serial
            &&& asks(
                next,
                Action::Tell(
                    if known is Some {
                        Notice::KnownDevice {
                            serial: device.serial,
                            device_name: device.device_name,
                        }
                    } else {
                        Notice::NewDevice {
                            serial: device.serial,
                            device_name: device.device_name,
                        }
                    },
                ),
            )
        },
        (Action::Tell(Notice::KnownDevice { .. }), _) => goes_to_next(found, count, next),
        (Action::Tell(Notice::NewDevice { .. }), _) => asks(
            next,
            Action::Ask(Notice::PairQuestion),
        ),
        (Action::Ask(Notice::PairQuestion), Event::Line(line)) => if says_yes(line@) {
            asks(next, Action::Ask(Notice::NicknameQuestion(Some(device.device_name))))
        } else {
            goes_to_next(found, count, next)
        },
        (Action::Ask(Notice::NicknameQuestion(_)), _) => asks(next, Action::GetDefault),
        (Action::GetDefault, Event::Default(None)) => asks(
            next,
            Action::SetDefault(device.serial),
        ),
        (Action::GetDefault, Event::Default(Some(_))) => asks(
            next,
            Action::Tell(Notice::Pairing(device.serial)),
        ),
        (Action::SetDefault(_), _) => asks(next, Action::Tell(Notice::MadeDefault)),
        (Action::Tell(Notice::MadeDefault), _) => asks(
            next,
            Action::Tell(Notice::Pairing(device.serial)),
        ),
        (Action::Tell(Notice::Pairing(_)), _) => asks(next, Action::PairDevice(device.serial)),
        (Action::PairDevice(_), Event::Password(password)) => {
            &&& next is Act
            &&& next->Act_1 matches Action::SetDevice(stored)
            &&& stored.serial == device.serial
            &&& stored.credentials.password == password
            &&& named_at(
                events,
                turns,
                question_before(turns, i),
                device,
                stored.credentials.nickname,
            )
        },
        (Action::SetDevice(_), _) => asks(next, Action::SaveStore),
        (Action::SaveStore, _) => asks(next, Action::Tell(Notice::Paired(device.serial))),
        (Action::Tell(Notice::Paired(_)), _) => goes_to_next(found, count, next),
        _ => false,
    }
}

/// The queue of a state, where devices have their turns.
spec fn queue_of(state: DiscoverState) -> Option<Queue> {
    match state {
        DiscoverState::Checking { queue, .. } => Some(queue),
        DiscoverState::TellingKnown { queue } => Some(queue),
        DiscoverState::TellingNew { queue, .. } => Some(queue),
        DiscoverState::Asking { queue, .. } => Some(queue),
        DiscoverState::Naming { queue, .. } => Some(queue),
        DiscoverState::CheckingDefault { queue, .. } => Some(queue),
        DiscoverState::SettingDefault { queue, .. } => Some(queue),
        DiscoverState::TellingDefault { queue, .. } => Some(queue),
        DiscoverState::Pairing { queue, .. } => Some(queue),
        _ => None,
    }
}

/// What holds of a state of discovery and of the action of its turn.
spec fn discovery_at(
    events: Seq<Event>,
    turns: Seq<Turn<Session>>,
    i: int,
    state: DiscoverState,
    action: Action,
) -> bool {
    let count = visited(turns, i);
    &&& match queue_of(state) {
        Some(queue) => {
            &&& i >= 3
            &&& events[2] == Event::Discovered(queue.found)
            &&& queue.next == count
            &&& 1 <= count <= queue.found@.len()
        },
        None => count == 0,
    }
    &&& ({
        let current = events[2]->Discovered_0@[count - 1];
        match state {
            DiscoverState::Announcing => i == 1 && action == Action::Tell(Notice::Searching),
            DiscoverState::Browsing => i == 2 && action == Action::Browse,
            DiscoverState::ReportingNone => action == Action::Tell(Notice::NoDevicesFound),
            DiscoverState::Checking { device, .. } => device == current && action
                == Action::GetDevice(device.serial),
            DiscoverState::TellingKnown { .. } => action is Tell && action->Tell_0 is KnownDevice,
            DiscoverState::TellingNew { device, .. } => device == current && action is Tell
                && action->Tell_0 is NewDevice,
            DiscoverState::Asking { device, .. } => device == current && action == Action::Ask(
                Notice::PairQuestion,
            ),
            DiscoverState::Naming { device, .. } => device == current && action == Action::Ask(
                Notice::NicknameQuestion(Some(device.device_name)),
            ),
            DiscoverState::CheckingDefault { device, nickname, .. } => {
                &&& device == current
                &&& action == Action::GetDefault
                &&& named_at(events, turns, i - 1, device, nickname)
            },
            DiscoverState::SettingDefault { device, nickname, .. } => {
                &&& device == current
                &&& action == Action::SetDefault(device.serial)
                &&& named_at(events, turns, i - 2, device, nickname)
            },
            DiscoverState::TellingDefault { device, nickname, .. } => {
                &&& device == current
                &&& action == Action::Tell(Notice::MadeDefault)
                &&& named_at(events, turns, i - 3, device, nickname)
            },
            DiscoverState::Pairing { pair, .. } => match pair {
                PairState::Announcing { serial, nickname } => {
                    &&& serial == current.serial
                    &&& action == Action::Tell(Notice::Pairing(serial))
                    &&& named_at(
                        events,
                        turns,
                        question_before(turns, i + 1),
                        current,
                        nickname,
                    )
                },
                PairState::Requesting { serial, nickname } => {
                    &&& serial == current.serial
                    &&& action == Action::PairDevice(serial)
                    &&& named_at(events, turns, question_before(turns, i), current, nickname)
                },
                PairState::Storing { serial } => serial == current.serial && action is SetDevice,
                PairState::Saving { serial } => serial == current.serial && action
                    == Action::SaveStore,
                PairState::Reporting => action is Tell && action->Tell_0 is Paired,
            },
        }
    })
}

/// One step of discovery: where turn `i + 1` is the one that discovery takes, it
/// follows as said.
#[verifier::rlimit(60)]
proof fn lemma_discovery_step(
    events: Seq<Event>,
    turns: Seq<Turn<Session>>,
    i: int,
    state: DiscoverState,
    step: Turn<DiscoverState>,
    active: Option<String>,
)
    requires
        i >= 1,
        turns[i] is Act,
        discovery_at(events, turns, i, state, turns[i]->Act_1),
        discover_steps(state, events[i], step),
        !(step is Fail),
        turns[i + 1] == while_on_wifi(active, while_discovering(step)),
    ensures
        discovery_goes_on(events, turns, i),
        step matches Turn::Act(next, action) ==> discovery_at(events, turns, i + 1, next, action),
{
    if let Some(queue) = queue_of(state) {
        assert(queue.found.len() == queue.found@.len());
    }
    if let Event::Discovered(found) = events[i] {
        assert(found.len() == found@.len());
    }
    assert(visited(turns, i + 1) == visited(turns, i) + (if turns[i + 1] is Act
        && turns[i + 1]->Act_1 is GetDevice {
        1int
    } else {
        0
    }));
}

proof fn lemma_discovery(cli: Cli, events: Seq<Event>, turns: Seq<Turn<Session>>, i: int)
    requires
        is_session_run(session_begun(cli), events, turns),
        cli.command == Commands::Wifi(WifiCommands::Discover),
        1 <= i < turns.len(),
        !(turns[i] is Fail),
        !is_repairing(turns, i),
    ensures
        turns[i] matches Turn::Act(session, action) ==> {
            &&& session matches Session::Wifi { state: WifiState::Discovering(state), .. }
            &&& discovery_at(events, turns, i, state, action)
        },
        i > 1 ==> discovery_goes_on(events, turns, i - 1),
    decreases i,
{
    let event = events[i - 1];
    assert(turns[i - 1] is Act && session_steps(turns[i - 1]->Act_0, event, turns[i]));
    if i == 1 {
        reveal_with_fuel(visited, 3);
        assert(turns[0] == session_begun(cli));
    } else {
        assert(!is_repairing(turns, i - 1)) by {
            if is_repairing(turns, i - 1) {
                let j = choose|j: int|
                    0 <= j <= i - 1 && asks(
                        #[trigger] turns[j],
                        Action::Tell(Notice::Unauthorized),
                    );
                assert(is_repairing(turns, i));
            }
        }
        lemma_discovery(cli, events, turns, i - 1);
        let session = turns[i - 1]->Act_0;
        let active = session->Wifi_active;
        let wifi = session->Wifi_state;
        let state = wifi->Discovering_0;
        let outer = choose|outer: Turn<WifiState>| #[trigger]
            wifi_steps(wifi, event, outer) && turns[i] == while_on_wifi(active, outer);
        assert(wifi_steps(wifi, event, outer));
        let step = choose|step: Turn<DiscoverState>| #[trigger]
            discover_steps(state, event, step) && outer == while_discovering(step);
        assert(discover_steps(state, event, step));
        if step is Fail {
            assert(asks(turns[i], Action::Tell(Notice::Unauthorized)));
            assert(is_repairing(turns, i));
        } else {
            lemma_discovery_step(events, turns, i - 1, state, step, active);
        }
    }
}

/// Discovery, from the command line on: the search is announced and made, and then
/// every turn follows from the answer before it as `discovery_goes_on` says.
pub proof fn law_discovery(cli: Cli, events: Seq<Event>, turns: Seq<Turn<Session>>, i: int)
    requires
        is_session_run(session_begun(cli), events, turns),
        cli.command == Commands::Wifi(WifiCommands::Discover),
        0 <= i < turns.len(),
        !(turns[i] is Fail),
        !is_repairing(turns, i),
    ensures
        i == 0 ==> asks(turns[0], lookup_of(cli.device)),
        i == 1 ==> asks(turns[1], Action::Tell(Notice::Searching)),
        i > 1 ==> discovery_goes_on(events, turns, i - 1),
{
    if i > 0 {
        lemma_discovery(cli, events, turns, i);
        if i == 1 {
            let event = events[0];
            assert(session_steps(turns[0]->Act_0, event, turns[1]));
        }
    }
}

/// Whatever device discovery puts into the store, the user was asked for its
/// nickname before, with its own name as the default, and it is stored under what
/// the answer chose, whether or not a default device is set.
pub proof fn law_discovery_stores_the_nickname(
    cli: Cli,
    events: Seq<Event>,
    turns: Seq<Turn<Session>>,
    i: int,
    stored: Device,
)
    requires
        is_session_run(session_begun(cli), events, turns),
        cli.command == Commands::Wifi(WifiCommands::Discover),
        0 <= i < turns.len(),
        asks(turns[i], Action::SetDevice(stored)),
        !is_repairing(turns, i),
    ensures
        exists|q: int, k: int|
            #![trigger turns[q], events[2]->Discovered_0@[k]]
            0 <= q < i && 0 <= k < events[2]->Discovered_0@.len() && stored.serial
                == events[2]->Discovered_0@[k].serial && named_at(
                events,
                turns,
                q,
                events[2]->Discovered_0@[k],
                stored.credentials.nickname,
            ),
{
    law_discovery(cli, events, turns, i);
    let event = events[i - 1];
    assert(turns[i - 1] is Act);
    assert(!is_repairing(turns, i - 1)) by {
        if is_repairing(turns, i - 1) {
            let j = choose|j: int|
                0 <= j <= i - 1 && asks(#[trigger] turns[j], Action::Tell(Notice::Unauthorized));
            assert(is_repairing(turns, i));
        }
    }
    lemma_discovery(cli, events, turns, i - 1);
    let q = question_before(turns, i - 1);
    let k = visited(turns, i - 1) - 1;
    assert(named_at(
        events,
        turns,
        q,
        events[2]->Discovered_0@[k],
        stored.credentials.nickname,
    ));
    let asked = turns[q];
}

} // verus!
