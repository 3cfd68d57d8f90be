//! Discovery: devices on the local network, and the offer to pair with each.

use crate::notice::Notice;
use crate::pairing::{
    begin_pairing, chosen_nickname, pair_and_save, pair_turn, pairing_begun, prompt_nickname,
    PairState,
};
use crate::protocol::{failed_with, failure_of, Action, Event, FoundDevice, Turn};
use crate::text::{is_yes, optional_view, says_yes};
use vstd::prelude::*;

verus! {

/// The devices that were found, and how many of them have had their turn.
pub struct Queue {
    pub found: Vec<FoundDevice>,
    pub next: usize,
}

/// Where discovery stands.
pub enum DiscoverState {
    /// The user is being told of the search.
    Announcing,
    /// The network is being searched.
    Browsing,
    /// The user is being told that nothing was found.
    ReportingNone,
    /// The store is being asked for the device.
    Checking { queue: Queue, device: FoundDevice },
    /// The user is being told of a device that the store knows.
    TellingKnown { queue: Queue },
    /// The user is being told of a device that the store does not know.
    TellingNew { queue: Queue, device: FoundDevice },
    /// The user is being asked whether to pair.
    Asking { queue: Queue, device: FoundDevice },
    /// The user is being asked for a nickname.
    Naming { queue: Queue, device: FoundDevice },
    /// The store is being asked for the default device.
    CheckingDefault { queue: Queue, device: FoundDevice, nickname: Option<String> },
    /// The device is being made the default.
    SettingDefault { queue: Queue, device: FoundDevice, nickname: Option<String> },
    /// The user is being told of the new default.
    TellingDefault { queue: Queue, device: FoundDevice, nickname: Option<String> },
    /// The device is being paired with.
    Pairing { queue: Queue, pair: PairState },
}

impl FoundDevice {
    /// A copy of the device.
    fn copied(&self) -> (res: FoundDevice)
        ensures
            res == *self,
    {
        FoundDevice { serial: self.serial.clone(), device_name: self.device_name.clone() }
    }
}

/// The first turn of discovery.
pub open spec fn discovery_begun() -> Turn<DiscoverState> {
    Turn::Act(DiscoverState::Announcing, Action::Tell(Notice::Searching))
}

/// Begins discovery.
pub fn begin_discovery() -> (res: Turn<DiscoverState>)
    ensures
        res == discovery_begun(),
{
    Turn::Act(DiscoverState::Announcing, Action::Tell(Notice::Searching))
}

/// The turn that goes on to the next device, or ends after the last.
pub open spec fn next_device(queue: Queue) -> Turn<DiscoverState> {
    if queue.next < queue.found@.len() {
        let device = queue.found@[queue.next as int];
        let rest = Queue { found: queue.found, next: (queue.next + 1) as usize };
        Turn::Act(
            DiscoverState::Checking { queue: rest, device },
            Action::GetDevice(device.serial),
        )
    } else {
        Turn::Done
    }
}

/// Goes on to the next device.
fn visit(queue: Queue) -> (res: Turn<DiscoverState>)
    ensures
        res == next_device(queue),
{
    if queue.next < queue.found.len() {
        let device = queue.found[queue.next].copied();
        let action = Action::GetDevice(device.serial.clone());
        let rest = Queue { found: queue.found, next: queue.next + 1 };
        Turn::Act(DiscoverState::Checking { queue: rest, device }, action)
    } else {
        Turn::Done
    }
}

/// The turn of discovery that a turn of pairing stands for: once paired, the
/// next device has its turn.
pub open spec fn while_pairing(queue: Queue, turn: Turn<PairState>) -> Turn<DiscoverState> {
    match turn {
        Turn::Act(pair, action) => Turn::Act(DiscoverState::Pairing { queue, pair }, action),
        Turn::Done => next_device(queue),
        Turn::Fail(failure) => Turn::Fail(failure),
    }
}

/// Takes a turn of pairing for one of discovery.
fn from_pairing(queue: Queue, turn: Turn<PairState>) -> (res: Turn<DiscoverState>)
    ensures
        res == while_pairing(queue, turn),
{
    match turn {
        Turn::Act(pair, action) => Turn::Act(DiscoverState::Pairing { queue, pair }, action),
        Turn::Done => visit(queue),
        Turn::Fail(failure) => Turn::Fail(failure),
    }
}

/// What follows an event during discovery.
pub open spec fn discover_steps(
    state: DiscoverState,
    event: Event,
    turn: Turn<DiscoverState>,
) -> bool {
    match (state, event) {
        (DiscoverState::Announcing, Event::Done) => turn == Turn::Act(
            DiscoverState::Browsing,
            Action::Browse,
        ),
        (DiscoverState::Browsing, Event::Discovered(found)) => if found@.len() == 0 {
            turn == Turn::Act(DiscoverState::ReportingNone, Action::Tell(Notice::NoDevicesFound))
        } else {
            turn == next_device(Queue { found, next: 0 })
        },
        (DiscoverState::ReportingNone, Event::Done) => turn == Turn::<DiscoverState>::Done,
        (DiscoverState::Checking { queue, device }, Event::Credentials(Some(_))) => turn
            == Turn::Act(
            DiscoverState::TellingKnown { queue },
            Action::Tell(
                Notice::KnownDevice { serial: device.serial, device_name: device.device_name },
            ),
        ),
        (DiscoverState::Checking { queue, device }, Event::Credentials(None)) => turn == Turn::Act(
            DiscoverState::TellingNew { queue, device },
            Action::Tell(
                Notice::NewDevice { serial: device.serial, device_name: device.device_name },
            ),
        ),
        (DiscoverState::TellingKnown { queue }, Event::Done) => turn == next_device(queue),
        (DiscoverState::TellingNew { queue, device }, Event::Done) => turn == Turn::Act(
            DiscoverState::Asking { queue, device },
            Action::Ask(Notice::PairQuestion),
        ),
        (DiscoverState::Asking { queue, device }, Event::Line(line)) => if says_yes(line@) {
            turn == Turn::Act(
                DiscoverState::Naming { queue, device },
                Action::Ask(Notice::NicknameQuestion(Some(device.device_name))),
            )
        } else {
            turn == next_device(queue)
        },
        (DiscoverState::Naming { queue, device }, Event::Line(line)) => {
            &&& turn matches Turn::Act(
                DiscoverState::CheckingDefault { queue: kept, device: named, nickname },
                Action::GetDefault,
            )
            &&& kept == queue
            &&& named == device
            &&& optional_view(nickname) == chosen_nickname(Some(device.device_name@), line@)
        },
        (
            DiscoverState::CheckingDefault { queue, device, nickname },
            Event::Default(None),
        ) => turn == Turn::Act(
            DiscoverState::SettingDefault { queue, device, nickname },
            Action::SetDefault(device.serial),
        ),
        (
            DiscoverState::CheckingDefault { queue, device, nickname },
            Event::Default(Some(_)),
        ) => turn == while_pairing(queue, pairing_begun(device.serial, nickname)),
        (DiscoverState::SettingDefault { queue, device, nickname }, Event::Done) => turn
            == Turn::Act(
            DiscoverState::TellingDefault { queue, device, nickname },
            Action::Tell(Notice::MadeDefault),
        ),
        (DiscoverState::TellingDefault { queue, device, nickname }, Event::Done) => turn
            == while_pairing(queue, pairing_begun(device.serial, nickname)),
        (DiscoverState::Pairing { queue, pair }, event) => turn == while_pairing(
            queue,
            pair_turn(pair, event),
        ),
        (_, event) => turn == Turn::<DiscoverState>::Fail(failed_with(event)),
    }
}

/// Takes discovery one event further: every device that was found is checked
/// against the store and shown, and the user is asked whether to pair with one
/// that the store does not know.
pub fn discover(state: DiscoverState, event: Event) -> (res: Turn<DiscoverState>)
    ensures
        discover_steps(state, event, res),
{
    match (state, event) {
        (DiscoverState::Announcing, Event::Done) => Turn::Act(
            DiscoverState::Browsing,
            Action::Browse,
        ),
        (DiscoverState::Browsing, Event::Discovered(found)) => {
            if found.len() == 0 {
                Turn::Act(DiscoverState::ReportingNone, Action::Tell(Notice::NoDevicesFound))
            } else {
                visit(Queue { found, next: 0 })
            }
        },
        (DiscoverState::ReportingNone, Event::Done) => Turn::Done,
        (DiscoverState::Checking { queue, device }, Event::Credentials(Some(_))) => {
            let notice = Notice::KnownDevice {
                serial: device.serial,
                device_name: device.device_name,
            };
            Turn::Act(DiscoverState::TellingKnown { queue }, Action::Tell(notice))
        },
        (DiscoverState::Checking { queue, device }, Event::Credentials(None)) => {
            let notice = Notice::NewDevice {
                serial: device.serial.clone(),
                device_name: device.device_name.clone(),
            };
            Turn::Act(DiscoverState::TellingNew { queue, device }, Action::Tell(notice))
        },
        (DiscoverState::TellingKnown { queue }, Event::Done) => visit(queue),
        (DiscoverState::TellingNew { queue, device }, Event::Done) => Turn::Act(
            DiscoverState::Asking { queue, device },
            Action::Ask(Notice::PairQuestion),
        ),
        (DiscoverState::Asking { queue, device }, Event::Line(line)) => {
            if is_yes(line.as_str()) {
                let notice = Notice::NicknameQuestion(Some(device.device_name.clone()));
                Turn::Act(DiscoverState::Naming { queue, device }, Action::Ask(notice))
            } else {
                visit(queue)
            }
        },
        (DiscoverState::Naming { queue, device }, Event::Line(line)) => {
            let nickname = prompt_nickname(Some(device.device_name.clone()), line.as_str());
            Turn::Act(
                DiscoverState::CheckingDefault { queue, device, nickname },
                Action::GetDefault,
            )
        },
        (DiscoverState::CheckingDefault { queue, device, nickname }, Event::Default(None)) => {
            let action = Action::SetDefault(device.serial.clone());
            Turn::Act(DiscoverState::SettingDefault { queue, device, nickname }, action)
        },
        (DiscoverState::CheckingDefault { queue, device, nickname }, Event::Default(Some(_))) => {
            from_pairing(queue, begin_pairing(device.serial, nickname))
        },
        (DiscoverState::SettingDefault { queue, device, nickname }, Event::Done) => Turn::Act(
            DiscoverState::TellingDefault { queue, device, nickname },
            Action::Tell(Notice::MadeDefault),
        ),
        (DiscoverState::TellingDefault { queue, device, nickname }, Event::Done) => from_pairing(
            queue,
            begin_pairing(device.serial, nickname),
        ),
        (DiscoverState::Pairing { queue, pair }, event) => from_pairing(
            queue,
            pair_and_save(pair, event),
        ),
        (_, event) => Turn::Fail(failure_of(event)),
    }
}

} // verus!
