//! Laws of the registered devices.

use crate::command::DevicesCommands;
use crate::device::is_default_serial;
use crate::devices::{devices_begun, devices_steps, DevicesState};
use crate::laws::runs::{asks, is_devices_run};
use crate::notice::Notice;
use crate::protocol::{Action, Device, DeviceCredentials, Event, Turn};
use vstd::prelude::*;

verus! {

/// A turn follows from the one before it, which asks for an action.
proof fn lemma_step(
    first: Turn<DevicesState>,
    events: Seq<Event>,
    turns: Seq<Turn<DevicesState>>,
    i: int,
)
    requires
        is_devices_run(first, events, turns),
        0 < i < turns.len(),
    ensures
        turns[i - 1] is Act,
        devices_steps(turns[i - 1]->Act_0, events[i - 1], turns[i]),
{
    let event = events[i - 1];
}

/// Adding a device that ends well has put just that device into the store, and
/// has written the store.
pub proof fn law_add_saves_the_device(
    device_arg: Option<String>,
    serial: String,
    password: String,
    nickname: Option<String>,
    events: Seq<Event>,
    turns: Seq<Turn<DevicesState>>,
)
    requires
        is_devices_run(
            devices_begun(device_arg, DevicesCommands::Add { serial, password, nickname }),
            events,
            turns,
        ),
        turns.last() is Done,
    ensures
        turns.len() == 4,
        asks(
            turns[0],
            Action::SetDevice(
                Device { serial, credentials: DeviceCredentials { password, nickname } },
            ),
        ),
        asks(turns[1], Action::SaveStore),
        asks(turns[2], Action::Tell(Notice::DeviceAdded(serial))),
{
    lemma_step(turns[0], events, turns, 1);
    lemma_step(turns[0], events, turns, 2);
    lemma_step(turns[0], events, turns, 3);
    if turns.len() > 4 {
        lemma_step(turns[0], events, turns, 4);
    }
}

/// Removing a device that ends well has removed the device that was looked up
/// and nothing else; has cleared the default if, and only if, that device was
/// the default; and has written the store last.
pub proof fn law_remove_clears_a_default_that_is_gone(
    device_arg: Option<String>,
    identifier: String,
    events: Seq<Event>,
    turns: Seq<Turn<DevicesState>>,
)
    requires
        is_devices_run(
            devices_begun(device_arg, DevicesCommands::Remove { identifier }),
            events,
            turns,
        ),
        turns.last() is Done,
    ensures
        asks(turns[0], Action::Resolve(identifier)),
        events[0] is Found && events[0]->Found_0 is Some,
        asks(turns[1], Action::RemoveDevice(events[0]->Found_0->Some_0.serial)),
        events[1] is Removed && events[1]->Removed_removed,
        ({
            let serial = events[0]->Found_0->Some_0.serial;
            if is_default_serial(events[1]->Removed_default, serial@) {
                &&& turns.len() == 6
                &&& asks(turns[2], Action::ClearDefault)
                &&& asks(turns[3], Action::SaveStore)
                &&& asks(turns[4], Action::Tell(Notice::DeviceRemoved(serial)))
            } else {
                &&& turns.len() == 5
                &&& asks(turns[2], Action::SaveStore)
                &&& asks(turns[3], Action::Tell(Notice::DeviceRemoved(serial)))
            }
        }),
{
    lemma_step(turns[0], events, turns, 1);
    lemma_step(turns[0], events, turns, 2);
    lemma_step(turns[0], events, turns, 3);
    lemma_step(turns[0], events, turns, 4);
    if turns.len() > 5 {
        lemma_step(turns[0], events, turns, 5);
    }
    if turns.len() > 6 {
        lemma_step(turns[0], events, turns, 6);
    }
}

/// Setting the default that ends well has made the device that was looked up
/// the default, and has written the store.
pub proof fn law_set_default_saves_the_default(
    device_arg: Option<String>,
    identifier: String,
    events: Seq<Event>,
    turns: Seq<Turn<DevicesState>>,
)
    requires
        is_devices_run(
            devices_begun(device_arg, DevicesCommands::SetDefault { identifier }),
            events,
            turns,
        ),
        turns.last() is Done,
    ensures
        turns.len() == 5,
        asks(turns[0], Action::Resolve(identifier)),
        events[0] is Found && events[0]->Found_0 is Some,
        asks(turns[1], Action::SetDefault(events[0]->Found_0->Some_0.serial)),
        asks(turns[2], Action::SaveStore),
        asks(turns[3], Action::Tell(Notice::DefaultSet(events[0]->Found_0->Some_0.serial))),
{
    lemma_step(turns[0], events, turns, 1);
    lemma_step(turns[0], events, turns, 2);
    lemma_step(turns[0], events, turns, 3);
    lemma_step(turns[0], events, turns, 4);
    if turns.len() > 5 {
        lemma_step(turns[0], events, turns, 5);
    }
}

} // verus!
