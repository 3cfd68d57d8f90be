//! Pairing: the nickname question, and the steps from a serial number to saved
//! credentials.

use crate::notice::Notice;
use crate::protocol::{failed_with, failure_of, Action, Device, DeviceCredentials, Event, Turn};
use crate::text::{optional_view, trimmed};
use vstd::prelude::*;
use vstd::string::*;

verus! {

/// The nickname that a line chooses: what it says, or the default where it says
/// nothing.
pub open spec fn chosen_nickname(default: Option<Seq<char>>, line: Seq<char>) -> Option<
    Seq<char>,
> {
    if trimmed(line).len() == 0 {
        default
    } else {
        Some(trimmed(line))
    }
}

/// Takes the answer to the question for a nickname.
pub fn prompt_nickname(default: Option<String>, line: &str) -> (res: Option<String>)
    ensures
        optional_view(res) == chosen_nickname(optional_view(default), line@),
{
    let answer = line.trim();
    if answer.is_empty() {
        default
    } else {
        Some(answer.to_owned())
    }
}

/// Where pairing with a device stands.
pub enum PairState {
    /// The user is being told.
    Announcing { serial: String, nickname: Option<String> },
    /// The device is being asked for a password.
    Requesting { serial: String, nickname: Option<String> },
    /// The credentials are on their way into the store.
    Storing { serial: String },
    /// The store is being written.
    Saving { serial: String },
    /// The user is being told of the success.
    Reporting,
}

/// The first turn of pairing with a device under a nickname.
pub open spec fn pairing_begun(serial: String, nickname: Option<String>) -> Turn<PairState> {
    Turn::Act(
        PairState::Announcing { serial, nickname },
        Action::Tell(Notice::Pairing(serial)),
    )
}

/// Begins to pair with a device under a nickname.
pub fn begin_pairing(serial: String, nickname: Option<String>) -> (res: Turn<PairState>)
    ensures
        res == pairing_begun(serial, nickname),
{
    let notice = Notice::Pairing(serial.clone());
    Turn::Act(PairState::Announcing { serial, nickname }, Action::Tell(notice))
}

/// The turn that follows an event while pairing: announce, pair, store the
/// password under the nickname, save, report.
pub open spec fn pair_turn(state: PairState, event: Event) -> Turn<PairState> {
    match (state, event) {
        (PairState::Announcing { serial, nickname }, Event::Done) => Turn::Act(
            PairState::Requesting { serial, nickname },
            Action::PairDevice(serial),
        ),
        (PairState::Requesting { serial, nickname }, Event::Password(password)) => Turn::Act(
            PairState::Storing { serial },
            Action::SetDevice(
                Device { serial, credentials: DeviceCredentials { password, nickname } },
            ),
        ),
        (PairState::Storing { serial }, Event::Done) => Turn::Act(
            PairState::Saving { serial },
            Action::SaveStore,
        ),
        (PairState::Saving { serial }, Event::Done) => Turn::Act(
            PairState::Reporting,
            Action::Tell(Notice::Paired(serial)),
        ),
        (PairState::Reporting, Event::Done) => Turn::Done,
        (_, event) => Turn::Fail(failed_with(event)),
    }
}

/// Takes pairing one event further.
pub fn pair_and_save(state: PairState, event: Event) -> (res: Turn<PairState>)
    ensures
        res == pair_turn(state, event),
{
    match (state, event) {
        (PairState::Announcing { serial, nickname }, Event::Done) => {
            let action = Action::PairDevice(serial.clone());
            Turn::Act(PairState::Requesting { serial, nickname }, action)
        },
        (PairState::Requesting { serial, nickname }, Event::Password(password)) => {
            let device = Device {
                serial: serial.clone(),
                credentials: DeviceCredentials { password, nickname },
            };
            Turn::Act(PairState::Storing { serial }, Action::SetDevice(device))
        },
        (PairState::Storing { serial }, Event::Done) => Turn::Act(
            PairState::Saving { serial },
            Action::SaveStore,
        ),
        (PairState::Saving { serial }, Event::Done) => Turn::Act(
            PairState::Reporting,
            Action::Tell(Notice::Paired(serial)),
        ),
        (PairState::Reporting, Event::Done) => Turn::Done,
        (_, event) => Turn::Fail(failure_of(event)),
    }
}

} // verus!
