//! Repair: after a device has refused the credentials, the offer to pair with
//! it again.

use crate::notice::Notice;
use crate::pairing::{begin_pairing, pair_and_save, pair_turn, pairing_begun, PairState};
use crate::protocol::{
    failed_with, failure_of, is_unauthorized, refused_credentials, Action, Event, Failure, Turn,
};
use crate::text::{is_yes, says_yes};
use crate::wifi::{nickname_of, stored_nickname};
use vstd::prelude::*;

verus! {

/// Where repair stands. The failure that it is about is kept for as long as it
/// may still be the outcome.
pub enum RepairState {
    /// The user is being told of the refusal.
    Telling { failure: Failure, active: Option<String> },
    /// The user is being asked whether to pair again.
    Asking { failure: Failure, serial: String },
    /// The store is being asked for the device's nickname.
    LookingUp { serial: String },
    /// The device is being paired with.
    Pairing(PairState),
}

/// The first turn after a failure: repair where the credentials were refused,
/// else the failure itself.
pub open spec fn repair_begun(failure: Failure, active: Option<String>) -> Turn<RepairState> {
    if refused_credentials(failure) {
        Turn::Act(RepairState::Telling { failure, active }, Action::Tell(Notice::Unauthorized))
    } else {
        Turn::Fail(failure)
    }
}

/// Begins repair after a failure, if that is due.
pub fn begin_repair(failure: Failure, active: Option<String>) -> (res: Turn<RepairState>)
    ensures
        res == repair_begun(failure, active),
{
    if is_unauthorized(&failure) {
        Turn::Act(RepairState::Telling { failure, active }, Action::Tell(Notice::Unauthorized))
    } else {
        Turn::Fail(failure)
    }
}

/// The turn of repair that a turn of pairing stands for.
pub open spec fn while_pairing(turn: Turn<PairState>) -> Turn<RepairState> {
    match turn {
        Turn::Act(state, action) => Turn::Act(RepairState::Pairing(state), action),
        Turn::Done => Turn::Done,
        Turn::Fail(failure) => Turn::Fail(failure),
    }
}

/// Takes a turn of pairing for one of repair.
fn from_pairing(turn: Turn<PairState>) -> (res: Turn<RepairState>)
    ensures
        res == while_pairing(turn),
{
    match turn {
        Turn::Act(state, action) => Turn::Act(RepairState::Pairing(state), action),
        Turn::Done => Turn::Done,
        Turn::Fail(failure) => Turn::Fail(failure),
    }
}

/// The turn that follows an event during repair. The device is paired with
/// under the nickname that the store has for it; without an active device, or
/// where the user declines, the failure stands.
pub open spec fn repair_turn(state: RepairState, event: Event) -> Turn<RepairState> {
    match (state, event) {
        (RepairState::Telling { failure, active: Some(serial) }, Event::Done) => Turn::Act(
            RepairState::Asking { failure, serial },
            Action::Ask(Notice::RepairQuestion(serial)),
        ),
        (RepairState::Telling { failure, active: None }, Event::Done) => Turn::Fail(failure),
        (RepairState::Asking { failure, serial }, Event::Line(line)) => if says_yes(line@) {
            Turn::Act(RepairState::LookingUp { serial }, Action::GetDevice(serial))
        } else {
            Turn::Fail(failure)
        },
        (RepairState::LookingUp { serial }, Event::Credentials(credentials)) => while_pairing(
            pairing_begun(serial, stored_nickname(credentials)),
        ),
        (RepairState::Pairing(state), event) => while_pairing(pair_turn(state, event)),
        (_, event) => Turn::Fail(failed_with(event)),
    }
}

/// Takes repair one event further.
pub fn try_repair_on_unauthorized(state: RepairState, event: Event) -> (res: Turn<RepairState>)
    ensures
        res == repair_turn(state, event),
{
    match (state, event) {
        (RepairState::Telling { failure, active }, Event::Done) => match active {
            Some(serial) => {
                let notice = Notice::RepairQuestion(serial.clone());
                Turn::Act(RepairState::Asking { failure, serial }, Action::Ask(notice))
            },
            None => Turn::Fail(failure),
        },
        (RepairState::Asking { failure, serial }, Event::Line(line)) => {
            if is_yes(line.as_str()) {
                let action = Action::GetDevice(serial.clone());
                Turn::Act(RepairState::LookingUp { serial }, action)
            } else {
                Turn::Fail(failure)
            }
        },
        (RepairState::LookingUp { serial }, Event::Credentials(credentials)) => from_pairing(
            begin_pairing(serial, nickname_of(credentials)),
        ),
        (RepairState::Pairing(state), event) => from_pairing(pair_and_save(state, event)),
        (_, event) => Turn::Fail(failure_of(event)),
    }
}

} // verus!
