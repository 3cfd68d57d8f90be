//! Laws of pairing and of repair.

use crate::command::{Cli, Commands, WifiCommands};
use crate::laws::parts::{is_repairing, keeps_to, lemma_wifi_turn, lookup_of};
use crate::laws::runs::{asks, is_pair_run, is_repair_run, is_session_run, is_wifi_run};
use crate::notice::Notice;
use crate::pairing::{chosen_nickname, pair_turn, pairing_begun, PairState};
use crate::protocol::{
    failed_with, refused_credentials, Action, Device, DeviceCredentials, Event, Failure, Turn,
};
use crate::repair::{repair_begun, repair_turn, RepairState};
use crate::session::{session_begun, Session};
use crate::text::{optional_view, says_yes, trimmed};
use crate::wifi::{stored_nickname, wifi_begun, wifi_steps, while_pairing, WifiState};
use vstd::prelude::*;

verus! {

/// The device that goes into the store once it has handed out a password.
pub open spec fn paired_device(
    serial: String,
    password: String,
    nickname: Option<String>,
) -> Action {
    Action::SetDevice(Device { serial, credentials: DeviceCredentials { password, nickname } })
}

/// Turn `i` of a run of pairing, where it asks for an action.
spec fn pair_turn_at(
    serial: String,
    nickname: Option<String>,
    events: Seq<Event>,
    i: int,
    turn: Turn<PairState>,
) -> bool {
    if i == 0 {
        turn == pairing_begun(serial, nickname)
    } else if i == 1 {
        turn == Turn::Act(PairState::Requesting { serial, nickname }, Action::PairDevice(serial))
    } else if i == 2 {
        &&& events[1] matches Event::Password(password)
        &&& turn == Turn::Act(
            PairState::Storing { serial },
            paired_device(serial, password, nickname),
        )
    } else if i == 3 {
        turn == Turn::Act(PairState::Saving { serial }, Action::SaveStore)
    } else {
        &&& i == 4
        &&& turn == Turn::Act(PairState::Reporting, Action::Tell(Notice::Paired(serial)))
    }
}

proof fn lemma_pair_schedule(
    serial: String,
    nickname: Option<String>,
    events: Seq<Event>,
    turns: Seq<Turn<PairState>>,
    i: int,
)
    requires
        is_pair_run(pairing_begun(serial, nickname), events, turns),
        0 <= i < turns.len(),
    ensures
        turns[i] is Act ==> pair_turn_at(serial, nickname, events, i, turns[i]),
        turns[i] is Done ==> i == 5,
        turns[i] is Fail ==> i > 0 && turns[i]->Fail_0 == failed_with(events[i - 1]),
    decreases i,
{
    if i > 0 {
        lemma_pair_schedule(serial, nickname, events, turns, i - 1);
        let event = events[i - 1];
        assert(turns[i - 1] is Act && turns[i] == pair_turn(turns[i - 1]->Act_0, event));
    }
}

/// Pairing puts nothing into the store but the device itself, with the password
/// that it has just handed out and with the nickname that was chosen. Pairing
/// that ends well has put it there and has written the store afterwards.
pub proof fn law_pairing_saves_what_was_received(
    serial: String,
    nickname: Option<String>,
    events: Seq<Event>,
    turns: Seq<Turn<PairState>>,
)
    requires
        is_pair_run(pairing_begun(serial, nickname), events, turns),
    ensures
        forall|i: int|
            0 <= i < turns.len() && (#[trigger] turns[i]) is Act && turns[i]->Act_1 is SetDevice
                ==> {
                &&& i == 2
                &&& asks(turns[1], Action::PairDevice(serial))
                &&& events[1] matches Event::Password(password)
                &&& asks(turns[i], paired_device(serial, password, nickname))
            },
        turns.last() is Done ==> {
            &&& turns.len() == 6
            &&& asks(turns[1], Action::PairDevice(serial))
            &&& events[1] matches Event::Password(password)
            &&& asks(turns[2], paired_device(serial, password, nickname))
            &&& asks(turns[3], Action::SaveStore)
            &&& asks(turns[4], Action::Tell(Notice::Paired(serial)))
        },
{
    assert forall|i: int| 0 <= i < turns.len() && (#[trigger] turns[i]) is Act implies
        pair_turn_at(serial, nickname, events, i, turns[i]) by {
        lemma_pair_schedule(serial, nickname, events, turns, i);
    }
    if turns.len() > 2 {
        let event = events[1];
        assert(turns[1] is Act);
    }
    if turns.last() is Done {
        lemma_pair_schedule(serial, nickname, events, turns, turns.len() - 1);
        let event = events[2];
        let event = events[3];
        let event = events[4];
        assert(turns[2] is Act && turns[3] is Act && turns[4] is Act);
    }
}

/// Turn `i` of a run of repair, where it asks for an action.
spec fn repair_turn_at(
    failure: Failure,
    active: Option<String>,
    events: Seq<Event>,
    i: int,
    turn: Turn<RepairState>,
) -> bool {
    &&& refused_credentials(failure)
    &&& if i == 0 {
        turn == repair_begun(failure, active)
    } else {
        &&& active matches Some(serial)
        &&& if i == 1 {
            turn == Turn::Act(
                RepairState::Asking { failure, serial },
                Action::Ask(Notice::RepairQuestion(serial)),
            )
        } else {
            &&& events[1] matches Event::Line(line)
            &&& says_yes(line@)
            &&& if i == 2 {
                turn == Turn::Act(RepairState::LookingUp { serial }, Action::GetDevice(serial))
            } else {
                &&& events[2] matches Event::Credentials(known)
                &&& turn->Act_0 matches RepairState::Pairing(state)
                &&& pair_turn_at(
                    serial,
                    stored_nickname(known),
                    events.skip(3),
                    i - 3,
                    Turn::Act(state, turn->Act_1),
                )
            }
        }
    }
}

proof fn lemma_repair_schedule(
    failure: Failure,
    active: Option<String>,
    events: Seq<Event>,
    turns: Seq<Turn<RepairState>>,
    i: int,
)
    requires
        is_repair_run(repair_begun(failure, active), events, turns),
        0 <= i < turns.len(),
    ensures
        turns[i] is Act ==> repair_turn_at(failure, active, events, i, turns[i]),
        turns[i] is Done ==> i == 8,
        turns[i] is Fail ==> turns[i]->Fail_0 == failure || i > 0 && turns[i]->Fail_0
            == failed_with(events[i - 1]),
    decreases i,
{
    if i > 0 {
        lemma_repair_schedule(failure, active, events, turns, i - 1);
        let event = events[i - 1];
        assert(turns[i - 1] is Act && turns[i] == repair_turn(turns[i - 1]->Act_0, event));
        if i > 3 {
            assert(events.skip(3)[i - 4] == event);
        }
        if i == 5 {
            assert(events.skip(3)[1] == events[4]);
        }
    }
}

/// A failure that is not the device's refusal of the credentials is the outcome
/// at once: nothing is asked and nothing is changed.
pub proof fn law_other_failures_stand(
    failure: Failure,
    active: Option<String>,
    events: Seq<Event>,
    turns: Seq<Turn<RepairState>>,
)
    requires
        is_repair_run(repair_begun(failure, active), events, turns),
        !refused_credentials(failure),
    ensures
        events.len() == 0,
        turns == seq![Turn::<RepairState>::Fail(failure)],
{
    if events.len() > 0 {
        let event = events[0];
        assert(turns[0] is Act);
    }
    assert(turns =~= seq![Turn::<RepairState>::Fail(failure)]);
}

/// Where there is no active device, or the user does not say yes, the failure
/// stands and nothing is changed.
pub proof fn law_declined_repair_leaves_the_failure(
    failure: Failure,
    active: Option<String>,
    events: Seq<Event>,
    turns: Seq<Turn<RepairState>>,
)
    requires
        is_repair_run(repair_begun(failure, active), events, turns),
        refused_credentials(failure),
    ensures
        asks(turns[0], Action::Tell(Notice::Unauthorized)),
        active is None && events.len() > 0 && events[0] == Event::Done ==> turns.len() == 2
            && turns[1] == Turn::<RepairState>::Fail(failure),
        active is Some && events.len() > 1 && events[0] == Event::Done ==> {
            &&& asks(turns[1], Action::Ask(Notice::RepairQuestion(active->Some_0)))
            &&& (events[1] matches Event::Line(line) && !says_yes(line@) ==> turns.len() == 3
                && turns[2] == Turn::<RepairState>::Fail(failure))
        },
{
    if events.len() > 0 {
        let event = events[0];
        assert(turns[0] is Act && turns[1] == repair_turn(turns[0]->Act_0, event));
    }
    if events.len() > 1 {
        let event = events[1];
        assert(turns[1] is Act && turns[2] == repair_turn(turns[1]->Act_0, event));
    }
    if events.len() > 2 {
        let event = events[2];
        assert(turns[2] is Act);
    }
}

/// Repair that ends well was agreed to, and has paired with the active device
/// again: the store has the password that the device has just handed out, under
/// the nickname that the store had before, and has been written. Repair that
/// fails ends in the failure that it was about, or in that of its own last
/// action.
pub proof fn law_repair_pairs_again(
    failure: Failure,
    active: Option<String>,
    events: Seq<Event>,
    turns: Seq<Turn<RepairState>>,
)
    requires
        is_repair_run(repair_begun(failure, active), events, turns),
    ensures
        turns.last() is Done ==> {
            &&& refused_credentials(failure)
            &&& active matches Some(serial)
            &&& turns.len() == 9
            &&& events[1] matches Event::Line(line)
            &&& says_yes(line@)
            &&& asks(turns[2], Action::GetDevice(serial))
            &&& events[2] matches Event::Credentials(known)
            &&& asks(turns[4], Action::PairDevice(serial))
            &&& events[4] matches Event::Password(password)
            &&& asks(turns[5], paired_device(serial, password, stored_nickname(known)))
            &&& asks(turns[6], Action::SaveStore)
        },
        turns.last() is Fail ==> turns.last()->Fail_0 == failure || events.len() > 0
            && turns.last()->Fail_0 == failed_with(events.last()),
{
    lemma_repair_schedule(failure, active, events, turns, turns.len() - 1);
    if turns.last() is Done {
        assert forall|i: int| 0 <= i < 8 implies #[trigger] repair_turn_at(
            failure,
            active,
            events,
            i,
            turns[i],
        ) && turns[i] is Act by {
            let event = events[i];
            lemma_repair_schedule(failure, active, events, turns, i);
        }
        assert(repair_turn_at(failure, active, events, 2, turns[2]));
        assert(repair_turn_at(failure, active, events, 4, turns[4]));
        assert(repair_turn_at(failure, active, events, 5, turns[5]));
        assert(repair_turn_at(failure, active, events, 6, turns[6]));
        assert(events.skip(3)[1] == events[4]);
    }
}

/// The nickname that a state of the command to pair holds.
spec fn held_nickname(state: WifiState) -> Option<String> {
    match state {
        WifiState::Pairing(PairState::Announcing { nickname, .. }) => nickname,
        WifiState::Pairing(PairState::Requesting { nickname, .. }) => nickname,
        _ => None,
    }
}

/// The nickname that the answers so far choose.
spec fn is_chosen(events: Seq<Event>, nickname: Option<String>) -> bool {
    optional_view(nickname) == chosen_nickname(
        optional_view(stored_nickname(events[0]->Credentials_0)),
        events[1]->Line_0@,
    )
}

/// Turn `i` of the command to pair, where it asks for an action.
spec fn pair_command_turn_at(
    device_arg: Option<String>,
    serial: String,
    events: Seq<Event>,
    i: int,
    turn: Turn<WifiState>,
) -> bool {
    let nickname = held_nickname(turn->Act_0);
    if i == 0 {
        turn == wifi_begun(device_arg, WifiCommands::Pair { serial })
    } else if i == 1 {
        &&& events[0] matches Event::Credentials(known)
        &&& turn == Turn::Act(
            WifiState::Naming { serial, default: stored_nickname(known) },
            Action::Ask(Notice::NicknameQuestion(stored_nickname(known))),
        )
    } else {
        &&& events[0] is Credentials
        &&& events[1] is Line
        &&& if i == 2 {
            &&& is_chosen(events, nickname)
            &&& turn == while_pairing(pairing_begun(serial, nickname))
        } else if i == 3 {
            &&& is_chosen(events, nickname)
            &&& turn == Turn::Act(
                WifiState::Pairing(PairState::Requesting { serial, nickname }),
                Action::PairDevice(serial),
            )
        } else if i == 4 {
            &&& events[3] matches Event::Password(password)
            &&& turn->Act_0 == WifiState::Pairing(PairState::Storing { serial })
            &&& turn->Act_1 matches Action::SetDevice(device)
            &&& is_chosen(events, device.credentials.nickname)
            &&& turn->Act_1 == paired_device(serial, password, device.credentials.nickname)
        } else if i == 5 {
            turn == Turn::Act(
                WifiState::Pairing(PairState::Saving { serial }),
                Action::SaveStore,
            )
        } else {
            &&& i == 6
            &&& turn == Turn::Act(
                WifiState::Pairing(PairState::Reporting),
                Action::Tell(Notice::Paired(serial)),
            )
        }
    }
}

proof fn lemma_pair_command_schedule(
    device_arg: Option<String>,
    serial: String,
    events: Seq<Event>,
    turns: Seq<Turn<WifiState>>,
    i: int,
)
    requires
        is_wifi_run(wifi_begun(device_arg, WifiCommands::Pair { serial }), events, turns),
        0 <= i < turns.len(),
    ensures
        turns[i] is Act ==> pair_command_turn_at(device_arg, serial, events, i, turns[i]),
        turns[i] is Done ==> i == 7,
    decreases i,
{
    if i > 0 {
        lemma_pair_command_schedule(device_arg, serial, events, turns, i - 1);
        let event = events[i - 1];
        assert(turns[i - 1] is Act && wifi_steps(turns[i - 1]->Act_0, event, turns[i]));
    }
}

/// The command to pair asks for a nickname and offers the one that the store
/// has. Where it ends well, it has paired with the device of the command line,
/// has put it into the store with the password that it handed out and with the
/// nickname that the answer chooses, and has written the store afterwards.
pub proof fn law_pair_command_saves_the_device(
    device_arg: Option<String>,
    serial: String,
    events: Seq<Event>,
    turns: Seq<Turn<WifiState>>,
)
    requires
        is_wifi_run(wifi_begun(device_arg, WifiCommands::Pair { serial }), events, turns),
        turns.last() is Done,
    ensures
        turns.len() == 8,
        asks(turns[0], Action::GetDevice(serial)),
        events[0] is Credentials,
        asks(
            turns[1],
            Action::Ask(Notice::NicknameQuestion(stored_nickname(events[0]->Credentials_0))),
        ),
        events[1] is Line,
        asks(turns[2], Action::Tell(Notice::Pairing(serial))),
        asks(turns[3], Action::PairDevice(serial)),
        events[3] is Password,
        turns[4] is Act && turns[4]->Act_1 is SetDevice,
        ({
            let nickname = turns[4]->Act_1->SetDevice_0.credentials.nickname;
            &&& turns[4]->Act_1 == paired_device(serial, events[3]->Password_0, nickname)
            &&& optional_view(nickname) == chosen_nickname(
                optional_view(stored_nickname(events[0]->Credentials_0)),
                events[1]->Line_0@,
            )
        }),
        asks(turns[5], Action::SaveStore),
        asks(turns[6], Action::Tell(Notice::Paired(serial))),
{
    lemma_pair_command_schedule(device_arg, serial, events, turns, turns.len() - 1);
    assert forall|i: int| 0 <= i < turns.len() - 1 implies (#[trigger] turns[i]) is Act
        && pair_command_turn_at(device_arg, serial, events, i, turns[i]) by {
        lemma_pair_command_schedule(device_arg, serial, events, turns, i);
        let event = events[i];
    }
    assert(turns[0] is Act && turns[1] is Act && turns[2] is Act && turns[3] is Act);
    assert(turns[4] is Act && turns[5] is Act && turns[6] is Act);
}

/// The nickname that a line chooses where there may be one to keep: what it says,
/// without the white space around it, or the one to keep where that is nothing.
pub open spec fn chooses(kept: Option<String>, line: Seq<char>, nickname: Option<String>) -> bool {
    if trimmed(line).len() == 0 {
        optional_view(nickname) == optional_view(kept)
    } else {
        optional_view(nickname) == Some(trimmed(line))
    }
}

/// Pairing, from the command line on: the store is asked for the device that the
/// command line names, the nickname that the store has for it is offered, and the
/// device is paired with: it goes into the store with the password that it handed
/// out and the nickname that the answer chooses, the store is written, and that is
/// reported.
pub proof fn law_pair(
    cli: Cli,
    serial: String,
    events: Seq<Event>,
    turns: Seq<Turn<Session>>,
)
    requires
        is_session_run(session_begun(cli), events, turns),
        cli.command == Commands::Wifi(WifiCommands::Pair { serial }),
    ensures
        keeps_to(
            turns,
            8,
            |i: int, action: Action|
                {
                    let known = events[1]->Credentials_0;
                    let kept = if known is Some { known->Some_0.nickname } else { None };
                    &&& i == 0 ==> action == lookup_of(cli.device)
                    &&& i == 1 ==> action == Action::GetDevice(serial)
                    &&& i >= 2 ==> events[1] is Credentials
                    &&& i == 2 ==> action == Action::Ask(Notice::NicknameQuestion(kept))
                    &&& i >= 3 ==> events[2] is Line
                    &&& i == 3 ==> action == Action::Tell(Notice::Pairing(serial))
                    &&& i == 4 ==> action == Action::PairDevice(serial)
                    &&& i == 5 ==> {
                        &&& events[4] matches Event::Password(password)
                        &&& action matches Action::SetDevice(device)
                        &&& device.serial == serial
                        &&& device.credentials.password == password
                        &&& chooses(kept, events[2]->Line_0@, device.credentials.nickname)
                    }
                    &&& i == 6 ==> action == Action::SaveStore
                    &&& i == 7 ==> action == Action::Tell(Notice::Paired(serial))
                },
        ),
{
    assert forall|i: int|
        0 < i < turns.len() && !is_repairing(turns, i) && !(
        #[trigger] turns[i] is Fail) implies (turns[i] is Done ==> i == 8) && (turns[i] is Act
        ==> exists|turn: Turn<WifiState>|
        turn is Act && turn->Act_1 == turns[i]->Act_1 && #[trigger] pair_command_turn_at(
            cli.device,
            serial,
            events.skip(1),
            i - 1,
            turn,
        )) by {
        let part = lemma_wifi_turn(cli, WifiCommands::Pair { serial }, events, turns, i);
        let inner = events.subrange(1, part.len() as int);
        lemma_pair_command_schedule(cli.device, serial, inner, part, i - 1);
        if turns[i] is Act {
            assert(forall|k: int| 0 <= k < i - 1 ==> inner[k] == events.skip(1)[k]);
            assert(pair_command_turn_at(cli.device, serial, events.skip(1), i - 1, part[i - 1]));
        }
    }
}

} // verus!
