//! Laws of outcomes: which failures end a run, from the command line on, and what
//! repair does after a device has refused the credentials.

use crate::activity::{activity_steps, ActivityState};
use crate::command::{Cli, Commands, DeviceCommands, DevicesCommands, WifiCommands};
use crate::devices::{devices_steps, DevicesState};
use crate::discover::{discover_steps, DiscoverState};
use crate::laws::in_step::{answers, law_only_answers_are_taken};
use crate::laws::parts::{is_repairing, lookup_of, serial_in};
use crate::laws::runs::{asks, is_session_run};
use crate::notice::{Notice, Problem};
use crate::pairing::PairState;
use crate::protocol::{
    Action, Cause, Device, DeviceCredentials, Event, Failure, Turn,
};
use crate::repair::RepairState;
use crate::session::{
    session_begun, session_steps, while_on_activity, while_on_devices, while_on_wifi,
    NetworkCommand, Session,
};
use crate::text::says_yes;
use crate::usb::UsbState;
use crate::wifi::{while_discovering, wifi_steps, WifiState};
use vstd::prelude::*;

verus! {

/// A command that talks to a device over the network.
pub open spec fn is_network_command(cli: Cli) -> bool {
    cli.command is Wifi || cli.command is Activity
}

/// What the error of an action is put down to.
pub open spec fn blame(cli: Cli, action: Action) -> Option<Problem> {
    match action {
        Action::ReadFile(path) => Some(Problem::ReadFailed(path)),
        Action::ReadMusic(k) => match cli.command {
            Commands::Wifi(WifiCommands::OnDevice(DeviceCommands::UploadMusic(files))) => Some(
                Problem::ReadFailed(files@[k as int].display),
            ),
            _ => None,
        },
        Action::WriteFile { host_path, .. } => Some(Problem::WriteFailed(host_path)),
        Action::FindPort => Some(Problem::EnumerateFailed),
        _ => None,
    }
}

/// The failure that the failed action of turn `i` stands for.
pub open spec fn error_at(
    cli: Cli,
    events: Seq<Event>,
    turns: Seq<Turn<Session>>,
    i: int,
) -> Failure {
    Failure::Action { problem: blame(cli, turns[i]->Act_1), error: events[i]->Failed_0 }
}

/// An error with the device's refusal of the credentials among its causes.
pub open spec fn says_unauthorized(event: Event) -> bool {
    &&& event matches Event::Failed(error)
    &&& error.causes@.contains(Cause::Unauthorized)
}

/// The reason to refuse the command that an answer gives, if it gives one: the
/// device of the command line is not there, there is no port, or it is the turn of
/// a music file without a usable name. The first lookup of a command that talks to
/// a device is for repair alone, and refuses nothing.
pub open spec fn refusal(
    cli: Cli,
    events: Seq<Event>,
    turns: Seq<Turn<Session>>,
    i: int,
) -> Option<Problem> {
    match (turns[i]->Act_1, events[i]) {
        (Action::Resolve(identifier), Event::Found(None)) => match cli.command {
            Commands::Devices(DevicesCommands::Get { .. }) => Some(Problem::NotInStore(identifier)),
            Commands::Devices(_) => Some(Problem::NotFound(identifier)),
            _ => if i == 0 {
                None
            } else {
                Some(Problem::NotInStore(identifier))
            },
        },
        (Action::FindDefault, Event::Found(None)) => if i == 0 && is_network_command(cli) {
            None
        } else {
            Some(Problem::NoDefault)
        },
        (Action::RemoveDevice(_), Event::Removed { removed: false, .. }) => match cli.command {
            Commands::Devices(DevicesCommands::Remove { identifier }) => Some(
                Problem::NotFound(identifier),
            ),
            _ => None,
        },
        (Action::FindPort, Event::Port(None)) => Some(Problem::NoUsbDevice),
        (_, Event::Done) => match cli.command {
            Commands::Wifi(WifiCommands::OnDevice(DeviceCommands::UploadMusic(files))) => {
                let k = (i - 2) / 3;
                if i >= 2 && (i - 2) % 3 == 0 && k < files@.len() && files@[k].name is None {
                    Some(Problem::InvalidFileName(files@[k].display))
                } else {
                    None
                }
            },
            _ => None,
        },
        _ => None,
    }
}

/// An action whose error is put down to something, or whose answer may refuse the
/// command.
spec fn is_watched(action: Action) -> bool {
    match action {
        Action::ReadFile(_)
        | Action::ReadMusic(_)
        | Action::WriteFile { .. }
        | Action::FindPort
        | Action::Resolve(_)
        | Action::FindDefault
        | Action::RemoveDevice(_) => true,
        _ => false,
    }
}

spec fn is_music(command: WifiCommands) -> bool {
    command matches WifiCommands::OnDevice(command) && command is UploadMusic
}

/// What holds of a state of a command over Wi-Fi and of the action of its turn.
spec fn wifi_fits(
    device: Option<String>,
    command: WifiCommands,
    i: int,
    state: WifiState,
    action: Action,
) -> bool {
    &&& action != Action::Tell(Notice::Unauthorized)
    &&& i >= 1
    &&& match state {
        WifiState::Finding { device_arg, command: inner } => {
            &&& i == 1
            &&& device_arg == device
            &&& command == WifiCommands::OnDevice(inner)
            &&& action == lookup_of(device)
        },
        WifiState::Connecting { command: inner } => {
            &&& i == 2
            &&& command == WifiCommands::OnDevice(inner)
            &&& action is Connect
        },
        WifiState::ReadingMusic { queue, display, .. } => {
            &&& command == WifiCommands::OnDevice(DeviceCommands::UploadMusic(queue.files))
            &&& 1 <= queue.next <= queue.files@.len()
            &&& i == 3 * queue.next
            &&& action == Action::ReadMusic((queue.next - 1) as usize)
            &&& display == queue.files@[queue.next - 1].display
        },
        WifiState::UploadingMusic { queue, .. } => {
            &&& command == WifiCommands::OnDevice(DeviceCommands::UploadMusic(queue.files))
            &&& 1 <= queue.next <= queue.files@.len()
            &&& i == 3 * queue.next + 1
            &&& action is Upload
        },
        WifiState::TellingMusic { queue } => {
            &&& command == WifiCommands::OnDevice(DeviceCommands::UploadMusic(queue.files))
            &&& 1 <= queue.next <= queue.files@.len()
            &&& i == 3 * queue.next + 2
            &&& action is Tell
        },
        WifiState::ReadingFile(args) => !is_music(command) && action == Action::ReadFile(
            args.host_path,
        ),
        WifiState::Writing { args, .. } => {
            &&& !is_music(command)
            &&& action is WriteFile
            &&& action->WriteFile_host_path == args.host_path
        },
        _ => !is_music(command) && !is_watched(action),
    }
}

spec fn activity_fits(device: Option<String>, i: int, state: ActivityState, action: Action) -> bool {
    &&& action != Action::Tell(Notice::Unauthorized)
    &&& i >= 1
    &&& match state {
        ActivityState::Preparing { device_arg, .. } => device_arg == device && !is_watched(action),
        ActivityState::Finding { device_arg, .. } => device_arg == device && action == lookup_of(
            device,
        ),
        _ => !is_watched(action),
    }
}

spec fn usb_fits(state: UsbState, action: Action) -> bool {
    &&& action != Action::Tell(Notice::Unauthorized)
    &&& match state {
        UsbState::FindingPort(_) => action == Action::FindPort,
        _ => !is_watched(action),
    }
}

spec fn devices_fits(
    device: Option<String>,
    command: DevicesCommands,
    state: DevicesState,
    action: Action,
) -> bool {
    &&& action != Action::Tell(Notice::Unauthorized)
    &&& match state {
        DevicesState::Finding { device_arg, .. } => {
            &&& command is Get
            &&& device_arg == device
            &&& action == lookup_of(device)
        },
        DevicesState::FindingRemoved { identifier } => {
            &&& command == (DevicesCommands::Remove { identifier })
            &&& action == Action::Resolve(identifier)
        },
        DevicesState::FindingDefault { identifier } => {
            &&& command == (DevicesCommands::SetDefault { identifier })
            &&& action == Action::Resolve(identifier)
        },
        DevicesState::Removing { identifier, .. } => {
            &&& command == (DevicesCommands::Remove { identifier })
            &&& action is RemoveDevice
        },
        DevicesState::Saving { then_tell } => !(then_tell is Unauthorized) && !is_watched(action),
        _ => !is_watched(action),
    }
}

/// How many turns repair has taken in a state.
spec fn repair_turns(state: RepairState) -> int {
    match state {
        RepairState::Telling { .. } => 0,
        RepairState::Asking { .. } => 1,
        RepairState::LookingUp { .. } => 2,
        RepairState::Pairing(PairState::Announcing { .. }) => 3,
        RepairState::Pairing(PairState::Requesting { .. }) => 4,
        RepairState::Pairing(PairState::Storing { .. }) => 5,
        RepairState::Pairing(PairState::Saving { .. }) => 6,
        RepairState::Pairing(PairState::Reporting) => 7,
    }
}

/// The nickname among the credentials that the store may have had.
pub open spec fn nickname_in(known: Option<DeviceCredentials>) -> Option<String> {
    match known {
        Some(credentials) => credentials.nickname,
        None => None,
    }
}

/// What repair asks for `m` turns after turn `j`, at which it begins: it tells of
/// the refusal, asks whether to pair again with the device that the first lookup
/// found, by its serial number, asks the store for that device, and pairs with it
/// under the nickname that the store has: the password that it hands out goes into
/// the store, and the store is written.
pub open spec fn repairs(events: Seq<Event>, j: int, m: int, action: Action) -> bool {
    &&& m == 0 ==> action == Action::Tell(Notice::Unauthorized)
    &&& m >= 1 ==> {
        &&& events[0] matches Event::Found(Some(device))
        &&& m == 1 ==> action == Action::Ask(Notice::RepairQuestion(device.serial))
        &&& m >= 2 ==> events[j + 1] is Line && says_yes(events[j + 1]->Line_0@)
        &&& m == 2 ==> action == Action::GetDevice(device.serial)
        &&& m >= 3 ==> events[j + 2] is Credentials
        &&& m == 3 ==> action == Action::Tell(Notice::Pairing(device.serial))
        &&& m == 4 ==> action == Action::PairDevice(device.serial)
        &&& m >= 5 ==> events[j + 4] is Password
        &&& m == 5 ==> action == Action::SetDevice(
            Device {
                serial: device.serial,
                credentials: DeviceCredentials {
                    password: events[j + 4]->Password_0,
                    nickname: nickname_in(events[j + 2]->Credentials_0),
                },
            },
        )
        &&& m == 6 ==> action == Action::SaveStore
        &&& m == 7 ==> action == Action::Tell(Notice::Paired(device.serial))
    }
}

/// What holds of a state of repair and of the action of its turn.
spec fn repair_fits(
    cli: Cli,
    events: Seq<Event>,
    turns: Seq<Turn<Session>>,
    i: int,
    state: RepairState,
    action: Action,
) -> bool {
    let m = repair_turns(state);
    let j = i - m;
    &&& is_network_command(cli)
    &&& j >= 2
    &&& events[0] is Found
    &&& asks(turns[j], Action::Tell(Notice::Unauthorized))
    &&& forall|k: int| 0 <= k < j ==> !asks(#[trigger] turns[k], Action::Tell(Notice::Unauthorized))
    &&& says_unauthorized(events[j - 1])
    &&& repairs(events, j, m, action)
    &&& match state {
        RepairState::Telling { failure, active } => {
            &&& failure == error_at(cli, events, turns, j - 1)
            &&& active == serial_in(events[0]->Found_0)
        },
        RepairState::Asking { failure, serial } => {
            &&& failure == error_at(cli, events, turns, j - 1)
            &&& serial_in(events[0]->Found_0) == Some(serial)
        },
        RepairState::LookingUp { serial } => serial_in(events[0]->Found_0) == Some(serial),
        RepairState::Pairing(PairState::Announcing { serial, nickname })
        | RepairState::Pairing(PairState::Requesting { serial, nickname }) => {
            &&& serial_in(events[0]->Found_0) == Some(serial)
            &&& nickname == nickname_in(events[j + 2]->Credentials_0)
        },
        RepairState::Pairing(PairState::Storing { serial })
        | RepairState::Pairing(PairState::Saving { serial }) => serial_in(events[0]->Found_0)
            == Some(serial),
        RepairState::Pairing(PairState::Reporting) => true,
    }
}

/// What holds of the state and of the action of turn `i`.
spec fn session_fits(
    cli: Cli,
    events: Seq<Event>,
    turns: Seq<Turn<Session>>,
    i: int,
    session: Session,
    action: Action,
) -> bool {
    match session {
        Session::FindingActive { device_arg, command } => {
            &&& i == 0
            &&& device_arg == cli.device
            &&& action == lookup_of(cli.device)
            &&& cli.command == (match command {
                NetworkCommand::Wifi(command) => Commands::Wifi(command),
                NetworkCommand::Activity(command) => Commands::Activity(command),
            })
        },
        Session::Wifi { state, active } => {
            &&& cli.command matches Commands::Wifi(command)
            &&& events[0] matches Event::Found(found)
            &&& active == serial_in(found)
            &&& wifi_fits(cli.device, command, i, state, action)
        },
        Session::Activity { state, active } => {
            &&& cli.command is Activity
            &&& events[0] matches Event::Found(found)
            &&& active == serial_in(found)
            &&& activity_fits(cli.device, i, state, action)
        },
        Session::Repairing(state) => repair_fits(cli, events, turns, i, state, action),
        Session::Usb(state) => cli.command is Usb && usb_fits(state, action),
        Session::Devices(state) => {
            &&& cli.command matches Commands::Devices(command)
            &&& devices_fits(cli.device, command, state, action)
        },
        Session::Generating(_) => {
            &&& !is_network_command(cli)
            &&& !is_watched(action)
            &&& action != Action::Tell(Notice::Unauthorized)
        },
        Session::Reporting => {
            &&& !is_network_command(cli)
            &&& !is_watched(action)
            &&& action != Action::Tell(Notice::Unauthorized)
        },
    }
}

/// Whether a state is one of repair, and whether a turn is, is the same.
spec fn turn_fits(cli: Cli, events: Seq<Event>, turns: Seq<Turn<Session>>, i: int) -> bool {
    turns[i] matches Turn::Act(session, action) ==> {
        &&& session_fits(cli, events, turns, i, session, action)
        &&& session is Repairing <==> is_repairing(turns, i)
    }
}

/// How a run goes on after turn `i`: an error ends it, unless it is the device's
/// refusal of the credentials during a command that talks to one, which begins
/// repair; an event that does not answer ends it; an answer that gives a reason to
/// refuse the command ends it; and repair that is declined, or for which there is
/// no device, ends in the error that it was about. Nothing else ends in failure.
pub open spec fn goes_on_as_said(
    cli: Cli,
    events: Seq<Event>,
    turns: Seq<Turn<Session>>,
    i: int,
) -> bool {
    let action = turns[i]->Act_1;
    let event = events[i];
    let next = turns[i + 1];
    if event is Failed {
        if is_network_command(cli) && i > 0 && !is_repairing(turns, i) && says_unauthorized(
            event,
        ) {
            asks(next, Action::Tell(Notice::Unauthorized))
        } else {
            next == Turn::<Session>::Fail(error_at(cli, events, turns, i))
        }
    } else if !answers(action, event) {
        next == Turn::<Session>::Fail(Failure::OutOfStep)
    } else if !is_repairing(turns, i) {
        match refusal(cli, events, turns, i) {
            Some(problem) => next == Turn::<Session>::Fail(Failure::Refused(problem)),
            None => !(next is Fail),
        }
    } else if action == Action::Tell(Notice::Unauthorized) && events[0] == Event::Found(None) {
        next == Turn::<Session>::Fail(error_at(cli, events, turns, i - 1))
    } else if action is Ask && !says_yes(events[i]->Line_0@) {
        next == Turn::<Session>::Fail(error_at(cli, events, turns, i - 2))
    } else {
        !(next is Fail)
    }
}

/// What a step of a command over Wi-Fi does, for the run of the tool.
#[verifier::rlimit(40)]
proof fn lemma_wifi_step(
    device: Option<String>,
    command: WifiCommands,
    i: int,
    state: WifiState,
    action: Action,
    event: Event,
    turn: Turn<WifiState>,
)
    requires
        wifi_fits(device, command, i, state, action),
        wifi_steps(state, event, turn),
    ensures
        turn matches Turn::Act(next, asked) ==> wifi_fits(device, command, i + 1, next, asked),
{
    if let WifiState::Discovering(inner) = state {
        let step = choose|step: Turn<DiscoverState>| #[trigger]
            discover_steps(inner, event, step) && turn == while_discovering(step);
        assert(discover_steps(inner, event, step));
    }
    if let WifiCommands::OnDevice(DeviceCommands::UploadMusic(files)) = command {
        assert(files.len() == files@.len());
    }
}

/// How a step of a command over Wi-Fi fails.
#[verifier::rlimit(40)]
proof fn lemma_wifi_failure(
    cli: Cli,
    command: WifiCommands,
    events: Seq<Event>,
    turns: Seq<Turn<Session>>,
    i: int,
    state: WifiState,
    step: Turn<WifiState>,
)
    requires
        cli.command == Commands::Wifi(command),
        wifi_fits(cli.device, command, i, state, turns[i]->Act_1),
        wifi_steps(state, events[i], step),
    ensures
        events[i] is Failed ==> step == Turn::<WifiState>::Fail(error_at(cli, events, turns, i)),
        !(events[i] is Failed) && step != Turn::<WifiState>::Fail(Failure::OutOfStep) ==> match
            refusal(cli, events, turns, i) {
            Some(problem) => step == Turn::<WifiState>::Fail(Failure::Refused(problem)),
            None => !(step is Fail),
        },
{
    if let WifiState::Discovering(inner) = state {
        let found = choose|found: Turn<DiscoverState>| #[trigger]
            discover_steps(inner, events[i], found) && step == while_discovering(found);
        assert(discover_steps(inner, events[i], found));
    }
    if let WifiCommands::OnDevice(DeviceCommands::UploadMusic(files)) = command {
        assert(files.len() == files@.len());
        if let WifiState::TellingMusic { queue } = state {
            assert((i - 2) / 3 == queue.next && (i - 2) % 3 == 0);
        }
        if let WifiState::UploadingMusic { queue, .. } = state {
            assert((i - 2) % 3 == 2);
        }
        if let WifiState::ReadingMusic { queue, .. } = state {
            assert((i - 2) % 3 == 1);
        }
    }
}

/// Nothing before turn `i` began repair, so turn `i` is the first that may.
proof fn lemma_repair_begins(turns: Seq<Turn<Session>>, i: int)
    requires
        i >= 0,
        !is_repairing(turns, i),
    ensures
        is_repairing(turns, i + 1) <==> asks(turns[i + 1], Action::Tell(Notice::Unauthorized)),
        forall|k: int|
            0 <= k < i + 1 ==> !asks(#[trigger] turns[k], Action::Tell(Notice::Unauthorized)),
{
    if is_repairing(turns, i + 1) {
        let j = choose|j: int|
            0 <= j <= i + 1 && asks(#[trigger] turns[j], Action::Tell(Notice::Unauthorized));
        assert(j == i + 1);
    }
    if asks(turns[i + 1], Action::Tell(Notice::Unauthorized)) {
        assert(is_repairing(turns, i + 1));
    }
}

proof fn lemma_wifi_goes_on(
    cli: Cli,
    events: Seq<Event>,
    turns: Seq<Turn<Session>>,
    i: int,
)
    requires
        is_session_run(session_begun(cli), events, turns),
        0 <= i < events.len(),
        turns[i] is Act && turns[i]->Act_0 is Wifi,
        turn_fits(cli, events, turns, i),
    ensures
        turn_fits(cli, events, turns, i + 1),
        goes_on_as_said(cli, events, turns, i),
{
    law_only_answers_are_taken(cli, events, turns, i);
    let event = events[i];
    let session = turns[i]->Act_0;
    assert(session_steps(session, event, turns[i + 1]));
    let state = session->Wifi_state;
    let active = session->Wifi_active;
    let command = cli.command->Wifi_0;
    let step = choose|step: Turn<WifiState>| #[trigger]
        wifi_steps(state, event, step) && turns[i + 1] == while_on_wifi(active, step);
    lemma_wifi_step(cli.device, command, i, state, turns[i]->Act_1, event, step);
    lemma_wifi_failure(cli, command, events, turns, i, state, step);
    lemma_repair_begins(turns, i);
}

/// What a step of an activity command does, and how it fails.
proof fn lemma_activity_step(
    cli: Cli,
    events: Seq<Event>,
    turns: Seq<Turn<Session>>,
    i: int,
    state: ActivityState,
    step: Turn<ActivityState>,
)
    requires
        cli.command is Activity,
        activity_fits(cli.device, i, state, turns[i]->Act_1),
        activity_steps(state, events[i], step),
    ensures
        step matches Turn::Act(next, asked) ==> activity_fits(cli.device, i + 1, next, asked),
        events[i] is Failed ==> step == Turn::<ActivityState>::Fail(
            error_at(cli, events, turns, i),
        ),
        !(events[i] is Failed) && step != Turn::<ActivityState>::Fail(Failure::OutOfStep) ==> match
            refusal(cli, events, turns, i) {
            Some(problem) => step == Turn::<ActivityState>::Fail(Failure::Refused(problem)),
            None => !(step is Fail),
        },
{
}

proof fn lemma_activity_goes_on(
    cli: Cli,
    events: Seq<Event>,
    turns: Seq<Turn<Session>>,
    i: int,
)
    requires
        is_session_run(session_begun(cli), events, turns),
        0 <= i < events.len(),
        turns[i] is Act && turns[i]->Act_0 is Activity,
        turn_fits(cli, events, turns, i),
    ensures
        turn_fits(cli, events, turns, i + 1),
        goes_on_as_said(cli, events, turns, i),
{
    law_only_answers_are_taken(cli, events, turns, i);
    let event = events[i];
    let session = turns[i]->Act_0;
    assert(session_steps(session, event, turns[i + 1]));
    let state = session->Activity_state;
    let active = session->Activity_active;
    let step = choose|step: Turn<ActivityState>| #[trigger]
        activity_steps(state, event, step) && turns[i + 1] == while_on_activity(active, step);
    lemma_activity_step(cli, events, turns, i, state, step);
    lemma_repair_begins(turns, i);
}

proof fn lemma_devices_goes_on(
    cli: Cli,
    events: Seq<Event>,
    turns: Seq<Turn<Session>>,
    i: int,
)
    requires
        is_session_run(session_begun(cli), events, turns),
        0 <= i < events.len(),
        turns[i] is Act && turns[i]->Act_0 is Devices,
        turn_fits(cli, events, turns, i),
    ensures
        turn_fits(cli, events, turns, i + 1),
        goes_on_as_said(cli, events, turns, i),
{
    law_only_answers_are_taken(cli, events, turns, i);
    let event = events[i];
    let session = turns[i]->Act_0;
    assert(session_steps(session, event, turns[i + 1]));
    let state = session->Devices_0;
    let step = choose|step: Turn<DevicesState>| #[trigger]
        devices_steps(state, event, step) && turns[i + 1] == while_on_devices(step);
    assert(devices_steps(state, event, step));
    lemma_repair_begins(turns, i);
}

proof fn lemma_repair_goes_on(
    cli: Cli,
    events: Seq<Event>,
    turns: Seq<Turn<Session>>,
    i: int,
)
    requires
        is_session_run(session_begun(cli), events, turns),
        0 <= i < events.len(),
        turns[i] is Act && turns[i]->Act_0 is Repairing,
        turn_fits(cli, events, turns, i),
    ensures
        turn_fits(cli, events, turns, i + 1),
        goes_on_as_said(cli, events, turns, i),
        turns[i + 1] is Done ==> repair_turns(turns[i]->Act_0->Repairing_0) == 7,
{
    law_only_answers_are_taken(cli, events, turns, i);
    let event = events[i];
    assert(session_steps(turns[i]->Act_0, event, turns[i + 1]));
    let state = turns[i]->Act_0->Repairing_0;
    let j = i - repair_turns(state);
    assert(is_repairing(turns, i + 1)) by {
        assert(asks(turns[j], Action::Tell(Notice::Unauthorized)));
    }
}

proof fn lemma_goes_on(cli: Cli, events: Seq<Event>, turns: Seq<Turn<Session>>, i: int)
    requires
        is_session_run(session_begun(cli), events, turns),
        0 <= i < events.len(),
        turn_fits(cli, events, turns, i),
    ensures
        turn_fits(cli, events, turns, i + 1),
        goes_on_as_said(cli, events, turns, i),
{
    let event = events[i];
    assert(turns[i] is Act && session_steps(turns[i]->Act_0, event, turns[i + 1]));
    match turns[i]->Act_0 {
        Session::Wifi { .. } => lemma_wifi_goes_on(cli, events, turns, i),
        Session::Activity { .. } => lemma_activity_goes_on(cli, events, turns, i),
        Session::Devices(_) => lemma_devices_goes_on(cli, events, turns, i),
        Session::Repairing(_) => lemma_repair_goes_on(cli, events, turns, i),
        _ => {
            law_only_answers_are_taken(cli, events, turns, i);
            lemma_repair_begins(turns, i);
        },
    }
}

proof fn lemma_turn_fits(cli: Cli, events: Seq<Event>, turns: Seq<Turn<Session>>, i: int)
    requires
        is_session_run(session_begun(cli), events, turns),
        0 <= i < turns.len(),
    ensures
        turn_fits(cli, events, turns, i),
    decreases i,
{
    if i > 0 {
        lemma_turn_fits(cli, events, turns, i - 1);
        lemma_goes_on(cli, events, turns, i - 1);
    } else {
        assert(turns[0] == session_begun(cli));
    }
}

/// Every failure has its reason. An error is the outcome, put down to the file that
/// could not be read or written or to the search for ports, and otherwise passed on
/// as it is; but the refusal of the credentials, during a command that talks to a
/// device, begins repair. A command is refused where its device is not in the
/// store, where there is no port, and where a music file has no usable name, and
/// nowhere else.
pub proof fn law_failures_have_their_reasons(
    cli: Cli,
    events: Seq<Event>,
    turns: Seq<Turn<Session>>,
    i: int,
)
    requires
        is_session_run(session_begun(cli), events, turns),
        0 <= i < events.len(),
    ensures
        goes_on_as_said(cli, events, turns, i),
{
    lemma_turn_fits(cli, events, turns, i);
    lemma_goes_on(cli, events, turns, i);
}

/// Repair, from the command line on. It begins only after a command that talks to a
/// device has been refused the credentials. The device that it asks about, pairs
/// with and stores is the one that the first lookup found, by its serial number,
/// whatever the command line calls it. A run that is done after that is so once the
/// new password has been stored and written.
pub proof fn law_repair(cli: Cli, events: Seq<Event>, turns: Seq<Turn<Session>>, j: int)
    requires
        is_session_run(session_begun(cli), events, turns),
        0 <= j < turns.len(),
        asks(turns[j], Action::Tell(Notice::Unauthorized)),
    ensures
        is_network_command(cli),
        j >= 2,
        says_unauthorized(events[j - 1]),
        asks(turns[0], lookup_of(cli.device)),
        events[0] is Found,
        forall|i: int|
            j <= i < turns.len() ==> match #[trigger] turns[i] {
                Turn::Act(_, action) => i - j < 8 && repairs(events, j, i - j, action),
                Turn::Done => i - j == 8,
                Turn::Fail(_) => true,
            },
{
    lemma_turn_fits(cli, events, turns, j);
    assert(is_repairing(turns, j));
    assert forall|i: int| j <= i < turns.len() implies match #[trigger] turns[i] {
        Turn::Act(_, action) => i - j < 8 && repairs(events, j, i - j, action),
        Turn::Done => i - j == 8,
        Turn::Fail(_) => true,
    } by {
        assert(is_repairing(turns, i));
        lemma_turn_fits(cli, events, turns, i);
        if turns[i] is Done {
            let event = events[i - 1];
            assert(turns[i - 1] is Act);
            lemma_turn_fits(cli, events, turns, i - 1);
            assert(is_repairing(turns, i - 1));
            lemma_repair_goes_on(cli, events, turns, i - 1);
        }
    }
}

} // verus!
