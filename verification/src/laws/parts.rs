//! The parts of a run: how the run of a command stands within a run of the tool,
//! and where repair takes over.

use crate::activity::{activity_begun, activity_steps, ActivityState};
use crate::command::{ActivityCommands, Cli, Commands, WifiCommands};
use crate::laws::runs::{asks, is_activity_run, is_session_run, is_wifi_run};
use crate::notice::Notice;
use crate::protocol::{Action, Device, Event, Turn};
use crate::session::{
    session_begun, session_steps, while_on_activity, while_on_wifi, Session,
};
use crate::wifi::{wifi_begun, wifi_steps, WifiState};
use vstd::prelude::*;

verus! {

/// The lookup of the device that a command line names, or else of the default.
pub open spec fn lookup_of(device: Option<String>) -> Action {
    match device {
        Some(identifier) => Action::Resolve(identifier),
        None => Action::FindDefault,
    }
}

/// The serial number of a device that a lookup may have found.
pub open spec fn serial_in(found: Option<Device>) -> Option<String> {
    match found {
        Some(device) => Some(device.serial),
        None => None,
    }
}

/// Up to turn `i` the user has been told that the device refused the
/// credentials, so that from there on the run is one of repair.
pub open spec fn is_repairing(turns: Seq<Turn<Session>>, i: int) -> bool {
    exists|j: int| 0 <= j <= i && asks(#[trigger] turns[j], Action::Tell(Notice::Unauthorized))
}

/// Up to repair the turns keep to a script of so many actions: turn `i` asks for
/// an action that the script has there, and a run that is done is so at its end.
pub open spec fn keeps_to(
    turns: Seq<Turn<Session>>,
    length: int,
    script: spec_fn(int, Action) -> bool,
) -> bool {
    forall|i: int|
        0 <= i < turns.len() && !is_repairing(turns, i) ==> match #[trigger] turns[i] {
            Turn::Act(_, action) => i < length && script(i, action),
            Turn::Done => i == length,
            Turn::Fail(_) => true,
        }
}

/// All turns keep to a script of so many actions.
pub open spec fn follows(
    turns: Seq<Turn<Session>>,
    length: int,
    script: spec_fn(int, Action) -> bool,
) -> bool {
    forall|i: int|
        0 <= i < turns.len() ==> match #[trigger] turns[i] {
            Turn::Act(_, action) => i < length && script(i, action),
            Turn::Done => i == length,
            Turn::Fail(_) => true,
        }
}

/// The run of a command over Wi-Fi within a run of the tool, up to repair.
pub open spec fn is_wifi_part(
    cli: Cli,
    command: WifiCommands,
    events: Seq<Event>,
    turns: Seq<Turn<Session>>,
    part: Seq<Turn<WifiState>>,
) -> bool {
    &&& 1 <= part.len() <= events.len()
    &&& events[0] is Found
    &&& is_wifi_run(
        wifi_begun(cli.device, command),
        events.subrange(1, part.len() as int),
        part,
    )
    &&& forall|i: int|
        0 <= i < part.len() ==> turns[i + 1] == while_on_wifi(
            serial_in(events[0]->Found_0),
            #[trigger] part[i],
        )
    &&& part.len() < events.len() ==> part.last() is Fail
}

/// The part of a prefix of the events is one turn longer after one event more,
/// unless repair has taken over.
proof fn lemma_wifi_part_of(
    cli: Cli,
    command: WifiCommands,
    events: Seq<Event>,
    turns: Seq<Turn<Session>>,
    n: int,
) -> (part: Seq<Turn<WifiState>>)
    requires
        is_session_run(session_begun(cli), events, turns),
        cli.command == Commands::Wifi(command),
        1 <= n <= events.len(),
        events[0] is Found,
    ensures
        is_wifi_part(cli, command, events.take(n), turns.take(n + 1), part),
    decreases n,
{
    let active = serial_in(events[0]->Found_0);
    if n == 1 {
        let event = events[0];
        assert(session_steps(turns[0]->Act_0, event, turns[1]));
        let part = seq![wifi_begun(cli.device, command)];
        assert(turns[1] == while_on_wifi(active, part[0]));
        part
    } else {
        let part = lemma_wifi_part_of(cli, command, events, turns, n - 1);
        if part.len() < n - 1 || part.last() is Fail {
            assert(events.take(n).subrange(1, part.len() as int) =~= events.take(n - 1).subrange(
                1,
                part.len() as int,
            ));
            assert forall|i: int| 0 <= i < part.len() implies turns.take(n + 1)[i + 1]
                == while_on_wifi(active, #[trigger] part[i]) by {
                assert(turns.take(n)[i + 1] == while_on_wifi(active, part[i]));
            }
            part
        } else {
            let k = part.len() as int;
            let event = events[n - 1];
            assert(turns[n - 1] is Act && session_steps(turns[n - 1]->Act_0, event, turns[n]));
            assert(turns.take(n)[k] == while_on_wifi(active, part[k - 1]));
            let state = part[k - 1]->Act_0;
            assert(turns[n - 1]->Act_0 == (Session::Wifi { state, active }));
            let step = choose|step: Turn<WifiState>| #[trigger]
                wifi_steps(state, event, step) && turns[n] == while_on_wifi(active, step);
            let longer = part.push(step);
            assert forall|i: int| 0 <= i < longer.len() implies turns.take(n + 1)[i + 1]
                == while_on_wifi(active, #[trigger] longer[i]) by {
                if i < k {
                    assert(turns.take(n)[i + 1] == while_on_wifi(active, part[i]));
                }
            }
            let before = events.take(n - 1).subrange(1, k);
            let now = events.take(n).subrange(1, k + 1);
            assert(now =~= before.push(event));
            assert forall|i: int|
                #![trigger longer[i]]
                0 <= i < now.len() implies longer[i] is Act && wifi_steps(
                longer[i]->Act_0,
                now[i],
                longer[i + 1],
            ) by {
                if i < k - 1 {
                    assert(before[i] == now[i]);
                    assert(part[i] is Act && wifi_steps(part[i]->Act_0, before[i], part[i + 1]));
                }
            }
            longer
        }
    }
}

pub(crate) proof fn lemma_wifi_part(
    cli: Cli,
    command: WifiCommands,
    events: Seq<Event>,
    turns: Seq<Turn<Session>>,
) -> (part: Seq<Turn<WifiState>>)
    requires
        is_session_run(session_begun(cli), events, turns),
        cli.command == Commands::Wifi(command),
        events.len() > 0,
        events[0] is Found,
    ensures
        is_wifi_part(cli, command, events, turns, part),
{
    assert(events.take(events.len() as int) =~= events);
    assert(turns.take(turns.len() as int) =~= turns);
    lemma_wifi_part_of(cli, command, events, turns, events.len() as int)
}

/// A turn before repair, other than a failure, is one of the command.
pub(crate) proof fn lemma_wifi_turn(
    cli: Cli,
    command: WifiCommands,
    events: Seq<Event>,
    turns: Seq<Turn<Session>>,
    i: int,
) -> (part: Seq<Turn<WifiState>>)
    requires
        is_session_run(session_begun(cli), events, turns),
        cli.command == Commands::Wifi(command),
        0 < i < turns.len(),
        !(turns[i] is Fail),
        !is_repairing(turns, i),
    ensures
        is_wifi_part(cli, command, events, turns, part),
        i <= part.len(),
        turns[i] == while_on_wifi(serial_in(events[0]->Found_0), part[i - 1]),
        !(part[i - 1] is Fail),
{
    let event = events[0];
    assert(turns[0] is Act && session_steps(turns[0]->Act_0, event, turns[1]));
    if i > 1 {
        let event = events[1];
        assert(turns[1] is Act);
    }
    let part = lemma_wifi_part(cli, command, events, turns);
    let active = serial_in(events[0]->Found_0);
    let n = part.len() as int;
    assert(turns[n] == while_on_wifi(active, part[n - 1]));
    if i > n {
        let event = events[n];
        assert(turns[n] is Act);
        assert(asks(turns[n], Action::Tell(Notice::Unauthorized)));
        assert(false);
    }
    assert(turns[i] == while_on_wifi(active, part[i - 1]));
    if part[i - 1] is Fail {
        assert(asks(turns[i], Action::Tell(Notice::Unauthorized)));
        assert(false);
    }
    part
}

/// The run of an activity command within a run of the tool, up to repair.
pub open spec fn is_activity_part(
    cli: Cli,
    command: ActivityCommands,
    events: Seq<Event>,
    turns: Seq<Turn<Session>>,
    part: Seq<Turn<ActivityState>>,
) -> bool {
    &&& 1 <= part.len() <= events.len()
    &&& events[0] is Found
    &&& is_activity_run(
        activity_begun(cli.device, command),
        events.subrange(1, part.len() as int),
        part,
    )
    &&& forall|i: int|
        0 <= i < part.len() ==> turns[i + 1] == while_on_activity(
            serial_in(events[0]->Found_0),
            #[trigger] part[i],
        )
    &&& part.len() < events.len() ==> part.last() is Fail
}

proof fn lemma_activity_part_of(
    cli: Cli,
    command: ActivityCommands,
    events: Seq<Event>,
    turns: Seq<Turn<Session>>,
    n: int,
) -> (part: Seq<Turn<ActivityState>>)
    requires
        is_session_run(session_begun(cli), events, turns),
        cli.command == Commands::Activity(command),
        1 <= n <= events.len(),
        events[0] is Found,
    ensures
        is_activity_part(cli, command, events.take(n), turns.take(n + 1), part),
    decreases n,
{
    let active = serial_in(events[0]->Found_0);
    if n == 1 {
        let event = events[0];
        assert(session_steps(turns[0]->Act_0, event, turns[1]));
        let part = seq![activity_begun(cli.device, command)];
        assert(turns[1] == while_on_activity(active, part[0]));
        part
    } else {
        let part = lemma_activity_part_of(cli, command, events, turns, n - 1);
        if part.len() < n - 1 || part.last() is Fail {
            assert(events.take(n).subrange(1, part.len() as int) =~= events.take(n - 1).subrange(
                1,
                part.len() as int,
            ));
            assert forall|i: int| 0 <= i < part.len() implies turns.take(n + 1)[i + 1]
                == while_on_activity(active, #[trigger] part[i]) by {
                assert(turns.take(n)[i + 1] == while_on_activity(active, part[i]));
            }
            part
        } else {
            let k = part.len() as int;
            let event = events[n - 1];
            assert(turns[n - 1] is Act && session_steps(turns[n - 1]->Act_0, event, turns[n]));
            assert(turns.take(n)[k] == while_on_activity(active, part[k - 1]));
            let state = part[k - 1]->Act_0;
            assert(turns[n - 1]->Act_0 == (Session::Activity { state, active }));
            let step = choose|step: Turn<ActivityState>| #[trigger]
                activity_steps(state, event, step) && turns[n] == while_on_activity(active, step);
            let longer = part.push(step);
            assert forall|i: int| 0 <= i < longer.len() implies turns.take(n + 1)[i + 1]
                == while_on_activity(active, #[trigger] longer[i]) by {
                if i < k {
                    assert(turns.take(n)[i + 1] == while_on_activity(active, part[i]));
                }
            }
            let before = events.take(n - 1).subrange(1, k);
            let now = events.take(n).subrange(1, k + 1);
            assert(now =~= before.push(event));
            assert forall|i: int|
                #![trigger longer[i]]
                0 <= i < now.len() implies longer[i] is Act && activity_steps(
                longer[i]->Act_0,
                now[i],
                longer[i + 1],
            ) by {
                if i < k - 1 {
                    assert(before[i] == now[i]);
                    assert(part[i] is Act && activity_steps(
                        part[i]->Act_0,
                        before[i],
                        part[i + 1],
                    ));
                }
            }
            longer
        }
    }
}

pub(crate) proof fn lemma_activity_part(
    cli: Cli,
    command: ActivityCommands,
    events: Seq<Event>,
    turns: Seq<Turn<Session>>,
) -> (part: Seq<Turn<ActivityState>>)
    requires
        is_session_run(session_begun(cli), events, turns),
        cli.command == Commands::Activity(command),
        events.len() > 0,
        events[0] is Found,
    ensures
        is_activity_part(cli, command, events, turns, part),
{
    assert(events.take(events.len() as int) =~= events);
    assert(turns.take(turns.len() as int) =~= turns);
    lemma_activity_part_of(cli, command, events, turns, events.len() as int)
}

/// A turn before repair, other than a failure, is one of the command.
pub(crate) proof fn lemma_activity_turn(
    cli: Cli,
    command: ActivityCommands,
    events: Seq<Event>,
    turns: Seq<Turn<Session>>,
    i: int,
) -> (part: Seq<Turn<ActivityState>>)
    requires
        is_session_run(session_begun(cli), events, turns),
        cli.command == Commands::Activity(command),
        0 < i < turns.len(),
        !(turns[i] is Fail),
        !is_repairing(turns, i),
    ensures
        is_activity_part(cli, command, events, turns, part),
        i <= part.len(),
        turns[i] == while_on_activity(serial_in(events[0]->Found_0), part[i - 1]),
        !(part[i - 1] is Fail),
{
    let event = events[0];
    assert(turns[0] is Act && session_steps(turns[0]->Act_0, event, turns[1]));
    if i > 1 {
        let event = events[1];
        assert(turns[1] is Act);
    }
    let part = lemma_activity_part(cli, command, events, turns);
    let active = serial_in(events[0]->Found_0);
    let n = part.len() as int;
    assert(turns[n] == while_on_activity(active, part[n - 1]));
    if i > n {
        let event = events[n];
        assert(turns[n] is Act);
        assert(asks(turns[n], Action::Tell(Notice::Unauthorized)));
        assert(false);
    }
    assert(turns[i] == while_on_activity(active, part[i - 1]));
    if part[i - 1] is Fail {
        assert(asks(turns[i], Action::Tell(Notice::Unauthorized)));
        assert(false);
    }
    part
}

} // verus!
