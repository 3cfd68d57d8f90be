//! Laws of the activity commands.

use crate::activity::{activity_begun, activity_steps, deployed_dir, ActivityState, Goal};
use crate::command::{ActivityCommands, Cli, Commands, DeployArgs};
use crate::device::lookup_for;
use crate::laws::parts::{is_repairing, keeps_to, lemma_activity_turn, lookup_of};
use crate::laws::runs::{asks, is_activity_run, is_session_run};
use crate::notice::Notice;
use crate::protocol::{Action, Event, Turn};
use crate::session::{session_begun, Session};
use vstd::prelude::*;

verus! {

/// A turn follows from the one before it, which asks for an action.
proof fn lemma_step(
    first: Turn<ActivityState>,
    events: Seq<Event>,
    turns: Seq<Turn<ActivityState>>,
    i: int,
)
    requires
        is_activity_run(first, events, turns),
        0 < i < turns.len(),
    ensures
        turns[i - 1] is Act,
        activity_steps(turns[i - 1]->Act_0, events[i - 1], turns[i]),
{
    let event = events[i - 1];
}

/// Turn `i` of a deployment, where it asks for an action.
spec fn deploy_turn_at(
    device_arg: Option<String>,
    args: DeployArgs,
    events: Seq<Event>,
    i: int,
    turn: Turn<ActivityState>,
) -> bool {
    let goal = Goal::Deploy(args);
    if i == 0 {
        turn == activity_begun(device_arg, ActivityCommands::Deploy(args))
    } else {
        &&& events[0] matches Event::Package(package)
        &&& if i == 1 {
            turn == Turn::Act(
                ActivityState::Finding { device_arg, goal, package },
                lookup_for(device_arg),
            )
        } else if i == 2 {
            &&& turn->Act_0 == (ActivityState::Connecting { goal, package })
            &&& events[1] matches Event::Found(Some(device))
            &&& turn->Act_1 == (Action::Connect {
                serial: device.serial,
                password: device.credentials.password,
            })
        } else if i == 3 {
            turn == Turn::Act(ActivityState::Staging { args, package }, Action::Stage(package))
        } else if i == 4 {
            &&& turn->Act_0 matches ActivityState::Syncing { no_start, package: synced, device_dir }
            &&& no_start == args.no_start
            &&& synced == package
            &&& device_dir@ == deployed_dir(args.device_root@, package@)
            &&& events[3] matches Event::Staged(staging)
            &&& turn->Act_1 == (Action::SyncDir {
                host_dir: staging,
                device_dir,
                delete: args.delete,
                dry_run: false,
                progress: true,
            })
        } else if i == 5 {
            &&& turn->Act_0 == (ActivityState::TellingDeployed {
                no_start: args.no_start,
                package,
            })
            &&& turn->Act_1 matches Action::Tell(Notice::Deployed { package: told, device_dir })
            &&& told == package
            &&& device_dir@ == deployed_dir(args.device_root@, package@)
        } else if i == 6 {
            &&& !args.no_start
            &&& turn == Turn::Act(
                ActivityState::Starting { package },
                Action::StartActivity(package),
            )
        } else {
            &&& i == 7
            &&& !args.no_start
            &&& turn == Turn::Act(
                ActivityState::Reporting,
                Action::Tell(Notice::Started(package)),
            )
        }
    }
}

proof fn lemma_deploy_schedule(
    device_arg: Option<String>,
    args: DeployArgs,
    events: Seq<Event>,
    turns: Seq<Turn<ActivityState>>,
    i: int,
)
    requires
        is_activity_run(
            activity_begun(device_arg, ActivityCommands::Deploy(args)),
            events,
            turns,
        ),
        0 <= i < turns.len(),
    ensures
        turns[i] is Act ==> deploy_turn_at(device_arg, args, events, i, turns[i]),
        turns[i] is Done ==> i == (if args.no_start { 6int } else { 8 }),
    decreases i,
{
    if i > 0 {
        lemma_deploy_schedule(device_arg, args, events, turns, i - 1);
        lemma_step(turns[0], events, turns, i);
    }
}

/// A deployment that ends well has built the activity, unless that was to be
/// skipped; has connected to the device that was looked up; has synced what was
/// laid out to the package's directory under the device's root, deleting what
/// is gone if that was asked for; has said so; and has then started the package
/// and said so too, unless that was to be skipped. In this order, and with
/// nothing else asked of the device.
pub proof fn law_deploy_builds_deploys_and_starts(
    device_arg: Option<String>,
    args: DeployArgs,
    events: Seq<Event>,
    turns: Seq<Turn<ActivityState>>,
)
    requires
        is_activity_run(
            activity_begun(device_arg, ActivityCommands::Deploy(args)),
            events,
            turns,
        ),
        turns.last() is Done,
    ensures
        turns.len() == (if args.no_start { 7int } else { 9 }),
        asks(
            turns[0],
            if args.no_build {
                Action::PackageName
            } else {
                Action::Build { optimize: !args.no_optimize }
            },
        ),
        events[0] is Package,
        asks(turns[1], lookup_for(device_arg)),
        events[1] is Found && events[1]->Found_0 is Some,
        ({
            let device = events[1]->Found_0->Some_0;
            asks(
                turns[2],
                Action::Connect { serial: device.serial, password: device.credentials.password },
            )
        }),
        asks(turns[3], Action::Stage(events[0]->Package_0)),
        events[3] is Staged,
        turns[4] is Act && turns[4]->Act_1 is SyncDir,
        ({
            let device_dir = turns[4]->Act_1->SyncDir_device_dir;
            &&& device_dir@ == deployed_dir(args.device_root@, events[0]->Package_0@)
            &&& turns[4]->Act_1 == (Action::SyncDir {
                host_dir: events[3]->Staged_0,
                device_dir,
                delete: args.delete,
                dry_run: false,
                progress: true,
            })
        }),
        asks(
            turns[5],
            Action::Tell(
                Notice::Deployed {
                    package: events[0]->Package_0,
                    device_dir: turns[4]->Act_1->SyncDir_device_dir,
                },
            ),
        ),
        !args.no_start ==> asks(turns[6], Action::StartActivity(events[0]->Package_0)) && asks(
            turns[7],
            Action::Tell(Notice::Started(events[0]->Package_0)),
        ),
{
    lemma_deploy_schedule(device_arg, args, events, turns, turns.len() - 1);
    assert forall|i: int| 0 <= i < turns.len() - 1 implies (#[trigger] turns[i]) is Act
        && deploy_turn_at(device_arg, args, events, i, turns[i]) by {
        lemma_deploy_schedule(device_arg, args, events, turns, i);
        lemma_step(turns[0], events, turns, i + 1);
    }
    lemma_step(turns[0], events, turns, 1);
    lemma_step(turns[0], events, turns, 5);
}

/// Turn `i` of the start of an activity, where it asks for an action.
spec fn start_turn_at(
    device_arg: Option<String>,
    events: Seq<Event>,
    i: int,
    turn: Turn<ActivityState>,
) -> bool {
    let goal = Goal::Start;
    if i == 0 {
        turn == activity_begun(device_arg, ActivityCommands::Start)
    } else {
        &&& events[0] matches Event::Package(package)
        &&& if i == 1 {
            turn == Turn::Act(
                ActivityState::Finding { device_arg, goal, package },
                lookup_for(device_arg),
            )
        } else if i == 2 {
            &&& turn->Act_0 == (ActivityState::Connecting { goal, package })
            &&& events[1] matches Event::Found(Some(device))
            &&& turn->Act_1 == (Action::Connect {
                serial: device.serial,
                password: device.credentials.password,
            })
        } else if i == 3 {
            turn == Turn::Act(
                ActivityState::Starting { package },
                Action::StartActivity(package),
            )
        } else {
            &&& i == 4
            &&& turn == Turn::Act(
                ActivityState::Reporting,
                Action::Tell(Notice::Started(package)),
            )
        }
    }
}

proof fn lemma_start_schedule(
    device_arg: Option<String>,
    events: Seq<Event>,
    turns: Seq<Turn<ActivityState>>,
    i: int,
)
    requires
        is_activity_run(activity_begun(device_arg, ActivityCommands::Start), events, turns),
        0 <= i < turns.len(),
    ensures
        turns[i] is Act ==> start_turn_at(device_arg, events, i, turns[i]),
        turns[i] is Done ==> i == 5,
    decreases i,
{
    if i > 0 {
        lemma_start_schedule(device_arg, events, turns, i - 1);
        lemma_step(turns[0], events, turns, i);
    }
}

/// Starting an activity neither builds nor deploys: it ends well after the
/// package that is named has been started on the device.
pub proof fn law_start_only_starts(
    device_arg: Option<String>,
    events: Seq<Event>,
    turns: Seq<Turn<ActivityState>>,
)
    requires
        is_activity_run(activity_begun(device_arg, ActivityCommands::Start), events, turns),
    ensures
        forall|i: int|
            0 <= i < turns.len() && (#[trigger] turns[i]) is Act ==> !(turns[i]->Act_1 is Build)
                && !(turns[i]->Act_1 is Stage) && !(turns[i]->Act_1 is SyncDir),
        turns.last() is Done ==> {
            &&& turns.len() == 6
            &&& asks(turns[0], Action::PackageName)
            &&& events[0] matches Event::Package(package)
            &&& asks(turns[3], Action::StartActivity(package))
        },
{
    assert forall|i: int| 0 <= i < turns.len() && (#[trigger] turns[i]) is Act implies
        start_turn_at(device_arg, events, i, turns[i]) by {
        lemma_start_schedule(device_arg, events, turns, i);
    }
    if turns.last() is Done {
        lemma_start_schedule(device_arg, events, turns, turns.len() - 1);
        lemma_step(turns[0], events, turns, 1);
        lemma_step(turns[0], events, turns, 4);
    }
}

/// Building an activity, from the command line on: the activity is compiled,
/// optimized unless that is to be skipped, and nothing else is done.
pub proof fn law_activity_build(
    cli: Cli,
    no_optimize: bool,
    events: Seq<Event>,
    turns: Seq<Turn<Session>>,
)
    requires
        is_session_run(session_begun(cli), events, turns),
        cli.command == Commands::Activity(ActivityCommands::Build { no_optimize }),
    ensures
        keeps_to(
            turns,
            2,
            |i: int, action: Action|
                {
                    &&& i == 0 ==> action == lookup_of(cli.device)
                    &&& i == 1 ==> action == (Action::Build { optimize: !no_optimize })
                },
        ),
{
    let command = ActivityCommands::Build { no_optimize };
    assert forall|i: int|
        0 < i < turns.len() && !is_repairing(turns, i) && !(
        #[trigger] turns[i] is Fail) implies (turns[i] is Act ==> i == 1 && turns[i]->Act_1 == (
    Action::Build { optimize: !no_optimize })) && (turns[i] is Done ==> i == 2) by {
        let part = lemma_activity_turn(cli, command, events, turns, i);
        if i > 1 {
            let inner = events.subrange(1, part.len() as int);
            lemma_step(part[0], inner, part, 1);
            if i > 2 {
                lemma_step(part[0], inner, part, 2);
            }
        }
    }
}

/// The connection that an activity command opens: to the device that its lookup
/// found, with the password that the store has for it.
pub open spec fn connects_to_found(events: Seq<Event>, action: Action) -> bool {
    &&& events[2] matches Event::Found(Some(device))
    &&& action == (Action::Connect { serial: device.serial, password: device.credentials.password })
}

/// A deployment, from the command line on. The activity is built, optimized unless
/// that is to be skipped, or just named where building is to be skipped. The
/// device of the command line is looked up and connected to, what was laid out is
/// synced to the package's directory under the device's root, deleting what is
/// gone only where that is asked for, and that is reported. Then the package is
/// started, and that is reported, unless starting is to be skipped: building or
/// not has no say in it.
pub proof fn law_activity_deploy(
    cli: Cli,
    args: DeployArgs,
    events: Seq<Event>,
    turns: Seq<Turn<Session>>,
)
    requires
        is_session_run(session_begun(cli), events, turns),
        cli.command == Commands::Activity(ActivityCommands::Deploy(args)),
    ensures
        keeps_to(
            turns,
            if args.no_start { 7 } else { 9 },
            |i: int, action: Action|
                {
                    let package = events[1]->Package_0;
                    &&& i == 0 || i == 2 ==> action == lookup_of(cli.device)
                    &&& i == 1 && args.no_build ==> action == Action::PackageName
                    &&& i == 1 && !args.no_build ==> action == (Action::Build {
                        optimize: !args.no_optimize,
                    })
                    &&& i >= 2 ==> events[1] is Package
                    &&& i == 3 ==> connects_to_found(events, action)
                    &&& i == 4 ==> action == Action::Stage(package)
                    &&& i == 5 ==> {
                        &&& events[4] matches Event::Staged(staging)
                        &&& action matches Action::SyncDir {
                            host_dir,
                            device_dir,
                            delete,
                            dry_run,
                            progress,
                        }
                        &&& host_dir == staging
                        &&& device_dir@ == args.device_root@ + "/"@ + package@
                        &&& delete == args.delete
                        &&& !dry_run
                        &&& progress
                    }
                    &&& i == 6 ==> {
                        &&& action matches Action::Tell(
                            Notice::Deployed { package: told, device_dir },
                        )
                        &&& told == package
                        &&& device_dir@ == args.device_root@ + "/"@ + package@
                    }
                    &&& i == 7 ==> action == Action::StartActivity(package)
                    &&& i == 8 ==> action == Action::Tell(Notice::Started(package))
                },
        ),
        turns.last() is Done && !is_repairing(turns, turns.len() - 1) ==> {
            &&& !args.no_start ==> asks(turns[7], Action::StartActivity(events[1]->Package_0))
            &&& args.no_start ==> forall|i: int|
                0 <= i < turns.len() && (#[trigger] turns[i]) is Act ==> !(
                turns[i]->Act_1 is StartActivity)
        },
{
    let command = ActivityCommands::Deploy(args);
    assert forall|i: int|
        0 < i < turns.len() && !is_repairing(turns, i) && !(
        #[trigger] turns[i] is Fail) implies (turns[i] is Done ==> i == (if args.no_start {
        7int
    } else {
        9
    })) && (turns[i] is Act ==> exists|turn: Turn<ActivityState>|
        turn is Act && turn->Act_1 == turns[i]->Act_1 && #[trigger] deploy_turn_at(
            cli.device,
            args,
            events.skip(1),
            i - 1,
            turn,
        )) by {
        let part = lemma_activity_turn(cli, command, events, turns, i);
        let inner = events.subrange(1, part.len() as int);
        lemma_deploy_schedule(cli.device, args, inner, part, i - 1);
        if turns[i] is Act {
            assert(forall|k: int| 0 <= k < i - 1 ==> inner[k] == events.skip(1)[k]);
            assert(deploy_turn_at(cli.device, args, events.skip(1), i - 1, part[i - 1]));
        }
    }
    if turns.last() is Done && !is_repairing(turns, turns.len() - 1) {
        assert forall|i: int| 0 <= i < turns.len() - 1 implies (#[trigger] turns[i]) is Act
            && !is_repairing(turns, i) by {
            let event = events[i];
        }
    }
}

/// Starting an activity, from the command line on: the package is named, the
/// device of the command line is looked up and connected to, the package is
/// started, and that is reported.
pub proof fn law_activity_start(cli: Cli, events: Seq<Event>, turns: Seq<Turn<Session>>)
    requires
        is_session_run(session_begun(cli), events, turns),
        cli.command == Commands::Activity(ActivityCommands::Start),
    ensures
        keeps_to(
            turns,
            6,
            |i: int, action: Action|
                {
                    let package = events[1]->Package_0;
                    &&& i == 0 || i == 2 ==> action == lookup_of(cli.device)
                    &&& i == 1 ==> action == Action::PackageName
                    &&& i >= 2 ==> events[1] is Package
                    &&& i == 3 ==> connects_to_found(events, action)
                    &&& i == 4 ==> action == Action::StartActivity(package)
                    &&& i == 5 ==> action == Action::Tell(Notice::Started(package))
                },
        ),
{
    assert forall|i: int|
        0 < i < turns.len() && !is_repairing(turns, i) && !(
        #[trigger] turns[i] is Fail) implies (turns[i] is Done ==> i == 6) && (turns[i] is Act
        ==> exists|turn: Turn<ActivityState>|
        turn is Act && turn->Act_1 == turns[i]->Act_1 && #[trigger] start_turn_at(
            cli.device,
            events.skip(1),
            i - 1,
            turn,
        )) by {
        let part = lemma_activity_turn(cli, ActivityCommands::Start, events, turns, i);
        let inner = events.subrange(1, part.len() as int);
        lemma_start_schedule(cli.device, inner, part, i - 1);
        if turns[i] is Act {
            assert(forall|k: int| 0 <= k < i - 1 ==> inner[k] == events.skip(1)[k]);
            assert(start_turn_at(cli.device, events.skip(1), i - 1, part[i - 1]));
        }
    }
}

} // verus!
