//! The activity commands: build, deploy, start.

use crate::command::{ActivityCommands, DeployArgs};
use crate::device::{get_active_device, lookup, lookup_for, missing};
use crate::notice::Notice;
use crate::protocol::{failed_with, failure_of, Action, Event, Failure, Turn};
use vstd::prelude::*;
use vstd::string::*;

verus! {

/// What is to happen to an activity on the device.
pub enum Goal {
    /// It is deployed, and then started unless that is to be skipped.
    Deploy(DeployArgs),
    /// It is started as it is there.
    Start,
}

/// Where an activity command stands.
pub enum ActivityState {
    /// The activity is being compiled, and that is all.
    Building,
    /// The package name is being found out, by compiling where that is due.
    Preparing { device_arg: Option<String>, goal: Goal },
    /// The device is being looked up.
    Finding { device_arg: Option<String>, goal: Goal, package: String },
    /// The connection is being opened.
    Connecting { goal: Goal, package: String },
    /// The activity is being laid out.
    Staging { args: DeployArgs, package: String },
    /// The activity is being synced to the device.
    Syncing { no_start: bool, package: String, device_dir: String },
    /// The user is being told of the deployment.
    TellingDeployed { no_start: bool, package: String },
    /// The activity is being started.
    Starting { package: String },
    /// The user is being told of the start.
    Reporting,
}

/// The directory on the device that a package is deployed to.
pub open spec fn deployed_dir(device_root: Seq<char>, package: Seq<char>) -> Seq<char> {
    device_root + "/"@ + package
}

/// Makes the directory on the device that a package is deployed to.
pub fn deploy_dir(device_root: String, package: &str) -> (res: String)
    ensures
        res@ == deployed_dir(device_root@, package@),
{
    device_root.concat("/").concat(package)
}

/// The first turn of an activity command.
pub open spec fn activity_begun(device_arg: Option<String>, command: ActivityCommands) -> Turn<
    ActivityState,
> {
    match command {
        ActivityCommands::Build { no_optimize } => Turn::Act(
            ActivityState::Building,
            Action::Build { optimize: !no_optimize },
        ),
        ActivityCommands::Deploy(args) => Turn::Act(
            ActivityState::Preparing { device_arg, goal: Goal::Deploy(args) },
            if args.no_build {
                Action::PackageName
            } else {
                Action::Build { optimize: !args.no_optimize }
            },
        ),
        ActivityCommands::Start => Turn::Act(
            ActivityState::Preparing { device_arg, goal: Goal::Start },
            Action::PackageName,
        ),
    }
}

/// Begins an activity command.
pub fn begin_activity_commands(device_arg: Option<String>, command: ActivityCommands) -> (res: Turn<
    ActivityState,
>)
    ensures
        res == activity_begun(device_arg, command),
{
    match command {
        ActivityCommands::Build { no_optimize } => Turn::Act(
            ActivityState::Building,
            Action::Build { optimize: !no_optimize },
        ),
        ActivityCommands::Deploy(args) => {
            let action = if args.no_build {
                Action::PackageName
            } else {
                Action::Build { optimize: !args.no_optimize }
            };
            Turn::Act(ActivityState::Preparing { device_arg, goal: Goal::Deploy(args) }, action)
        },
        ActivityCommands::Start => Turn::Act(
            ActivityState::Preparing { device_arg, goal: Goal::Start },
            Action::PackageName,
        ),
    }
}

/// What follows an event during an activity command.
pub open spec fn activity_steps(
    state: ActivityState,
    event: Event,
    turn: Turn<ActivityState>,
) -> bool {
    match (state, event) {
        (ActivityState::Building, Event::Package(_)) => turn == Turn::<ActivityState>::Done,
        (ActivityState::Preparing { device_arg, goal }, Event::Package(package)) => turn
            == Turn::Act(
            ActivityState::Finding { device_arg, goal, package },
            lookup_for(device_arg),
        ),
        (ActivityState::Finding { goal, package, .. }, Event::Found(Some(device))) => turn
            == Turn::Act(
            ActivityState::Connecting { goal, package },
            Action::Connect { serial: device.serial, password: device.credentials.password },
        ),
        (ActivityState::Finding { device_arg, .. }, Event::Found(None)) => turn == Turn::<
            ActivityState,
        >::Fail(Failure::Refused(missing(device_arg))),
        (ActivityState::Connecting { goal: Goal::Deploy(args), package }, Event::Done) => turn
            == Turn::Act(ActivityState::Staging { args, package }, Action::Stage(package)),
        (ActivityState::Connecting { goal: Goal::Start, package }, Event::Done) => turn
            == Turn::Act(ActivityState::Starting { package }, Action::StartActivity(package)),
        (ActivityState::Staging { args, package }, Event::Staged(staging)) => {
            &&& turn matches Turn::Act(
                state,
                Action::SyncDir { host_dir, device_dir, delete, dry_run, progress },
            )
            &&& state == ActivityState::Syncing { no_start: args.no_start, package, device_dir }
            &&& host_dir == staging
            &&& device_dir@ == deployed_dir(args.device_root@, package@)
            &&& delete == args.delete
            &&& !dry_run
            &&& progress
        },
        (ActivityState::Syncing { no_start, package, device_dir }, Event::Done) => turn
            == Turn::Act(
            ActivityState::TellingDeployed { no_start, package },
            Action::Tell(Notice::Deployed { package, device_dir }),
        ),
        (ActivityState::TellingDeployed { no_start, package }, Event::Done) => if no_start {
            turn == Turn::<ActivityState>::Done
        } else {
            turn == Turn::Act(ActivityState::Starting { package }, Action::StartActivity(package))
        },
        (ActivityState::Starting { package }, Event::Done) => turn == Turn::Act(
            ActivityState::Reporting,
            Action::Tell(Notice::Started(package)),
        ),
        (ActivityState::Reporting, Event::Done) => turn == Turn::<ActivityState>::Done,
        (_, event) => turn == Turn::<ActivityState>::Fail(failed_with(event)),
    }
}

/// Takes an activity command one event further.
pub fn run_activity_commands(state: ActivityState, event: Event) -> (res: Turn<ActivityState>)
    ensures
        activity_steps(state, event, res),
{
    match (state, event) {
        (ActivityState::Building, Event::Package(_)) => Turn::Done,
        (ActivityState::Preparing { device_arg, goal }, Event::Package(package)) => {
            let action = lookup(&device_arg);
            Turn::Act(ActivityState::Finding { device_arg, goal, package }, action)
        },
        (ActivityState::Finding { device_arg, goal, package }, Event::Found(found)) => {
            match get_active_device(device_arg, found) {
                Ok(device) => Turn::Act(
                    ActivityState::Connecting { goal, package },
                    Action::Connect {
                        serial: device.serial,
                        password: device.credentials.password,
                    },
                ),
                Err(problem) => Turn::Fail(Failure::Refused(problem)),
            }
        },
        (ActivityState::Connecting { goal, package }, Event::Done) => match goal {
            Goal::Deploy(args) => {
                let action = Action::Stage(package.clone());
                Turn::Act(ActivityState::Staging { args, package }, action)
            },
            Goal::Start => {
                let action = Action::StartActivity(package.clone());
                Turn::Act(ActivityState::Starting { package }, action)
            },
        },
        (ActivityState::Staging { args, package }, Event::Staged(staging)) => {
            let device_dir = deploy_dir(args.device_root, package.as_str());
            let action = Action::SyncDir {
                host_dir: staging,
                device_dir: device_dir.clone(),
                delete: args.delete,
                dry_run: false,
                progress: true,
            };
            Turn::Act(
                ActivityState::Syncing { no_start: args.no_start, package, device_dir },
                action,
            )
        },
        (ActivityState::Syncing { no_start, package, device_dir }, Event::Done) => {
            let notice = Notice::Deployed { package: package.clone(), device_dir };
            Turn::Act(ActivityState::TellingDeployed { no_start, package }, Action::Tell(notice))
        },
        (ActivityState::TellingDeployed { no_start, package }, Event::Done) => {
            if no_start {
                Turn::Done
            } else {
                let action = Action::StartActivity(package.clone());
                Turn::Act(ActivityState::Starting { package }, action)
            }
        },
        (ActivityState::Starting { package }, Event::Done) => Turn::Act(
            ActivityState::Reporting,
            Action::Tell(Notice::Started(package)),
        ),
        (ActivityState::Reporting, Event::Done) => Turn::Done,
        (_, event) => Turn::Fail(failure_of(event)),
    }
}

} // verus!
