//! The commands over Wi-Fi.

use crate::command::{
    DeviceCommands, DownloadFileArgs, MusicFile, SyncDirArgs, UploadFileArgs, WifiCommands,
};
use crate::device::{get_active_device, lookup, lookup_for, missing};
use crate::discover::{begin_discovery, discover, discover_steps, discovery_begun, DiscoverState};
use crate::json::{info_json, info_lines, is_info_report, json_content, json_pretty};
use crate::notice::{Notice, Problem};
use crate::pairing::{
    begin_pairing, chosen_nickname, pair_and_save, pair_turn, pairing_begun, prompt_nickname,
    PairState,
};
use crate::progress::{is_label, upload_label};
use crate::protocol::{
    failed_by, failed_with, failure_by, failure_of, Action, DeviceCredentials, Event, Failure, Turn,
};
use crate::text::{copied, optional_view, sanitize_file_name, sanitized};
use vstd::prelude::*;
use vstd::string::*;

verus! {

/// The directory on the device that music goes to.
pub const MUSIC_DIR: &'static str = "/sd/activities/user/music";

/// The music files of the command line, and how many of them have had their
/// turn.
pub struct MusicQueue {
    pub files: Vec<MusicFile>,
    pub next: usize,
}

/// Where a command over Wi-Fi stands.
pub enum WifiState {
    /// The device is being looked up.
    Finding { device_arg: Option<String>, command: DeviceCommands },
    /// The connection is being opened.
    Connecting { command: DeviceCommands },
    /// The user is being told that nothing will change.
    TellingDryRun(SyncDirArgs),
    /// The directory is being synced.
    Syncing { verbose: bool },
    /// The file to upload is being read.
    ReadingFile(UploadFileArgs),
    /// The file is being uploaded.
    Uploading { host_path: String, device_path: String },
    /// A music file is being read.
    ReadingMusic { queue: MusicQueue, display: String, name: String },
    /// A music file is being uploaded.
    UploadingMusic { queue: MusicQueue, display: String, device_path: String },
    /// The user is being told of an uploaded music file.
    TellingMusic { queue: MusicQueue },
    /// The file is being downloaded.
    Downloading(DownloadFileArgs),
    /// The downloaded file is being written.
    Writing { args: DownloadFileArgs, length: u64 },
    /// The directory is being read.
    ReadingDir,
    /// The file or directory is being removed.
    Removing { path: String },
    /// The command is being run.
    Executing,
    /// The information is being fetched.
    FetchingInfo { json: bool },
    /// The store is being asked for the device to pair with.
    LookingUp { serial: String },
    /// The user is being asked for a nickname.
    Naming { serial: String, default: Option<String> },
    /// The device is being paired with.
    Pairing(PairState),
    /// Devices are being discovered.
    Discovering(DiscoverState),
    /// The user is being told of the result.
    Reporting,
}

/// The path on the device that a music file goes to.
pub open spec fn music_path(name: Seq<char>) -> Seq<char> {
    MUSIC_DIR@ + "/"@ + sanitized(name)
}

/// Makes the path on the device that a music file goes to.
pub fn music_device_path(name: &str) -> (res: String)
    ensures
        res@ == music_path(name@),
{
    let sanitized_name = sanitize_file_name(name);
    MUSIC_DIR.to_owned().concat("/").concat(sanitized_name.as_str())
}

/// The nickname that the store has for a device.
pub open spec fn stored_nickname(credentials: Option<DeviceCredentials>) -> Option<String> {
    match credentials {
        Some(credentials) => credentials.nickname,
        None => None,
    }
}

/// Takes the nickname out of what the store has for a device.
pub fn nickname_of(credentials: Option<DeviceCredentials>) -> (res: Option<String>)
    ensures
        res == stored_nickname(credentials),
{
    match credentials {
        Some(credentials) => credentials.nickname,
        None => None,
    }
}

/// The last notice of a command.
pub open spec fn report(notice: Notice) -> Turn<WifiState> {
    Turn::Act(WifiState::Reporting, Action::Tell(notice))
}

/// The first turn of a command over Wi-Fi.
pub open spec fn wifi_begun(device_arg: Option<String>, command: WifiCommands) -> Turn<WifiState> {
    match command {
        WifiCommands::OnDevice(command) => Turn::Act(
            WifiState::Finding { device_arg, command },
            lookup_for(device_arg),
        ),
        WifiCommands::Discover => while_discovering(discovery_begun()),
        WifiCommands::Pair { serial } => Turn::Act(
            WifiState::LookingUp { serial },
            Action::GetDevice(serial),
        ),
    }
}

/// Begins a command over Wi-Fi.
pub fn begin_wifi_commands(device_arg: Option<String>, command: WifiCommands) -> (res: Turn<
    WifiState,
>)
    ensures
        res == wifi_begun(device_arg, command),
{
    match command {
        WifiCommands::OnDevice(command) => {
            let action = lookup(&device_arg);
            Turn::Act(WifiState::Finding { device_arg, command }, action)
        },
        WifiCommands::Discover => from_discovery(begin_discovery()),
        WifiCommands::Pair { serial } => {
            let action = Action::GetDevice(serial.clone());
            Turn::Act(WifiState::LookingUp { serial }, action)
        },
    }
}

/// The turn of the command that a turn of discovery stands for.
pub open spec fn while_discovering(turn: Turn<DiscoverState>) -> Turn<WifiState> {
    match turn {
        Turn::Act(state, action) => Turn::Act(WifiState::Discovering(state), action),
        Turn::Done => Turn::Done,
        Turn::Fail(failure) => Turn::Fail(failure),
    }
}

/// Takes a turn of discovery for one of the command.
fn from_discovery(turn: Turn<DiscoverState>) -> (res: Turn<WifiState>)
    ensures
        res == while_discovering(turn),
{
    match turn {
        Turn::Act(state, action) => Turn::Act(WifiState::Discovering(state), action),
        Turn::Done => Turn::Done,
        Turn::Fail(failure) => Turn::Fail(failure),
    }
}

/// The turn of the command that a turn of pairing stands for.
pub open spec fn while_pairing(turn: Turn<PairState>) -> Turn<WifiState> {
    match turn {
        Turn::Act(state, action) => Turn::Act(WifiState::Pairing(state), action),
        Turn::Done => Turn::Done,
        Turn::Fail(failure) => Turn::Fail(failure),
    }
}

/// Takes a turn of pairing for one of the command.
fn from_pairing(turn: Turn<PairState>) -> (res: Turn<WifiState>)
    ensures
        res == while_pairing(turn),
{
    match turn {
        Turn::Act(state, action) => Turn::Act(WifiState::Pairing(state), action),
        Turn::Done => Turn::Done,
        Turn::Fail(failure) => Turn::Fail(failure),
    }
}

/// The turn that goes on to the next music file, or ends after the last. A
/// file without a usable name is refused before it is read.
pub open spec fn next_music(queue: MusicQueue) -> Turn<WifiState> {
    if queue.next < queue.files@.len() {
        let file = queue.files@[queue.next as int];
        let rest = MusicQueue { files: queue.files, next: (queue.next + 1) as usize };
        match file.name {
            Some(name) => Turn::Act(
                WifiState::ReadingMusic { queue: rest, display: file.display, name },
                Action::ReadMusic(queue.next),
            ),
            None => Turn::Fail(Failure::Refused(Problem::InvalidFileName(file.display))),
        }
    } else {
        Turn::Done
    }
}

/// Goes on to the next music file.
fn visit_music(queue: MusicQueue) -> (res: Turn<WifiState>)
    ensures
        res == next_music(queue),
{
    if queue.next < queue.files.len() {
        let file = &queue.files[queue.next];
        let display = file.display.clone();
        let name = match &file.name {
            Some(name) => name.clone(),
            None => {
                return Turn::Fail(Failure::Refused(Problem::InvalidFileName(display)));
            },
        };
        let action = Action::ReadMusic(queue.next);
        let rest = MusicQueue { files: queue.files, next: queue.next + 1 };
        Turn::Act(WifiState::ReadingMusic { queue: rest, display, name }, action)
    } else {
        Turn::Done
    }
}

/// The sync of a directory, as the command asks for it.
pub open spec fn sync_begun(args: SyncDirArgs) -> Turn<WifiState> {
    Turn::Act(
        WifiState::Syncing { verbose: args.verbose },
        Action::SyncDir {
            host_dir: args.host_dir,
            device_dir: args.device_dir,
            delete: args.delete,
            dry_run: args.dry_run,
            progress: !args.no_progress,
        },
    )
}

/// Begins to sync a directory.
fn begin_sync(args: SyncDirArgs) -> (res: Turn<WifiState>)
    ensures
        res == sync_begun(args),
{
    Turn::Act(
        WifiState::Syncing { verbose: args.verbose },
        Action::SyncDir {
            host_dir: args.host_dir,
            device_dir: args.device_dir,
            delete: args.delete,
            dry_run: args.dry_run,
            progress: !args.no_progress,
        },
    )
}

/// The first turn of a command once its device is connected.
pub open spec fn on_connection(command: DeviceCommands) -> Turn<WifiState> {
    match command {
        DeviceCommands::SyncDir(args) => if args.dry_run {
            Turn::Act(WifiState::TellingDryRun(args), Action::Tell(Notice::DryRun))
        } else {
            sync_begun(args)
        },
        DeviceCommands::UploadFile(args) => Turn::Act(
            WifiState::ReadingFile(args),
            Action::ReadFile(args.host_path),
        ),
        DeviceCommands::UploadMusic(files) => next_music(MusicQueue { files, next: 0 }),
        DeviceCommands::DownloadFile(args) => Turn::Act(
            WifiState::Downloading(args),
            Action::Download(args.device_path),
        ),
        DeviceCommands::LsDir { path } => Turn::Act(
            WifiState::ReadingDir,
            Action::ReadDir(path),
        ),
        DeviceCommands::RmFile { path } => Turn::Act(
            WifiState::Removing { path },
            Action::RemoveFile(path),
        ),
        DeviceCommands::RmDir { path, recursive } => Turn::Act(
            WifiState::Removing { path },
            if recursive {
                Action::RemoveDirAll(path)
            } else {
                Action::RemoveDir(path)
            },
        ),
        DeviceCommands::ExecuteCommand { command } => Turn::Act(
            WifiState::Executing,
            Action::RunCommand(command),
        ),
        DeviceCommands::GetInfo { json } => Turn::Act(
            WifiState::FetchingInfo { json },
            Action::GetInfo,
        ),
    }
}

/// Takes the first step of a command once its device is connected.
fn connected(command: DeviceCommands) -> (res: Turn<WifiState>)
    ensures
        res == on_connection(command),
{
    match command {
        DeviceCommands::SyncDir(args) => {
            if args.dry_run {
                Turn::Act(WifiState::TellingDryRun(args), Action::Tell(Notice::DryRun))
            } else {
                begin_sync(args)
            }
        },
        DeviceCommands::UploadFile(args) => {
            let action = Action::ReadFile(args.host_path.clone());
            Turn::Act(WifiState::ReadingFile(args), action)
        },
        DeviceCommands::UploadMusic(files) => visit_music(MusicQueue { files, next: 0 }),
        DeviceCommands::DownloadFile(args) => {
            let action = Action::Download(args.device_path.clone());
            Turn::Act(WifiState::Downloading(args), action)
        },
        DeviceCommands::LsDir { path } => Turn::Act(WifiState::ReadingDir, Action::ReadDir(path)),
        DeviceCommands::RmFile { path } => {
            let action = Action::RemoveFile(path.clone());
            Turn::Act(WifiState::Removing { path }, action)
        },
        DeviceCommands::RmDir { path, recursive } => {
            let action = if recursive {
                Action::RemoveDirAll(path.clone())
            } else {
                Action::RemoveDir(path.clone())
            };
            Turn::Act(WifiState::Removing { path }, action)
        },
        DeviceCommands::ExecuteCommand { command } => Turn::Act(
            WifiState::Executing,
            Action::RunCommand(command),
        ),
        DeviceCommands::GetInfo { json } => Turn::Act(
            WifiState::FetchingInfo { json },
            Action::GetInfo,
        ),
    }
}

/// What follows an event during a command over Wi-Fi.
pub open spec fn wifi_steps(state: WifiState, event: Event, turn: Turn<WifiState>) -> bool {
    match (state, event) {
        (WifiState::Finding { command, .. }, Event::Found(Some(device))) => turn == Turn::Act(
            WifiState::Connecting { command },
            Action::Connect { serial: device.serial, password: device.credentials.password },
        ),
        (WifiState::Finding { device_arg, .. }, Event::Found(None)) => turn == Turn::<
            WifiState,
        >::Fail(Failure::Refused(missing(device_arg))),
        (WifiState::Connecting { command }, Event::Done) => turn == on_connection(command),
        (WifiState::TellingDryRun(args), Event::Done) => turn == sync_begun(args),
        (WifiState::Syncing { verbose }, Event::Done) => if verbose {
            turn == report(Notice::SyncDone)
        } else {
            turn == Turn::<WifiState>::Done
        },
        (WifiState::ReadingFile(args), Event::Bytes(data)) => {
            &&& turn matches Turn::Act(state, Action::Upload { device_path, data: sent, label })
            &&& state == WifiState::Uploading {
                host_path: args.host_path,
                device_path: args.device_path,
            }
            &&& device_path == args.device_path
            &&& sent == data
            &&& match label {
                Some(label) => !args.no_progress && is_label(label@, args.host_path@),
                None => args.no_progress,
            }
        },
        (WifiState::ReadingFile(args), event) => turn == Turn::<WifiState>::Fail(
            failed_by(Problem::ReadFailed(args.host_path), event),
        ),
        (WifiState::Uploading { host_path, device_path }, Event::Done) => turn == report(
            Notice::Uploaded { host_path, device_path },
        ),
        (WifiState::ReadingMusic { queue, display, name }, Event::Bytes(data)) => {
            &&& turn matches Turn::Act(state, Action::Upload { device_path, data: sent, label })
            &&& state == WifiState::UploadingMusic { queue, display, device_path }
            &&& device_path@ == music_path(name@)
            &&& sent == data
            &&& label is None
        },
        (WifiState::ReadingMusic { display, .. }, event) => turn == Turn::<WifiState>::Fail(
            failed_by(Problem::ReadFailed(display), event),
        ),
        (WifiState::UploadingMusic { queue, display, device_path }, Event::Done) => turn
            == Turn::Act(
            WifiState::TellingMusic { queue },
            Action::Tell(Notice::Uploaded { host_path: display, device_path }),
        ),
        (WifiState::TellingMusic { queue }, Event::Done) => turn == next_music(queue),
        (WifiState::Downloading(args), Event::Bytes(data)) => turn == Turn::Act(
            WifiState::Writing { args, length: data@.len() as u64 },
            Action::WriteFile { host_path: args.host_path, data },
        ),
        (WifiState::Writing { args, length }, Event::Done) => turn == report(
            Notice::Downloaded {
                device_path: args.device_path,
                host_path: args.host_path,
                length,
            },
        ),
        (WifiState::Writing { args, .. }, event) => turn == Turn::<WifiState>::Fail(
            failed_by(Problem::WriteFailed(args.host_path), event),
        ),
        (WifiState::ReadingDir, Event::Entries(entries)) => turn == report(
            Notice::Listing(entries),
        ),
        (WifiState::Removing { path }, Event::Done) => turn == report(Notice::Removed(path)),
        (WifiState::Executing, Event::Output(output)) => turn == report(Notice::Output(output)),
        (WifiState::FetchingInfo { json: true }, Event::Info(info)) => {
            &&& turn matches Turn::Act(WifiState::Reporting, Action::Tell(Notice::Text(shown)))
            &&& shown@ == json_pretty(json_content(info))
        },
        (WifiState::FetchingInfo { json: false }, Event::Info(info)) => {
            &&& turn matches Turn::Act(WifiState::Reporting, Action::Tell(Notice::Lines(lines)))
            &&& is_info_report(json_content(info), lines.deep_view())
        },
        (WifiState::LookingUp { serial }, Event::Credentials(credentials)) => turn == Turn::Act(
            WifiState::Naming { serial, default: stored_nickname(credentials) },
            Action::Ask(Notice::NicknameQuestion(stored_nickname(credentials))),
        ),
        (WifiState::Naming { serial, default }, Event::Line(line)) => exists|
            nickname: Option<String>,
        |
            optional_view(nickname) == chosen_nickname(optional_view(default), line@) && turn
                == #[trigger] while_pairing(pairing_begun(serial, nickname)),
        (WifiState::Pairing(state), event) => turn == while_pairing(pair_turn(state, event)),
        (WifiState::Discovering(state), event) => exists|step: Turn<DiscoverState>| #[trigger]
            discover_steps(state, event, step) && turn == while_discovering(step),
        (WifiState::Reporting, Event::Done) => turn == Turn::<WifiState>::Done,
        (_, event) => turn == Turn::<WifiState>::Fail(failed_with(event)),
    }
}

/// Takes a command over Wi-Fi one event further.
pub fn run_wifi_commands(state: WifiState, event: Event) -> (res: Turn<WifiState>)
    ensures
        wifi_steps(state, event, res),
{
    match (state, event) {
        (WifiState::Finding { device_arg, command }, Event::Found(found)) => {
            match get_active_device(device_arg, found) {
                Ok(device) => Turn::Act(
                    WifiState::Connecting { command },
                    Action::Connect {
                        serial: device.serial,
                        password: device.credentials.password,
                    },
                ),
                Err(problem) => Turn::Fail(Failure::Refused(problem)),
            }
        },
        (WifiState::Connecting { command }, Event::Done) => connected(command),
        (WifiState::TellingDryRun(args), Event::Done) => begin_sync(args),
        (WifiState::Syncing { verbose }, Event::Done) => {
            if verbose {
                Turn::Act(WifiState::Reporting, Action::Tell(Notice::SyncDone))
            } else {
                Turn::Done
            }
        },
        (WifiState::ReadingFile(args), Event::Bytes(data)) => {
            let label = if args.no_progress {
                None
            } else {
                Some(upload_label(args.host_path.as_str()))
            };
            let action = Action::Upload { device_path: args.device_path.clone(), data, label };
            Turn::Act(
                WifiState::Uploading { host_path: args.host_path, device_path: args.device_path },
                action,
            )
        },
        (WifiState::ReadingFile(args), event) => Turn::Fail(
            failure_by(Problem::ReadFailed(args.host_path), event),
        ),
        (WifiState::Uploading { host_path, device_path }, Event::Done) => Turn::Act(
            WifiState::Reporting,
            Action::Tell(Notice::Uploaded { host_path, device_path }),
        ),
        (WifiState::ReadingMusic { queue, display, name }, Event::Bytes(data)) => {
            let device_path = music_device_path(name.as_str());
            let action = Action::Upload { device_path: device_path.clone(), data, label: None };
            Turn::Act(WifiState::UploadingMusic { queue, display, device_path }, action)
        },
        (WifiState::ReadingMusic { queue, display, name }, event) => Turn::Fail(
            failure_by(Problem::ReadFailed(display), event),
        ),
        (WifiState::UploadingMusic { queue, display, device_path }, Event::Done) => Turn::Act(
            WifiState::TellingMusic { queue },
            Action::Tell(Notice::Uploaded { host_path: display, device_path }),
        ),
        (WifiState::TellingMusic { queue }, Event::Done) => visit_music(queue),
        (WifiState::Downloading(args), Event::Bytes(data)) => {
            let length: u64 = data.len() as u64;
            let action = Action::WriteFile { host_path: args.host_path.clone(), data };
            Turn::Act(WifiState::Writing { args, length }, action)
        },
        (WifiState::Writing { args, length }, Event::Done) => Turn::Act(
            WifiState::Reporting,
            Action::Tell(
                Notice::Downloaded {
                    device_path: args.device_path,
                    host_path: args.host_path,
                    length,
                },
            ),
        ),
        (WifiState::Writing { args, length }, event) => Turn::Fail(
            failure_by(Problem::WriteFailed(args.host_path), event),
        ),
        (WifiState::ReadingDir, Event::Entries(entries)) => Turn::Act(
            WifiState::Reporting,
            Action::Tell(Notice::Listing(entries)),
        ),
        (WifiState::Removing { path }, Event::Done) => Turn::Act(
            WifiState::Reporting,
            Action::Tell(Notice::Removed(path)),
        ),
        (WifiState::Executing, Event::Output(output)) => Turn::Act(
            WifiState::Reporting,
            Action::Tell(Notice::Output(output)),
        ),
        (WifiState::FetchingInfo { json }, Event::Info(info)) => {
            if json {
                match info_json(&info) {
                    Ok(text) => Turn::Act(
                        WifiState::Reporting,
                        Action::Tell(Notice::Text(text)),
                    ),
                    Err(error) => Turn::Fail(Failure::Json(error)),
                }
            } else {
                Turn::Act(WifiState::Reporting, Action::Tell(Notice::Lines(info_lines(&info))))
            }
        },
        (WifiState::LookingUp { serial }, Event::Credentials(credentials)) => {
            let default = nickname_of(credentials);
            let shown = copied(&default);
            Turn::Act(
                WifiState::Naming { serial, default },
                Action::Ask(Notice::NicknameQuestion(shown)),
            )
        },
        (WifiState::Naming { serial, default }, Event::Line(line)) => {
            let nickname = prompt_nickname(default, line.as_str());
            from_pairing(begin_pairing(serial, nickname))
        },
        (WifiState::Pairing(state), event) => from_pairing(pair_and_save(state, event)),
        (WifiState::Discovering(state), event) => from_discovery(discover(state, event)),
        (WifiState::Reporting, Event::Done) => Turn::Done,
        (_, event) => Turn::Fail(failure_of(event)),
    }
}

} // verus!
