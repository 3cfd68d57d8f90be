//! Laws of the commands on the active device: what each of them asks for, from
//! the command line on, turn by turn.

use crate::command::{
    Cli, Commands, DeviceCommands, DownloadFileArgs, MusicFile, SyncDirArgs, UploadFileArgs,
    WifiCommands,
};
use crate::json::{is_info_report, json_content, json_pretty};
use crate::laws::parts::{
    is_repairing, keeps_to, lemma_wifi_part, lemma_wifi_turn, lookup_of,
    serial_in,
};
use crate::laws::runs::{asks, is_session_run, is_wifi_run};
use crate::notice::Notice;
use crate::progress::is_label;
use crate::protocol::{Action, Event, Turn};
use crate::session::{session_begun, session_steps, while_on_wifi, Session};
use crate::text::sanitized;
use crate::wifi::{wifi_begun, wifi_steps, WifiState, MUSIC_DIR};
use vstd::prelude::*;

verus! {

/// The command line of a command on the active device.
pub open spec fn is_device_command(cli: Cli, command: DeviceCommands) -> bool {
    cli.command == Commands::Wifi(WifiCommands::OnDevice(command))
}

/// The actions that open a connection: the device of the command line is looked
/// up, and looked up again by the command, which then connects to what was found
/// with the password that the store has for it.
pub open spec fn opens(device: Option<String>, events: Seq<Event>, i: int, action: Action) -> bool {
    &&& i == 0 || i == 1 ==> action == lookup_of(device)
    &&& i == 2 ==> {
        &&& events[1] matches Event::Found(Some(found))
        &&& action == (Action::Connect {
            serial: found.serial,
            password: found.credentials.password,
        })
    }
}

/// State and action of a command on the active device at turn `i` of the run,
/// once it is connected.
spec fn on_device_at(
    command: DeviceCommands,
    events: Seq<Event>,
    i: int,
    state: WifiState,
    action: Action,
) -> bool {
    match command {
        DeviceCommands::SyncDir(args) => {
            let first: int = if args.dry_run { 4 } else { 3 };
            if args.dry_run && i == 3 {
                &&& state == WifiState::TellingDryRun(args)
                &&& action == Action::Tell(Notice::DryRun)
            } else if i == first {
                &&& state == (WifiState::Syncing { verbose: args.verbose })
                &&& action == (Action::SyncDir {
                    host_dir: args.host_dir,
                    device_dir: args.device_dir,
                    delete: args.delete,
                    dry_run: args.dry_run,
                    progress: !args.no_progress,
                })
            } else {
                &&& i == first + 1
                &&& args.verbose
                &&& state == WifiState::Reporting
                &&& action == Action::Tell(Notice::SyncDone)
            }
        },
        DeviceCommands::UploadFile(args) => if i == 3 {
            &&& state == WifiState::ReadingFile(args)
            &&& action == Action::ReadFile(args.host_path)
        } else if i == 4 {
            &&& state == (WifiState::Uploading {
                host_path: args.host_path,
                device_path: args.device_path,
            })
            &&& sends_file(args, events, action)
        } else {
            &&& i == 5
            &&& state == WifiState::Reporting
            &&& action == Action::Tell(
                Notice::Uploaded { host_path: args.host_path, device_path: args.device_path },
            )
        },
        DeviceCommands::UploadMusic(files) => {
            let k = (i - 3) / 3;
            &&& 0 <= k < files@.len()
            &&& files@.len() == files.len()
            &&& files@[k].name matches Some(name)
            &&& if (i - 3) % 3 == 0 {
                &&& state matches WifiState::ReadingMusic { queue, display, name: read }
                &&& queue.files == files && queue.next == k + 1
                &&& display == files@[k].display
                &&& read == name
                &&& action == Action::ReadMusic(k as usize)
            } else if (i - 3) % 3 == 1 {
                &&& state matches WifiState::UploadingMusic { queue, display, device_path }
                &&& queue.files == files && queue.next == k + 1
                &&& display == files@[k].display
                &&& sends_music(name@, device_path, events[i - 1], action)
            } else {
                &&& state matches WifiState::TellingMusic { queue }
                &&& queue.files == files && queue.next == k + 1
                &&& tells_music(files@[k], name@, action)
            }
        },
        DeviceCommands::DownloadFile(args) => if i == 3 {
            &&& state == WifiState::Downloading(args)
            &&& action == Action::Download(args.device_path)
        } else {
            &&& events[3] matches Event::Bytes(data)
            &&& if i == 4 {
                &&& state == (WifiState::Writing { args, length: data@.len() as u64 })
                &&& action == (Action::WriteFile { host_path: args.host_path, data })
            } else {
                &&& i == 5
                &&& state == WifiState::Reporting
                &&& action == Action::Tell(
                    Notice::Downloaded {
                        device_path: args.device_path,
                        host_path: args.host_path,
                        length: data@.len() as u64,
                    },
                )
            }
        },
        DeviceCommands::LsDir { path } => if i == 3 {
            &&& state == WifiState::ReadingDir
            &&& action == Action::ReadDir(path)
        } else {
            &&& i == 4
            &&& state == WifiState::Reporting
            &&& events[3] matches Event::Entries(entries)
            &&& action == Action::Tell(Notice::Listing(entries))
        },
        DeviceCommands::RmFile { path } => if i == 3 {
            &&& state == (WifiState::Removing { path })
            &&& action == Action::RemoveFile(path)
        } else {
            &&& i == 4
            &&& state == WifiState::Reporting
            &&& action == Action::Tell(Notice::Removed(path))
        },
        DeviceCommands::RmDir { path, recursive } => if i == 3 {
            &&& state == (WifiState::Removing { path })
            &&& action == (if recursive {
                Action::RemoveDirAll(path)
            } else {
                Action::RemoveDir(path)
            })
        } else {
            &&& i == 4
            &&& state == WifiState::Reporting
            &&& action == Action::Tell(Notice::Removed(path))
        },
        DeviceCommands::ExecuteCommand { command } => if i == 3 {
            &&& state == WifiState::Executing
            &&& action == Action::RunCommand(command)
        } else {
            &&& i == 4
            &&& state == WifiState::Reporting
            &&& events[3] matches Event::Output(output)
            &&& action == Action::Tell(Notice::Output(output))
        },
        DeviceCommands::GetInfo { json } => if i == 3 {
            &&& state == (WifiState::FetchingInfo { json })
            &&& action == Action::GetInfo
        } else {
            &&& i == 4
            &&& state == WifiState::Reporting
            &&& events[3] matches Event::Info(info)
            &&& tells_info(json, info, action)
        },
    }
}

/// The upload of a file: to the device path, and of what was just read.
pub open spec fn sends_file(args: UploadFileArgs, events: Seq<Event>, action: Action) -> bool {
    &&& action matches Action::Upload { device_path, data, label }
    &&& device_path == args.device_path
    &&& events[3] == Event::Bytes(data)
    &&& match label {
        Some(label) => !args.no_progress && is_label(label@, args.host_path@),
        None => args.no_progress,
    }
}

/// The upload of a music file: to the music directory, under the sanitized name,
/// of what was just read, and without a progress bar.
pub open spec fn sends_music(
    name: Seq<char>,
    device_path: String,
    read: Event,
    action: Action,
) -> bool {
    &&& device_path@ == "/sd/activities/user/music/"@ + sanitized(name)
    &&& action matches Action::Upload { device_path: sent_to, data, label }
    &&& sent_to == device_path
    &&& read == Event::Bytes(data)
    &&& label is None
}

/// The notice of an uploaded music file: from the path as it is shown, to where
/// it went.
pub open spec fn tells_music(file: MusicFile, name: Seq<char>, action: Action) -> bool {
    &&& action matches Action::Tell(Notice::Uploaded { host_path, device_path })
    &&& host_path == file.display
    &&& device_path@ == "/sd/activities/user/music/"@ + sanitized(name)
}

/// The notice of a device's information: a JSON document, or a report.
pub open spec fn tells_info(json: bool, info: serde_json::Value, action: Action) -> bool {
    if json {
        &&& action matches Action::Tell(Notice::Text(text))
        &&& text@ == json_pretty(json_content(info))
    } else {
        &&& action matches Action::Tell(Notice::Lines(lines))
        &&& is_info_report(json_content(info), lines.deep_view())
    }
}

/// The number of actions of a command that ends well.
spec fn length_of(command: DeviceCommands) -> int {
    match command {
        DeviceCommands::SyncDir(args) => 4 + (if args.dry_run { 1int } else { 0 }) + (
        if args.verbose { 1int } else { 0 }),
        DeviceCommands::UploadFile(_) | DeviceCommands::DownloadFile(_) => 6,
        DeviceCommands::UploadMusic(files) => 3 + 3 * files@.len() as int,
        _ => 5,
    }
}

/// Turn `w` of the run of the command itself, which is turn `w + 1` of the run
/// of the tool.
spec fn device_turn_at(
    device: Option<String>,
    command: DeviceCommands,
    events: Seq<Event>,
    w: int,
    turn: Turn<WifiState>,
) -> bool {
    match turn {
        Turn::Act(state, action) => if w == 0 {
            &&& state == (WifiState::Finding { device_arg: device, command })
            &&& opens(device, events, 1, action)
        } else if w == 1 {
            &&& state == (WifiState::Connecting { command })
            &&& opens(device, events, 2, action)
        } else {
            on_device_at(command, events, w + 1, state, action)
        },
        Turn::Done => w + 1 == length_of(command),
        Turn::Fail(_) => true,
    }
}

proof fn lemma_music_dir()
    ensures
        MUSIC_DIR@ + "/"@ =~= "/sd/activities/user/music/"@,
{
    reveal_strlit("/sd/activities/user/music");
    reveal_strlit("/");
    reveal_strlit("/sd/activities/user/music/");
}

#[verifier::rlimit(60)]
proof fn lemma_device_step(
    device: Option<String>,
    command: DeviceCommands,
    events: Seq<Event>,
    w: int,
    before: Turn<WifiState>,
    turn: Turn<WifiState>,
)
    requires
        w > 0,
        before is Act,
        device_turn_at(device, command, events, w - 1, before),
        wifi_steps(before->Act_0, events[w], turn),
    ensures
        device_turn_at(device, command, events, w, turn),
{
    if let DeviceCommands::UploadMusic(files) = command {
        assert(files.len() == files@.len());
        lemma_music_dir();
    }
}

proof fn lemma_device_schedule(
    device: Option<String>,
    command: DeviceCommands,
    events: Seq<Event>,
    part: Seq<Turn<WifiState>>,
    w: int,
)
    requires
        0 <= w < part.len() <= events.len(),
        is_wifi_run(
            wifi_begun(device, WifiCommands::OnDevice(command)),
            events.subrange(1, part.len() as int),
            part,
        ),
    ensures
        device_turn_at(device, command, events, w, part[w]),
    decreases w,
{
    if w > 0 {
        lemma_device_schedule(device, command, events, part, w - 1);
        let event = events.subrange(1, part.len() as int)[w - 1];
        assert(event == events[w]);
        assert(part[w - 1] is Act && wifi_steps(part[w - 1]->Act_0, event, part[w]));
        lemma_device_step(device, command, events, w, part[w - 1], part[w]);
    }
}

/// What turn `i` of a run asks for before repair, and when it is done.
proof fn lemma_device_command(
    cli: Cli,
    command: DeviceCommands,
    events: Seq<Event>,
    turns: Seq<Turn<Session>>,
    i: int,
)
    requires
        is_session_run(session_begun(cli), events, turns),
        is_device_command(cli, command),
        0 <= i < turns.len(),
        !is_repairing(turns, i),
    ensures
        match turns[i] {
            Turn::Act(_, action) => {
                &&& opens(cli.device, events, i, action)
                &&& i >= 3 ==> exists|state: WifiState| #[trigger]
                    on_device_at(command, events, i, state, action)
            },
            Turn::Done => i == length_of(command),
            Turn::Fail(_) => true,
        },
{
    if i > 0 && !(turns[i] is Fail) {
        let part = lemma_wifi_turn(cli, WifiCommands::OnDevice(command), events, turns, i);
        lemma_device_schedule(cli.device, command, events, part, i - 1);
        if i >= 3 && turns[i] is Act {
            assert(on_device_at(command, events, i, part[i - 1]->Act_0, turns[i]->Act_1));
        }
    }
}

proof fn lemma_device_commands(
    cli: Cli,
    command: DeviceCommands,
    events: Seq<Event>,
    turns: Seq<Turn<Session>>,
)
    requires
        is_session_run(session_begun(cli), events, turns),
        is_device_command(cli, command),
    ensures
        forall|i: int|
            0 <= i < turns.len() && !is_repairing(turns, i) ==> match #[trigger] turns[i] {
                Turn::Act(_, action) => {
                    &&& opens(cli.device, events, i, action)
                    &&& i >= 3 ==> exists|state: WifiState| #[trigger]
                        on_device_at(command, events, i, state, action)
                },
                Turn::Done => i == length_of(command),
                Turn::Fail(_) => true,
            },
{
    assert forall|i: int| 0 <= i < turns.len() && !is_repairing(turns, i) implies match
        #[trigger] turns[i] {
        Turn::Act(_, action) => {
            &&& opens(cli.device, events, i, action)
            &&& i >= 3 ==> exists|state: WifiState| #[trigger]
                on_device_at(command, events, i, state, action)
        },
        Turn::Done => i == length_of(command),
        Turn::Fail(_) => true,
    } by {
        lemma_device_command(cli, command, events, turns, i);
    }
}

/// Repair asks nothing of the device but to pair.
proof fn lemma_repair_actions(session: Session, event: Event, turn: Turn<Session>)
    requires
        session is Repairing,
        session_steps(session, event, turn),
    ensures
        turn matches Turn::Act(next, action) ==> next is Repairing && !(action is SyncDir) && !(
        action is Upload) && !(action is WriteFile),
{
}

proof fn lemma_repair_stays(
    cli: Cli,
    events: Seq<Event>,
    turns: Seq<Turn<Session>>,
    j: int,
    i: int,
)
    requires
        is_session_run(session_begun(cli), events, turns),
        0 <= j <= i < turns.len(),
        turns[j] is Act && turns[j]->Act_0 is Repairing,
        turns[i] is Act,
    ensures
        turns[i]->Act_0 is Repairing,
        j < i ==> !(turns[i]->Act_1 is SyncDir) && !(turns[i]->Act_1 is Upload) && !(
        turns[i]->Act_1 is WriteFile),
    decreases i,
{
    if j < i {
        let event = events[i - 1];
        assert(turns[i - 1] is Act && session_steps(turns[i - 1]->Act_0, event, turns[i]));
        lemma_repair_stays(cli, events, turns, j, i - 1);
        lemma_repair_actions(turns[i - 1]->Act_0, event, turns[i]);
    }
}

/// An action that asks the device for a transfer, or writes a file, is not one
/// of repair.
proof fn lemma_transfers_come_before_repair(
    cli: Cli,
    command: DeviceCommands,
    events: Seq<Event>,
    turns: Seq<Turn<Session>>,
    i: int,
)
    requires
        is_session_run(session_begun(cli), events, turns),
        is_device_command(cli, command),
        0 <= i < turns.len(),
        turns[i] is Act,
        turns[i]->Act_1 is SyncDir || turns[i]->Act_1 is Upload || turns[i]->Act_1 is WriteFile,
    ensures
        !is_repairing(turns, i),
{
    if is_repairing(turns, i) {
        let event = events[0];
        assert(i > 0);
        assert(turns[0] is Act && session_steps(turns[0]->Act_0, event, turns[1]));
        if i > 1 {
            let event = events[1];
            assert(turns[1] is Act);
        }
        let part = lemma_wifi_part(cli, WifiCommands::OnDevice(command), events, turns);
        let active = serial_in(events[0]->Found_0);
        let n = part.len() as int;
        assert(turns[n] == while_on_wifi(active, part[n - 1]));
        if i > n {
            let event = events[n];
            assert(turns[n] is Act);
            lemma_repair_stays(cli, events, turns, n, i);
        } else {
            let j = choose|j: int|
                0 <= j <= i && asks(#[trigger] turns[j], Action::Tell(Notice::Unauthorized));
            assert(turns[i] == while_on_wifi(active, part[i - 1]));
            assert(j > 0);
            assert(turns[j] == while_on_wifi(active, part[j - 1]));
            lemma_device_schedule(cli.device, command, events, part, j - 1);
            if j < i {
                let event = events.subrange(1, n)[j - 1];
                assert(part[j - 1] is Act);
            }
        }
    }
}

/// Syncing a directory opens a connection, announces a dry run, syncs once, with
/// the directories and the flags of the command line, and reports the end where
/// that is asked for.
pub proof fn law_sync_dir(
    cli: Cli,
    args: SyncDirArgs,
    events: Seq<Event>,
    turns: Seq<Turn<Session>>,
)
    requires
        is_session_run(session_begun(cli), events, turns),
        is_device_command(cli, DeviceCommands::SyncDir(args)),
    ensures
        ({
            let first: int = if args.dry_run { 4 } else { 3 };
            keeps_to(
                turns,
                if args.verbose { first + 2 } else { first + 1 },
                |i: int, action: Action|
                    {
                        &&& opens(cli.device, events, i, action)
                        &&& 3 <= i < first ==> action == Action::Tell(Notice::DryRun)
                        &&& i == first ==> action == (Action::SyncDir {
                            host_dir: args.host_dir,
                            device_dir: args.device_dir,
                            delete: args.delete,
                            dry_run: args.dry_run,
                            progress: !args.no_progress,
                        })
                        &&& i > first ==> args.verbose && action == Action::Tell(Notice::SyncDone)
                    },
            )
        }),
        forall|i: int|
            0 <= i < turns.len() && (#[trigger] turns[i]) is Act && turns[i]->Act_1 is SyncDir ==> {
                &&& turns[i]->Act_1->SyncDir_host_dir == args.host_dir
                &&& turns[i]->Act_1->SyncDir_device_dir == args.device_dir
                &&& turns[i]->Act_1->SyncDir_delete == args.delete
                &&& turns[i]->Act_1->SyncDir_dry_run == args.dry_run
                &&& turns[i]->Act_1->SyncDir_progress == !args.no_progress
            },
{
    let command = DeviceCommands::SyncDir(args);
    lemma_device_commands(cli, command, events, turns);
    assert forall|i: int|
        0 <= i < turns.len() && (#[trigger] turns[i]) is Act
            && turns[i]->Act_1 is SyncDir implies !is_repairing(turns, i) by {
        lemma_transfers_come_before_repair(cli, command, events, turns, i);
    }
}

/// Uploading a file opens a connection, reads the host path, sends what was read
/// to the device path, with a progress bar unless that is switched off, and
/// reports both paths. Nothing else is ever sent.
pub proof fn law_upload_file(
    cli: Cli,
    args: UploadFileArgs,
    events: Seq<Event>,
    turns: Seq<Turn<Session>>,
)
    requires
        is_session_run(session_begun(cli), events, turns),
        is_device_command(cli, DeviceCommands::UploadFile(args)),
    ensures
        keeps_to(
            turns,
            6,
            |i: int, action: Action|
                {
                    &&& opens(cli.device, events, i, action)
                    &&& i == 3 ==> action == Action::ReadFile(args.host_path)
                    &&& i == 4 ==> sends_file(args, events, action)
                    &&& i == 5 ==> action == Action::Tell(
                        Notice::Uploaded {
                            host_path: args.host_path,
                            device_path: args.device_path,
                        },
                    )
                },
        ),
        forall|i: int|
            0 <= i < turns.len() && (#[trigger] turns[i]) is Act && turns[i]->Act_1 is Upload
                ==> i == 4 && sends_file(args, events, turns[i]->Act_1),
{
    let command = DeviceCommands::UploadFile(args);
    lemma_device_commands(cli, command, events, turns);
    assert forall|i: int|
        0 <= i < turns.len() && (#[trigger] turns[i]) is Act
            && turns[i]->Act_1 is Upload implies !is_repairing(turns, i) by {
        lemma_transfers_come_before_repair(cli, command, events, turns, i);
    }
}

/// Uploading music opens a connection and takes the files of the command line in
/// their order, three actions each: the file is read, what was read goes to the
/// music directory under the sanitized name, and that is reported. A file without
/// a usable name gets none of the three.
pub proof fn law_upload_music(
    cli: Cli,
    files: Vec<MusicFile>,
    events: Seq<Event>,
    turns: Seq<Turn<Session>>,
)
    requires
        is_session_run(session_begun(cli), events, turns),
        is_device_command(cli, DeviceCommands::UploadMusic(files)),
    ensures
        keeps_to(
            turns,
            3 + 3 * files@.len() as int,
            |i: int, action: Action|
                {
                    let k = (i - 3) / 3;
                    &&& opens(cli.device, events, i, action)
                    &&& i >= 3 ==> {
                        &&& files@[k].name matches Some(name)
                        &&& (i - 3) % 3 == 0 ==> action == Action::ReadMusic(k as usize)
                        &&& (i - 3) % 3 == 1 ==> action is Upload && sends_music(
                            name@,
                            action->Upload_device_path,
                            events[i - 1],
                            action,
                        )
                        &&& (i - 3) % 3 == 2 ==> tells_music(files@[k], name@, action)
                    }
                },
        ),
        forall|i: int|
            0 <= i < turns.len() && (#[trigger] turns[i]) is Act && turns[i]->Act_1 is Upload ==> {
                let k = (i - 4) / 3;
                &&& i == 4 + 3 * k
                &&& 0 <= k < files@.len()
                &&& files@[k].name matches Some(name)
                &&& sends_music(
                    name@,
                    turns[i]->Act_1->Upload_device_path,
                    events[i - 1],
                    turns[i]->Act_1,
                )
            },
{
    let command = DeviceCommands::UploadMusic(files);
    lemma_device_commands(cli, command, events, turns);
    assert forall|i: int|
        0 <= i < turns.len() && (#[trigger] turns[i]) is Act
            && turns[i]->Act_1 is Upload implies !is_repairing(turns, i) by {
        lemma_transfers_come_before_repair(cli, command, events, turns, i);
    }
}

/// Downloading a file opens a connection, downloads the device path, writes what
/// was received to the host path, and reports both paths and the length. Nothing
/// else is ever written.
pub proof fn law_download_file(
    cli: Cli,
    args: DownloadFileArgs,
    events: Seq<Event>,
    turns: Seq<Turn<Session>>,
)
    requires
        is_session_run(session_begun(cli), events, turns),
        is_device_command(cli, DeviceCommands::DownloadFile(args)),
    ensures
        keeps_to(
            turns,
            6,
            |i: int, action: Action|
                {
                    &&& opens(cli.device, events, i, action)
                    &&& i == 3 ==> action == Action::Download(args.device_path)
                    &&& i >= 4 ==> {
                        &&& events[3] matches Event::Bytes(data)
                        &&& i == 4 ==> action == (Action::WriteFile {
                            host_path: args.host_path,
                            data,
                        })
                        &&& i == 5 ==> action == Action::Tell(
                            Notice::Downloaded {
                                device_path: args.device_path,
                                host_path: args.host_path,
                                length: data@.len() as u64,
                            },
                        )
                    }
                },
        ),
        forall|i: int|
            0 <= i < turns.len() && (#[trigger] turns[i]) is Act && turns[i]->Act_1 is WriteFile
                ==> i == 4 && turns[i]->Act_1->WriteFile_host_path == args.host_path && events[3]
                == Event::Bytes(turns[i]->Act_1->WriteFile_data),
{
    let command = DeviceCommands::DownloadFile(args);
    lemma_device_commands(cli, command, events, turns);
    assert forall|i: int|
        0 <= i < turns.len() && (#[trigger] turns[i]) is Act
            && turns[i]->Act_1 is WriteFile implies !is_repairing(turns, i) by {
        lemma_transfers_come_before_repair(cli, command, events, turns, i);
    }
}

/// Listing a directory opens a connection, reads the path, and shows the entries
/// that came back.
pub proof fn law_ls_dir(
    cli: Cli,
    path: String,
    events: Seq<Event>,
    turns: Seq<Turn<Session>>,
)
    requires
        is_session_run(session_begun(cli), events, turns),
        is_device_command(cli, DeviceCommands::LsDir { path }),
    ensures
        keeps_to(
            turns,
            5,
            |i: int, action: Action|
                {
                    &&& opens(cli.device, events, i, action)
                    &&& i == 3 ==> action == Action::ReadDir(path)
                    &&& i == 4 ==> events[3] is Entries && action == Action::Tell(
                        Notice::Listing(events[3]->Entries_0),
                    )
                },
        ),
{
    lemma_device_commands(cli, DeviceCommands::LsDir { path }, events, turns);
}

/// Removing a file opens a connection, removes the path as a file, and says so.
pub proof fn law_rm_file(
    cli: Cli,
    path: String,
    events: Seq<Event>,
    turns: Seq<Turn<Session>>,
)
    requires
        is_session_run(session_begun(cli), events, turns),
        is_device_command(cli, DeviceCommands::RmFile { path }),
    ensures
        keeps_to(
            turns,
            5,
            |i: int, action: Action|
                {
                    &&& opens(cli.device, events, i, action)
                    &&& i == 3 ==> action == Action::RemoveFile(path)
                    &&& i == 4 ==> action == Action::Tell(Notice::Removed(path))
                },
        ),
{
    lemma_device_commands(cli, DeviceCommands::RmFile { path }, events, turns);
}

/// Removing a directory opens a connection, removes the path as a directory, with
/// its contents only where that is asked for, and says so.
pub proof fn law_rm_dir(
    cli: Cli,
    path: String,
    recursive: bool,
    events: Seq<Event>,
    turns: Seq<Turn<Session>>,
)
    requires
        is_session_run(session_begun(cli), events, turns),
        is_device_command(cli, DeviceCommands::RmDir { path, recursive }),
    ensures
        keeps_to(
            turns,
            5,
            |i: int, action: Action|
                {
                    &&& opens(cli.device, events, i, action)
                    &&& i == 3 && recursive ==> action == Action::RemoveDirAll(path)
                    &&& i == 3 && !recursive ==> action == Action::RemoveDir(path)
                    &&& i == 4 ==> action == Action::Tell(Notice::Removed(path))
                },
        ),
{
    lemma_device_commands(cli, DeviceCommands::RmDir { path, recursive }, events, turns);
}

/// Running a command opens a connection, runs the command of the command line,
/// and passes its output on.
pub proof fn law_execute_command(
    cli: Cli,
    command: String,
    events: Seq<Event>,
    turns: Seq<Turn<Session>>,
)
    requires
        is_session_run(session_begun(cli), events, turns),
        is_device_command(cli, DeviceCommands::ExecuteCommand { command }),
    ensures
        keeps_to(
            turns,
            5,
            |i: int, action: Action|
                {
                    &&& opens(cli.device, events, i, action)
                    &&& i == 3 ==> action == Action::RunCommand(command)
                    &&& i == 4 ==> events[3] is Output && action == Action::Tell(
                        Notice::Output(events[3]->Output_0),
                    )
                },
        ),
{
    lemma_device_commands(cli, DeviceCommands::ExecuteCommand { command }, events, turns);
}

/// Fetching a device's information opens a connection, fetches it, and shows it:
/// as a JSON document where that is asked for, else as a report.
pub proof fn law_get_info(
    cli: Cli,
    json: bool,
    events: Seq<Event>,
    turns: Seq<Turn<Session>>,
)
    requires
        is_session_run(session_begun(cli), events, turns),
        is_device_command(cli, DeviceCommands::GetInfo { json }),
    ensures
        keeps_to(
            turns,
            5,
            |i: int, action: Action|
                {
                    &&& opens(cli.device, events, i, action)
                    &&& i == 3 ==> action == Action::GetInfo
                    &&& i == 4 ==> events[3] is Info && tells_info(
                        json,
                        events[3]->Info_0,
                        action,
                    )
                },
        ),
{
    lemma_device_commands(cli, DeviceCommands::GetInfo { json }, events, turns);
}

} // verus!
