//! Laws of uploads and downloads.

use crate::command::{
    DeviceCommands, DownloadFileArgs, MusicFile, SyncDirArgs, UploadFileArgs, WifiCommands,
};
use crate::laws::runs::{asks, is_wifi_run};
use crate::notice::Notice;
use crate::progress::is_label;
use crate::protocol::{Action, Event, Turn};
use crate::wifi::{music_path, wifi_begun, wifi_steps, MusicQueue, WifiState};
use vstd::prelude::*;

verus! {

/// Turn `i` of a run that uploads music, where it asks for an action.
spec fn music_turn_at(
    files: Vec<MusicFile>,
    events: Seq<Event>,
    i: int,
    turn: Turn<WifiState>,
) -> bool {
    let k = (i - 2) / 3;
    let queue = MusicQueue { files, next: (k + 1) as usize };
    if i == 0 {
        turn->Act_0 is Finding && turn->Act_0->Finding_command == DeviceCommands::UploadMusic(files)
    } else if i == 1 {
        turn->Act_0 == (WifiState::Connecting { command: DeviceCommands::UploadMusic(files) })
    } else {
        &&& 0 <= k < files@.len()
        &&& files@[k].name is Some
        &&& if (i - 2) % 3 == 0 {
            &&& turn->Act_0 == (WifiState::ReadingMusic {
                queue,
                display: files@[k].display,
                name: files@[k].name->Some_0,
            })
            &&& turn->Act_1 == Action::ReadMusic(k as usize)
        } else if (i - 2) % 3 == 1 {
            &&& turn matches Turn::Act(
                WifiState::UploadingMusic { queue: kept, display, device_path },
                Action::Upload { device_path: target, data, label: None },
            )
            &&& kept == queue
            &&& display == files@[k].display
            &&& device_path == target
            &&& target@ == music_path(files@[k].name->Some_0@)
            &&& events[i - 1] == Event::Bytes(data)
        } else {
            &&& turn matches Turn::Act(
                WifiState::TellingMusic { queue: kept },
                Action::Tell(Notice::Uploaded { .. }),
            )
            &&& kept == queue
        }
    }
}

proof fn lemma_music_schedule(
    device_arg: Option<String>,
    files: Vec<MusicFile>,
    events: Seq<Event>,
    turns: Seq<Turn<WifiState>>,
    i: int,
)
    requires
        is_wifi_run(
            wifi_begun(device_arg, WifiCommands::OnDevice(DeviceCommands::UploadMusic(files))),
            events,
            turns,
        ),
        0 <= i < turns.len(),
    ensures
        turns[i] is Act ==> music_turn_at(files, events, i, turns[i]),
        turns[i] is Done ==> i == 2 + 3 * files@.len(),
    decreases i,
{
    if i > 0 {
        lemma_music_schedule(device_arg, files, events, turns, i - 1);
        let event = events[i - 1];
        assert(turns[i - 1] is Act && wifi_steps(turns[i - 1]->Act_0, event, turns[i]));
        assert(files.len() == files@.len());
    }
}

/// A run that uploads music takes the files in the order of the command line.
/// What it sends to the device is, byte for byte, what was read from the file
/// just before, and goes to the path of the file's sanitized name. A run that
/// ends well has uploaded every file.
pub proof fn law_music_is_uploaded_in_order(
    device_arg: Option<String>,
    files: Vec<MusicFile>,
    events: Seq<Event>,
    turns: Seq<Turn<WifiState>>,
)
    requires
        is_wifi_run(
            wifi_begun(device_arg, WifiCommands::OnDevice(DeviceCommands::UploadMusic(files))),
            events,
            turns,
        ),
    ensures
        forall|i: int|
            0 <= i < turns.len() && (#[trigger] turns[i]) is Act && turns[i]->Act_1 is Upload ==> {
                let k = (i - 3) / 3;
                &&& i == 3 + 3 * k
                &&& 0 <= k < files@.len()
                &&& asks(turns[i - 1], Action::ReadMusic(k as usize))
                &&& files@[k].name matches Some(name)
                &&& turns[i]->Act_1->Upload_device_path@ == music_path(name@)
                &&& events[i - 1] == Event::Bytes(turns[i]->Act_1->Upload_data)
            },
        turns.last() is Done ==> {
            &&& turns.len() == 3 + 3 * files@.len()
            &&& forall|k: int|
                0 <= k < files@.len() ==> (#[trigger] turns[3 + 3 * k]) is Act && turns[3 + 3
                    * k]->Act_1 is Upload
        },
{
    assert forall|i: int|
        0 <= i < turns.len() && (#[trigger] turns[i]) is Act && turns[i]->Act_1 is Upload implies {
        let k = (i - 3) / 3;
        &&& i == 3 + 3 * k
        &&& 0 <= k < files@.len()
        &&& asks(turns[i - 1], Action::ReadMusic(k as usize))
        &&& files@[k].name matches Some(name)
        &&& turns[i]->Act_1->Upload_device_path@ == music_path(name@)
        &&& events[i - 1] == Event::Bytes(turns[i]->Act_1->Upload_data)
    } by {
        lemma_music_schedule(device_arg, files, events, turns, i);
        if i > 0 {
            lemma_music_schedule(device_arg, files, events, turns, i - 1);
            assert(turns[i - 1] is Act && wifi_steps(
                turns[i - 1]->Act_0,
                events[i - 1],
                turns[i],
            ));
        }
    }
    if turns.last() is Done {
        lemma_music_schedule(device_arg, files, events, turns, turns.len() - 1);
        assert forall|k: int| 0 <= k < files@.len() implies (#[trigger] turns[3 + 3 * k]) is Act
            && turns[3 + 3 * k]->Act_1 is Upload by {
            let event = events[3 + 3 * k];
            lemma_music_schedule(device_arg, files, events, turns, 3 + 3 * k);
        }
    }
}

/// A turn follows from the one before it, which asks for an action.
proof fn lemma_step(
    first: Turn<WifiState>,
    events: Seq<Event>,
    turns: Seq<Turn<WifiState>>,
    i: int,
)
    requires
        is_wifi_run(first, events, turns),
        0 < i < turns.len(),
    ensures
        turns[i - 1] is Act,
        wifi_steps(turns[i - 1]->Act_0, events[i - 1], turns[i]),
{
    let event = events[i - 1];
}

/// Turn `i` of a run that uploads a file, where it asks for an action.
spec fn upload_turn_at(
    args: UploadFileArgs,
    events: Seq<Event>,
    i: int,
    turn: Turn<WifiState>,
) -> bool {
    if i == 0 {
        turn->Act_0 is Finding && turn->Act_0->Finding_command == DeviceCommands::UploadFile(args)
            && !(turn->Act_1 is Upload)
    } else if i == 1 {
        turn->Act_0 == (WifiState::Connecting { command: DeviceCommands::UploadFile(args) })
            && !(turn->Act_1 is Upload)
    } else if i == 2 {
        turn == Turn::Act(WifiState::ReadingFile(args), Action::ReadFile(args.host_path))
    } else if i == 3 {
        &&& turn->Act_0 == (WifiState::Uploading {
            host_path: args.host_path,
            device_path: args.device_path,
        })
        &&& turn->Act_1 matches Action::Upload { device_path, data, label }
        &&& device_path == args.device_path
        &&& events[2] == Event::Bytes(data)
        &&& label is Some <==> !args.no_progress
        &&& label is Some ==> is_label(label->Some_0@, args.host_path@)
    } else {
        &&& i == 4
        &&& turn == Turn::Act(
            WifiState::Reporting,
            Action::Tell(
                Notice::Uploaded { host_path: args.host_path, device_path: args.device_path },
            ),
        )
    }
}

proof fn lemma_upload_schedule(
    device_arg: Option<String>,
    args: UploadFileArgs,
    events: Seq<Event>,
    turns: Seq<Turn<WifiState>>,
    i: int,
)
    requires
        is_wifi_run(
            wifi_begun(device_arg, WifiCommands::OnDevice(DeviceCommands::UploadFile(args))),
            events,
            turns,
        ),
        0 <= i < turns.len(),
    ensures
        turns[i] is Act ==> upload_turn_at(args, events, i, turns[i]),
        turns[i] is Done ==> i == 5,
    decreases i,
{
    if i > 0 {
        lemma_upload_schedule(device_arg, args, events, turns, i - 1);
        lemma_step(turns[0], events, turns, i);
    }
}

/// A run that uploads a file sends to the device path, byte for byte, what was
/// read from the host path just before, and shows a progress bar unless that
/// is switched off. A run that ends well has sent it.
pub proof fn law_upload_sends_what_was_read(
    device_arg: Option<String>,
    args: UploadFileArgs,
    events: Seq<Event>,
    turns: Seq<Turn<WifiState>>,
)
    requires
        is_wifi_run(
            wifi_begun(device_arg, WifiCommands::OnDevice(DeviceCommands::UploadFile(args))),
            events,
            turns,
        ),
    ensures
        forall|i: int|
            0 <= i < turns.len() && (#[trigger] turns[i]) is Act && turns[i]->Act_1 is Upload ==> {
                &&& i == 3
                &&& asks(turns[2], Action::ReadFile(args.host_path))
                &&& events[2] == Event::Bytes(turns[i]->Act_1->Upload_data)
                &&& turns[i]->Act_1->Upload_device_path == args.device_path
                &&& turns[i]->Act_1->Upload_label is Some <==> !args.no_progress
            },
        turns.last() is Done ==> turns.len() == 6 && turns[3] is Act && turns[3]->Act_1 is Upload,
{
    assert forall|i: int| 0 <= i < turns.len() && (#[trigger] turns[i]) is Act implies
        upload_turn_at(args, events, i, turns[i]) by {
        lemma_upload_schedule(device_arg, args, events, turns, i);
    }
    if turns.len() > 3 {
        lemma_step(turns[0], events, turns, 3);
    }
    if turns.last() is Done {
        lemma_upload_schedule(device_arg, args, events, turns, turns.len() - 1);
        lemma_step(turns[0], events, turns, 4);
    }
}

/// Turn `i` of a run that downloads a file, where it asks for an action.
spec fn download_turn_at(
    args: DownloadFileArgs,
    events: Seq<Event>,
    i: int,
    turn: Turn<WifiState>,
) -> bool {
    if i == 0 {
        turn->Act_0 is Finding && turn->Act_0->Finding_command == DeviceCommands::DownloadFile(args)
            && !(turn->Act_1 is WriteFile)
    } else if i == 1 {
        turn->Act_0 == (WifiState::Connecting { command: DeviceCommands::DownloadFile(args) })
            && !(turn->Act_1 is WriteFile)
    } else if i == 2 {
        turn == Turn::Act(WifiState::Downloading(args), Action::Download(args.device_path))
    } else if i == 3 {
        &&& events[2] matches Event::Bytes(data)
        &&& turn == Turn::Act(
            WifiState::Writing { args, length: data@.len() as u64 },
            Action::WriteFile { host_path: args.host_path, data },
        )
    } else {
        &&& i == 4
        &&& events[2] matches Event::Bytes(data)
        &&& turn == Turn::Act(
            WifiState::Reporting,
            Action::Tell(
                Notice::Downloaded {
                    device_path: args.device_path,
                    host_path: args.host_path,
                    length: data@.len() as u64,
                },
            ),
        )
    }
}

proof fn lemma_download_schedule(
    device_arg: Option<String>,
    args: DownloadFileArgs,
    events: Seq<Event>,
    turns: Seq<Turn<WifiState>>,
    i: int,
)
    requires
        is_wifi_run(
            wifi_begun(device_arg, WifiCommands::OnDevice(DeviceCommands::DownloadFile(args))),
            events,
            turns,
        ),
        0 <= i < turns.len(),
    ensures
        turns[i] is Act ==> download_turn_at(args, events, i, turns[i]),
        turns[i] is Done ==> i == 5,
    decreases i,
{
    if i > 0 {
        lemma_download_schedule(device_arg, args, events, turns, i - 1);
        lemma_step(turns[0], events, turns, i);
    }
}

/// A run that downloads a file writes to the host path, byte for byte, what the
/// device path was downloaded as just before. A run that ends well has written
/// it and says how many bytes it was.
pub proof fn law_download_writes_what_was_received(
    device_arg: Option<String>,
    args: DownloadFileArgs,
    events: Seq<Event>,
    turns: Seq<Turn<WifiState>>,
)
    requires
        is_wifi_run(
            wifi_begun(device_arg, WifiCommands::OnDevice(DeviceCommands::DownloadFile(args))),
            events,
            turns,
        ),
    ensures
        forall|i: int|
            0 <= i < turns.len() && (#[trigger] turns[i]) is Act && turns[i]->Act_1 is WriteFile
                ==> {
                &&& i == 3
                &&& asks(turns[2], Action::Download(args.device_path))
                &&& events[2] matches Event::Bytes(data)
                &&& asks(turns[i], Action::WriteFile { host_path: args.host_path, data })
            },
        turns.last() is Done ==> {
            &&& turns.len() == 6
            &&& events[2] matches Event::Bytes(data)
            &&& asks(turns[3], Action::WriteFile { host_path: args.host_path, data })
            &&& asks(
                turns[4],
                Action::Tell(
                    Notice::Downloaded {
                        device_path: args.device_path,
                        host_path: args.host_path,
                        length: data@.len() as u64,
                    },
                ),
            )
        },
{
    assert forall|i: int| 0 <= i < turns.len() && (#[trigger] turns[i]) is Act implies
        download_turn_at(args, events, i, turns[i]) by {
        lemma_download_schedule(device_arg, args, events, turns, i);
    }
    if turns.len() > 3 {
        lemma_step(turns[0], events, turns, 3);
    }
    if turns.last() is Done {
        lemma_download_schedule(device_arg, args, events, turns, turns.len() - 1);
        lemma_step(turns[0], events, turns, 4);
        lemma_step(turns[0], events, turns, 5);
    }
}

/// Turn `i` of a run that syncs a directory, where it asks for an action.
spec fn sync_turn_at(args: SyncDirArgs, i: int, turn: Turn<WifiState>) -> bool {
    let warned: int = if args.dry_run { 1 } else { 0 };
    if i == 0 {
        turn->Act_0 is Finding && turn->Act_0->Finding_command == DeviceCommands::SyncDir(args)
            && !(turn->Act_1 is SyncDir)
    } else if i == 1 {
        turn->Act_0 == (WifiState::Connecting { command: DeviceCommands::SyncDir(args) })
            && !(turn->Act_1 is SyncDir)
    } else if i < 2 + warned {
        turn == Turn::Act(WifiState::TellingDryRun(args), Action::Tell(Notice::DryRun))
    } else if i == 2 + warned {
        turn == crate::wifi::sync_begun(args)
    } else {
        &&& i == 3 + warned
        &&& args.verbose
        &&& turn == crate::wifi::report(Notice::SyncDone)
    }
}

proof fn lemma_sync_schedule(
    device_arg: Option<String>,
    args: SyncDirArgs,
    events: Seq<Event>,
    turns: Seq<Turn<WifiState>>,
    i: int,
)
    requires
        is_wifi_run(
            wifi_begun(device_arg, WifiCommands::OnDevice(DeviceCommands::SyncDir(args))),
            events,
            turns,
        ),
        0 <= i < turns.len(),
    ensures
        turns[i] is Act ==> sync_turn_at(args, i, turns[i]),
        turns[i] is Done ==> i >= 3 + (if args.dry_run { 1int } else { 0 }),
    decreases i,
{
    if i > 0 {
        lemma_sync_schedule(device_arg, args, events, turns, i - 1);
        lemma_step(turns[0], events, turns, i);
    }
}

/// A run that syncs a directory syncs once, with the directories and the flags
/// of the command line: a dry run is announced and syncs dry. A run that ends
/// well has synced.
pub proof fn law_sync_does_as_told(
    device_arg: Option<String>,
    args: SyncDirArgs,
    events: Seq<Event>,
    turns: Seq<Turn<WifiState>>,
)
    requires
        is_wifi_run(
            wifi_begun(device_arg, WifiCommands::OnDevice(DeviceCommands::SyncDir(args))),
            events,
            turns,
        ),
    ensures
        forall|i: int|
            0 <= i < turns.len() && (#[trigger] turns[i]) is Act && turns[i]->Act_1 is SyncDir
                ==> {
                &&& i == (if args.dry_run { 3int } else { 2 })
                &&& args.dry_run ==> asks(turns[2], Action::Tell(Notice::DryRun))
                &&& asks(
                    turns[i],
                    Action::SyncDir {
                        host_dir: args.host_dir,
                        device_dir: args.device_dir,
                        delete: args.delete,
                        dry_run: args.dry_run,
                        progress: !args.no_progress,
                    },
                )
            },
        turns.last() is Done ==> exists|i: int|
            0 <= i < turns.len() && (#[trigger] turns[i]) is Act && turns[i]->Act_1 is SyncDir,
{
    assert forall|i: int| 0 <= i < turns.len() && (#[trigger] turns[i]) is Act implies
        sync_turn_at(args, i, turns[i]) by {
        lemma_sync_schedule(device_arg, args, events, turns, i);
    }
    if turns.len() > 3 {
        lemma_step(turns[0], events, turns, 3);
    }
    if turns.last() is Done {
        lemma_sync_schedule(device_arg, args, events, turns, turns.len() - 1);
        let at: int = if args.dry_run { 3 } else { 2 };
        lemma_step(turns[0], events, turns, at + 1);
        assert(turns[at] is Act && turns[at]->Act_1 is SyncDir);
    }
}

} // verus!
