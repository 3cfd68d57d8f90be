use boppo::activity::deploy_dir;
use boppo::command::{
    ActivityCommands, Cli, Commands, DeployArgs, DeviceCommands, DevicesCommands, DownloadFileArgs,
    MusicFile, ShellKind, SyncDirArgs, UploadFileArgs, UsbCommands, WifiCommands,
};
use boppo::device::{get_active_device, is_default};
use boppo::notice::{DirEntry, Notice, Problem};
use boppo::protocol::{
    is_unauthorized, Action, Cause, Device, DeviceCredentials, ErrorReport, Event, Failure,
    FoundDevice, Turn,
};
use boppo::session::Session;

fn text(s: &str) -> String {
    s.to_owned()
}

fn some(s: &str) -> Option<String> {
    Some(s.to_owned())
}

fn told(notice: &Notice) -> String {
    notice.lines().join("|")
}

fn optional(s: &Option<String>) -> String {
    match s {
        Some(s) => s.clone(),
        None => text("-"),
    }
}

/// An action in words.
fn shown(action: &Action) -> String {
    match action {
        Action::Resolve(identifier) => format!("resolve {identifier}"),
        Action::FindDefault => text("find default"),
        Action::GetDevice(serial) => format!("get {serial}"),
        Action::SetDevice(device) => format!(
            "set {} {} {}",
            device.serial,
            device.credentials.password,
            optional(&device.credentials.nickname)
        ),
        Action::RemoveDevice(serial) => format!("remove {serial}"),
        Action::GetDefault => text("get default"),
        Action::SetDefault(serial) => format!("set default {serial}"),
        Action::ClearDefault => text("clear default"),
        Action::ListDevices => text("list"),
        Action::SaveStore => text("save"),
        Action::Tell(notice) => format!("tell {}", told(notice)),
        Action::Ask(notice) => format!("ask {}", told(notice)),
        Action::Connect { serial, password } => format!("connect {serial} {password}"),
        Action::SyncDir { host_dir, device_dir, delete, dry_run, progress } => {
            format!("sync {host_dir} {device_dir} {delete} {dry_run} {progress}")
        }
        Action::Upload { device_path, data, label } => {
            format!("upload {device_path} {data:?} {}", optional(label))
        }
        Action::Download(path) => format!("download {path}"),
        Action::ReadDir(path) => format!("read dir {path}"),
        Action::RemoveFile(path) => format!("remove file {path}"),
        Action::RemoveDir(path) => format!("remove dir {path}"),
        Action::RemoveDirAll(path) => format!("remove all {path}"),
        Action::RunCommand(command) => format!("run {command}"),
        Action::GetInfo => text("get info"),
        Action::Browse => text("browse"),
        Action::PairDevice(serial) => format!("pair {serial}"),
        Action::ReadFile(path) => format!("read {path}"),
        Action::ReadMusic(index) => format!("read music {index}"),
        Action::WriteFile { host_path, data } => format!("write {host_path} {data:?}"),
        Action::FindPort => text("find port"),
        Action::OpenPort(path) => format!("open {path}"),
        Action::UsbRun(command) => format!("usb run {command}"),
        Action::UsbSendWifi { ssid, passphrase } => {
            format!("usb wifi {ssid} {}", optional(passphrase))
        }
        Action::Build { optimize } => format!("build {optimize}"),
        Action::PackageName => text("package name"),
        Action::Stage(package) => format!("stage {package}"),
        Action::StartActivity(package) => format!("start {package}"),
        Action::GenerateCompletions(shell) => {
            assert!(*shell == ShellKind::Zsh);
            text("generate")
        }
    }
}

fn shown_failure(failure: &Failure) -> String {
    match failure {
        Failure::Refused(problem) => format!("refused: {}", problem.text()),
        Failure::Action { problem: Some(problem), error } => {
            format!("error {}: {}", error.id, problem.text())
        }
        Failure::Action { problem: None, error } => format!("error {}", error.id),
        Failure::Json(_) => text("json"),
        Failure::OutOfStep => text("out of step"),
    }
}

/// The actions of a run that is fed some events, and its outcome.
fn run(device: Option<&str>, command: Commands, events: Vec<Event>) -> Vec<String> {
    let mut log = Vec::new();
    let mut events = events.into_iter();
    let mut turn = Session::begin(Cli { device: device.map(text), command });
    loop {
        match turn {
            Turn::Act(session, action) => {
                log.push(shown(&action));
                match events.next() {
                    Some(event) => turn = session.advance(event),
                    None => panic!("no event after {log:?}"),
                }
            }
            Turn::Done => {
                log.push(text("done"));
                break;
            }
            Turn::Fail(failure) => {
                log.push(shown_failure(&failure));
                break;
            }
        }
    }
    assert!(events.next().is_none());
    log
}

fn device(serial: &str, password: &str, nickname: Option<&str>) -> Device {
    Device { serial: text(serial), credentials: credentials(password, nickname) }
}

fn credentials(password: &str, nickname: Option<&str>) -> DeviceCredentials {
    DeviceCredentials { password: text(password), nickname: nickname.map(text) }
}

fn found() -> Event {
    Event::Found(Some(device("B1", "pw", Some("Den"))))
}

fn line(s: &str) -> Event {
    Event::Line(text(s))
}

fn other_error(id: usize) -> Event {
    Event::Failed(ErrorReport { id, causes: vec![Cause::Other, Cause::Other] })
}

fn refusal(id: usize) -> Event {
    Event::Failed(ErrorReport { id, causes: vec![Cause::Other, Cause::Unauthorized] })
}

fn on_device(command: DeviceCommands) -> Commands {
    Commands::Wifi(WifiCommands::OnDevice(command))
}

fn sync(dry_run: bool, verbose: bool, no_progress: bool) -> Commands {
    on_device(DeviceCommands::SyncDir(SyncDirArgs {
        host_dir: text("here"),
        device_dir: text("/there"),
        delete: true,
        dry_run,
        verbose,
        no_progress,
    }))
}

fn upload(no_progress: bool) -> Commands {
    on_device(DeviceCommands::UploadFile(UploadFileArgs {
        host_path: text("dir/a.bin"),
        device_path: text("/sd/a.bin"),
        no_progress,
    }))
}

fn music(names: &[(&str, Option<&str>)]) -> Commands {
    let files = names
        .iter()
        .map(|(display, name)| MusicFile { display: text(display), name: name.map(text) })
        .collect();
    on_device(DeviceCommands::UploadMusic(files))
}

fn deploy(no_optimize: bool, no_build: bool, no_start: bool) -> Commands {
    Commands::Activity(ActivityCommands::Deploy(DeployArgs {
        no_optimize,
        delete: true,
        no_build,
        no_start,
        device_root: text("/sd/wasm"),
    }))
}

// Commands on the active device.

#[test]
fn a_sync_is_done_as_told() {
    assert_eq!(
        run(None, sync(false, false, false), vec![found(), found(), Event::Done, Event::Done]),
        [
            "find default",
            "find default",
            "connect B1 pw",
            "sync here /there true false true",
            "done",
        ]
    );
}

#[test]
fn a_dry_run_is_announced_and_a_verbose_one_reported() {
    assert_eq!(
        run(
            Some("Den"),
            sync(true, true, true),
            vec![found(), found(), Event::Done, Event::Done, Event::Done, Event::Done]
        ),
        [
            "resolve Den",
            "resolve Den",
            "connect B1 pw",
            "tell Dry run...",
            "sync here /there true true false",
            "tell Done syncing all files.",
            "done",
        ]
    );
}

#[test]
fn an_upload_sends_what_was_read() {
    assert_eq!(
        run(
            None,
            upload(false),
            vec![
                found(),
                found(),
                Event::Done,
                Event::Bytes(vec![1, 2]),
                Event::Done,
                Event::Done
            ]
        ),
        [
            "find default",
            "find default",
            "connect B1 pw",
            "read dir/a.bin",
            "upload /sd/a.bin [1, 2] a.bin",
            "tell Uploaded dir/a.bin -> /sd/a.bin",
            "done",
        ]
    );
}

#[test]
fn an_upload_without_progress_has_no_label() {
    assert_eq!(
        run(
            None,
            upload(true),
            vec![
                found(),
                found(),
                Event::Done,
                Event::Bytes(Vec::new()),
                Event::Done,
                Event::Done
            ]
        )[4],
        "upload /sd/a.bin [] -"
    );
}

#[test]
fn an_unreadable_file_is_not_uploaded() {
    let log = run(None, upload(false), vec![found(), found(), Event::Done, other_error(7)]);
    assert_eq!(log[3..], ["read dir/a.bin", "error 7: failed to read dir/a.bin"]);
}

#[test]
fn a_failed_upload_is_passed_on() {
    let log = run(
        None,
        upload(false),
        vec![found(), found(), Event::Done, Event::Bytes(Vec::new()), other_error(3)],
    );
    assert_eq!(log[5], "error 3");
}

#[test]
fn music_is_uploaded_in_order() {
    assert_eq!(
        run(
            None,
            music(&[("in/What's up?.mp3", Some("What's up?.mp3")), ("b.mp3", Some(" b.mp3"))]),
            vec![
                found(),
                found(),
                Event::Done,
                Event::Bytes(vec![1]),
                Event::Done,
                Event::Done,
                Event::Bytes(vec![2]),
                Event::Done,
                Event::Done
            ]
        ),
        [
            "find default",
            "find default",
            "connect B1 pw",
            "read music 0",
            "upload /sd/activities/user/music/Whats up.mp3 [1] -",
            "tell Uploaded in/What's up?.mp3 -> /sd/activities/user/music/Whats up.mp3",
            "read music 1",
            "upload /sd/activities/user/music/b.mp3 [2] -",
            "tell Uploaded b.mp3 -> /sd/activities/user/music/b.mp3",
            "done",
        ]
    );
}

#[test]
fn a_music_file_without_a_name_is_refused_in_its_turn() {
    let log = run(
        None,
        music(&[("a", Some("a")), ("in/..", None), ("c", Some("c"))]),
        vec![found(), found(), Event::Done, Event::Bytes(vec![1]), Event::Done, Event::Done],
    );
    assert_eq!(
        log[4..],
        [
            "upload /sd/activities/user/music/a [1] -",
            "tell Uploaded a -> /sd/activities/user/music/a",
            "refused: invalid file name: in/..",
        ]
    );
}

#[test]
fn an_unreadable_music_file_ends_the_upload() {
    let log = run(
        None,
        music(&[("in/a", Some("a")), ("b", Some("b"))]),
        vec![found(), found(), Event::Done, other_error(0)],
    );
    assert_eq!(log[3..], ["read music 0", "error 0: failed to read in/a"]);
}

#[test]
fn a_download_writes_what_was_received() {
    let command = on_device(DeviceCommands::DownloadFile(DownloadFileArgs {
        device_path: text("/sd/a"),
        host_path: text("out"),
    }));
    assert_eq!(
        run(
            None,
            command,
            vec![
                found(),
                found(),
                Event::Done,
                Event::Bytes(vec![7, 8, 9]),
                Event::Done,
                Event::Done
            ]
        )[3..],
        ["download /sd/a", "write out [7, 8, 9]", "tell Downloaded /sd/a -> out (3 bytes)", "done"]
    );
}

#[test]
fn a_download_that_cannot_be_written_fails() {
    let command = on_device(DeviceCommands::DownloadFile(DownloadFileArgs {
        device_path: text("/sd/a"),
        host_path: text("out"),
    }));
    let log = run(
        None,
        command,
        vec![found(), found(), Event::Done, Event::Bytes(vec![7]), other_error(2)],
    );
    assert_eq!(log[5], "error 2: failed to write out");
}

#[test]
fn a_directory_is_listed() {
    let entries = vec![DirEntry { is_dir: false, size: 5, name: text("x") }];
    let log = run(
        None,
        on_device(DeviceCommands::LsDir { path: text("/sd") }),
        vec![found(), found(), Event::Done, Event::Entries(entries), Event::Done],
    );
    assert_eq!(log[3..], ["read dir /sd", "tell f          5  x", "done"]);
}

#[test]
fn a_file_is_removed() {
    let log = run(
        None,
        on_device(DeviceCommands::RmFile { path: text("/sd/x") }),
        vec![found(), found(), Event::Done, Event::Done, Event::Done],
    );
    assert_eq!(log[3..], ["remove file /sd/x", "tell Removed /sd/x", "done"]);
}

#[test]
fn a_directory_is_removed_with_its_contents_only_on_request() {
    for (recursive, removal) in [(false, "remove dir /sd/x"), (true, "remove all /sd/x")] {
        let log = run(
            None,
            on_device(DeviceCommands::RmDir { path: text("/sd/x"), recursive }),
            vec![found(), found(), Event::Done, Event::Done, Event::Done],
        );
        assert_eq!(log[3..], [removal, "tell Removed /sd/x", "done"]);
    }
}

#[test]
fn a_command_is_run_on_the_device() {
    let log = run(
        None,
        on_device(DeviceCommands::ExecuteCommand { command: text("uptime") }),
        vec![found(), found(), Event::Done, Event::Output(text("1 day\n")), Event::Done],
    );
    assert_eq!(log[3..], ["run uptime", "tell 1 day\n", "done"]);
}

#[test]
fn information_is_fetched() {
    let info: serde_json::Value = serde_json::from_str("{\"b\": \"x\", \"a\": 1}").unwrap();
    for (json, told) in
        [(false, "tell a: 1|b: x"), (true, "tell {\n  \"a\": 1,\n  \"b\": \"x\"\n}")]
    {
        let log = run(
            None,
            on_device(DeviceCommands::GetInfo { json }),
            vec![found(), found(), Event::Done, Event::Info(info.clone()), Event::Done],
        );
        assert_eq!(log[3..], ["get info", told, "done"]);
    }
}

#[test]
fn commands_on_the_device_leave_the_store_alone() {
    let changes = ["set ", "remove B", "clear default", "save"];
    let uploaded = run(
        None,
        upload(true),
        vec![found(), found(), Event::Done, Event::Bytes(vec![1]), Event::Done, Event::Done],
    );
    let deployed = run(
        None,
        deploy(false, false, true),
        vec![
            found(),
            Event::Package(text("maze")),
            found(),
            Event::Done,
            Event::Staged(text("/tmp/maze")),
            other_error(1),
        ],
    );
    for action in uploaded.iter().chain(deployed.iter()) {
        assert!(!changes.iter().any(|change| action.starts_with(change)));
    }
}

// The choice of the device.

#[test]
fn a_device_that_is_not_in_the_store_is_refused() {
    assert_eq!(
        run(Some("x"), upload(false), vec![Event::Found(None), Event::Found(None)]),
        ["resolve x", "resolve x", "refused: device 'x' not found in credential store"]
    );
}

#[test]
fn without_a_default_a_device_must_be_named() {
    assert_eq!(
        run(None, upload(false), vec![Event::Found(None), Event::Found(None)]),
        [
            "find default",
            "find default",
            "refused: no default device set; use --device or `boppo devices set-default`",
        ]
    );
}

#[test]
fn a_failed_connection_ends_the_command() {
    assert_eq!(
        run(None, upload(false), vec![found(), found(), other_error(1)]),
        ["find default", "find default", "connect B1 pw", "error 1"]
    );
}

#[test]
fn the_active_device_is_the_one_found() {
    match get_active_device(some("Den"), Some(device("B1", "pw", None))) {
        Ok(device) => assert_eq!(device.serial, "B1"),
        Err(_) => panic!("refused"),
    }
    assert!(matches!(get_active_device(None, None), Err(Problem::NoDefault)));
    assert!(matches!(get_active_device(some("x"), None), Err(Problem::NotInStore(_))));
}

#[test]
fn the_default_is_one_serial_number() {
    assert!(is_default(&some("B1"), &text("B1")));
    assert!(!is_default(&some("B1"), &text("B2")));
    assert!(!is_default(&None, &text("B1")));
}

// Pairing and discovery.

#[test]
fn pairing_offers_the_known_nickname_and_saves() {
    assert_eq!(
        run(
            None,
            Commands::Wifi(WifiCommands::Pair { serial: text("B1") }),
            vec![
                Event::Found(None),
                Event::Credentials(Some(credentials("old", Some("Den")))),
                line("\n"),
                Event::Done,
                Event::Password(text("new")),
                Event::Done,
                Event::Done,
                Event::Done
            ]
        ),
        [
            "find default",
            "get B1",
            "ask Nickname (Enter for \"Den\"): ",
            "tell Pairing with device B1...",
            "pair B1",
            "set B1 new Den",
            "save",
            "tell Device B1 paired and saved.",
            "done",
        ]
    );
}

#[test]
fn pairing_with_an_unknown_device_takes_the_nickname_that_is_typed() {
    let log = run(
        None,
        Commands::Wifi(WifiCommands::Pair { serial: text("B9") }),
        vec![
            Event::Found(None),
            Event::Credentials(None),
            line(" Attic \n"),
            Event::Done,
            Event::Password(text("p")),
            Event::Done,
            Event::Done,
            Event::Done,
        ],
    );
    assert_eq!(log[2], "ask Nickname (Enter to skip): ");
    assert_eq!(log[5], "set B9 p Attic");
}

#[test]
fn pairing_that_fails_saves_nothing() {
    let log = run(
        None,
        Commands::Wifi(WifiCommands::Pair { serial: text("B9") }),
        vec![
            Event::Found(None),
            Event::Credentials(None),
            line("\n"),
            Event::Done,
            other_error(4),
        ],
    );
    assert_eq!(log[4..], ["pair B9", "error 4"]);
}

fn discovered(devices: &[(&str, &str)]) -> Event {
    Event::Discovered(
        devices
            .iter()
            .map(|(serial, name)| FoundDevice { serial: text(serial), device_name: text(name) })
            .collect(),
    )
}

#[test]
fn a_search_may_find_nothing() {
    assert_eq!(
        run(
            None,
            Commands::Wifi(WifiCommands::Discover),
            vec![Event::Found(None), Event::Done, discovered(&[]), Event::Done]
        ),
        [
            "find default",
            "tell Searching for Boppo devices (5s)...",
            "browse",
            "tell No devices found.",
            "done",
        ]
    );
}

#[test]
fn discovery_gives_every_device_its_turn() {
    assert_eq!(
        run(
            None,
            Commands::Wifi(WifiCommands::Discover),
            vec![
                Event::Found(None),
                Event::Done,
                discovered(&[("B1", "Den"), ("B2", "Hall"), ("B3", "Loft")]),
                Event::Credentials(Some(credentials("p", None))),
                Event::Done,
                Event::Credentials(None),
                Event::Done,
                line("n\n"),
                Event::Credentials(None),
                Event::Done,
                line("y\n"),
                line("\n"),
                Event::Default(some("B1")),
                Event::Done,
                Event::Password(text("q")),
                Event::Done,
                Event::Done,
                Event::Done
            ]
        )[3..],
        [
            "get B1",
            "tell   B1 \"Den\" [already in store]",
            "get B2",
            "tell   B2 \"Hall\" [not paired]",
            "ask Pair with this device? [Y/n] ",
            "get B3",
            "tell   B3 \"Loft\" [not paired]",
            "ask Pair with this device? [Y/n] ",
            "ask Nickname (Enter for \"Loft\"): ",
            "get default",
            "tell Pairing with device B3...",
            "pair B3",
            "set B3 q Loft",
            "save",
            "tell Device B3 paired and saved.",
            "done",
        ]
    );
}

#[test]
fn the_first_device_that_is_paired_with_becomes_the_default() {
    assert_eq!(
        run(
            None,
            Commands::Wifi(WifiCommands::Discover),
            vec![
                Event::Found(None),
                Event::Done,
                discovered(&[("B2", "Hall")]),
                Event::Credentials(None),
                Event::Done,
                line("\n"),
                line("Hallway\n"),
                Event::Default(None),
                Event::Done,
                Event::Done,
                Event::Done,
                Event::Password(text("q")),
                Event::Done,
                Event::Done,
                Event::Done
            ]
        )[7..],
        [
            "get default",
            "set default B2",
            "tell Set as default device.",
            "tell Pairing with device B2...",
            "pair B2",
            "set B2 q Hallway",
            "save",
            "tell Device B2 paired and saved.",
            "done",
        ]
    );
}

#[test]
fn a_failed_search_is_passed_on() {
    let log = run(
        None,
        Commands::Wifi(WifiCommands::Discover),
        vec![Event::Found(None), Event::Done, other_error(6)],
    );
    assert_eq!(log[2..], ["browse", "error 6"]);
}

// Repair.

#[test]
fn refused_credentials_are_repaired_on_request() {
    assert_eq!(
        run(
            None,
            upload(true),
            vec![
                found(),
                found(),
                Event::Done,
                Event::Bytes(vec![1]),
                refusal(5),
                Event::Done,
                line("Y\n"),
                Event::Credentials(Some(credentials("pw", Some("Den")))),
                Event::Done,
                Event::Password(text("fresh")),
                Event::Done,
                Event::Done,
                Event::Done
            ]
        )[4..],
        [
            "upload /sd/a.bin [1] -",
            "tell Error: unauthorized (401) — is the password correct?",
            "ask Re-pair with device B1? [Y/n] ",
            "get B1",
            "tell Pairing with device B1...",
            "pair B1",
            "set B1 fresh Den",
            "save",
            "tell Device B1 paired and saved.",
            "done",
        ]
    );
}

#[test]
fn a_declined_repair_leaves_the_failure() {
    let log = run(
        None,
        upload(true),
        vec![
            found(),
            found(),
            Event::Done,
            Event::Bytes(vec![1]),
            refusal(5),
            Event::Done,
            line("no\n"),
        ],
    );
    assert_eq!(log[6..], ["ask Re-pair with device B1? [Y/n] ", "error 5"]);
}

#[test]
fn without_an_active_device_there_is_nothing_to_repair() {
    let log = run(
        None,
        Commands::Wifi(WifiCommands::Pair { serial: text("B9") }),
        vec![
            Event::Found(None),
            Event::Credentials(None),
            line("\n"),
            Event::Done,
            refusal(4),
            Event::Done,
        ],
    );
    assert_eq!(
        log[4..],
        ["pair B9", "tell Error: unauthorized (401) — is the password correct?", "error 4"]
    );
}

#[test]
fn a_repair_that_fails_ends_in_its_own_failure() {
    let log = run(
        None,
        upload(true),
        vec![
            found(),
            found(),
            Event::Done,
            Event::Bytes(vec![1]),
            refusal(5),
            Event::Done,
            line("\n"),
            Event::Credentials(None),
            Event::Done,
            refusal(6),
        ],
    );
    assert_eq!(log[8..], ["tell Pairing with device B1...", "pair B1", "error 6"]);
}

#[test]
fn an_activity_command_is_repaired_too() {
    let log = run(
        None,
        Commands::Activity(ActivityCommands::Start),
        vec![
            found(),
            Event::Package(text("maze")),
            found(),
            Event::Done,
            refusal(1),
            Event::Done,
            line("n"),
        ],
    );
    assert_eq!(
        log[4..],
        [
            "start maze",
            "tell Error: unauthorized (401) — is the password correct?",
            "ask Re-pair with device B1? [Y/n] ",
            "error 1",
        ]
    );
}

#[test]
fn a_refusal_anywhere_in_the_chain_counts() {
    let report = |causes| Failure::Action { problem: None, error: ErrorReport { id: 0, causes } };
    assert!(is_unauthorized(&report(vec![Cause::Unauthorized])));
    assert!(is_unauthorized(&report(vec![Cause::Other, Cause::Other, Cause::Unauthorized])));
    assert!(!is_unauthorized(&report(vec![Cause::Other])));
    assert!(!is_unauthorized(&report(Vec::new())));
    assert!(!is_unauthorized(&Failure::Refused(Problem::NoDefault)));
    assert!(!is_unauthorized(&Failure::OutOfStep));
}

// Activities.

#[test]
fn an_activity_is_built() {
    for (no_optimize, action) in [(false, "build true"), (true, "build false")] {
        assert_eq!(
            run(
                None,
                Commands::Activity(ActivityCommands::Build { no_optimize }),
                vec![Event::Found(None), Event::Package(text("maze"))]
            ),
            ["find default", action, "done"]
        );
    }
}

#[test]
fn a_deployment_builds_deploys_and_starts() {
    assert_eq!(
        run(
            None,
            deploy(false, false, false),
            vec![
                found(),
                Event::Package(text("maze")),
                found(),
                Event::Done,
                Event::Staged(text("/tmp/maze")),
                Event::Done,
                Event::Done,
                Event::Done,
                Event::Done
            ]
        ),
        [
            "find default",
            "build true",
            "find default",
            "connect B1 pw",
            "stage maze",
            "sync /tmp/maze /sd/wasm/maze true false true",
            "tell Deployed maze to /sd/wasm/maze",
            "start maze",
            "tell Started maze",
            "done",
        ]
    );
}

#[test]
fn a_deployment_skips_what_it_is_told_to() {
    assert_eq!(
        run(
            None,
            deploy(true, true, true),
            vec![
                found(),
                Event::Package(text("maze")),
                found(),
                Event::Done,
                Event::Staged(text("/tmp/maze")),
                Event::Done,
                Event::Done
            ]
        ),
        [
            "find default",
            "package name",
            "find default",
            "connect B1 pw",
            "stage maze",
            "sync /tmp/maze /sd/wasm/maze true false true",
            "tell Deployed maze to /sd/wasm/maze",
            "done",
        ]
    );
}

#[test]
fn a_failed_build_is_not_deployed() {
    assert_eq!(
        run(None, deploy(true, false, false), vec![found(), other_error(9)]),
        ["find default", "build false", "error 9"]
    );
}

#[test]
fn an_activity_is_started() {
    assert_eq!(
        run(
            Some("Den"),
            Commands::Activity(ActivityCommands::Start),
            vec![
                found(),
                Event::Package(text("maze")),
                found(),
                Event::Done,
                Event::Done,
                Event::Done
            ]
        ),
        [
            "resolve Den",
            "package name",
            "resolve Den",
            "connect B1 pw",
            "start maze",
            "tell Started maze",
            "done",
        ]
    );
}

#[test]
fn a_package_has_its_own_directory() {
    assert_eq!(deploy_dir(text("/sd/wasm"), "maze"), "/sd/wasm/maze");
}

// USB.

#[test]
fn a_command_is_run_over_a_given_port() {
    assert_eq!(
        run(
            None,
            Commands::Usb {
                port: some("COM3"),
                command: UsbCommands::ExecuteCommand { command: text("ls") },
            },
            vec![Event::Done, Event::Done, Event::Output(text("x\n")), Event::Done]
        ),
        ["tell Using serial port: COM3", "open COM3", "usb run ls", "tell x\n", "done"]
    );
}

#[test]
fn credentials_are_sent_over_a_port_that_is_found() {
    for password in [None, some("secret")] {
        let sent = format!("usb wifi net {}", optional(&password));
        assert_eq!(
            run(
                None,
                Commands::Usb {
                    port: None,
                    command: UsbCommands::SendWifi { ssid: text("net"), password },
                },
                vec![Event::Port(some("tty0")), Event::Done, Event::Done, Event::Done, Event::Done]
            ),
            [
                "find port",
                "tell Using serial port: tty0",
                "open tty0",
                sent.as_str(),
                "tell Wi-Fi credentials sent.",
                "done",
            ]
        );
    }
}

#[test]
fn a_port_may_be_missing() {
    let command = || Commands::Usb {
        port: None,
        command: UsbCommands::ExecuteCommand { command: text("ls") },
    };
    assert_eq!(
        run(None, command(), vec![Event::Port(None)]),
        ["find port", "refused: no Boppo device found on USB"]
    );
    assert_eq!(
        run(None, command(), vec![other_error(8)]),
        ["find port", "error 8: failed to enumerate USB ports"]
    );
}

#[test]
fn a_refusal_over_usb_is_not_repaired() {
    let command = Commands::Usb {
        port: some("COM3"),
        command: UsbCommands::ExecuteCommand { command: text("ls") },
    };
    assert_eq!(
        run(None, command, vec![Event::Done, refusal(2)]),
        ["tell Using serial port: COM3", "open COM3", "error 2"]
    );
}

// The registry.

fn two_devices() -> Event {
    Event::Devices {
        devices: vec![device("B1", "pw", Some("Den")), device("B2", "qw", None)],
        default: some("B2"),
    }
}

#[test]
fn the_registry_is_listed() {
    assert_eq!(
        run(
            None,
            Commands::Devices(DevicesCommands::List { json: false }),
            vec![two_devices(), Event::Done]
        ),
        ["list", "tell B1 | nickname: Den|B2 | nickname: (none) [default]", "done"]
    );
}

#[test]
fn an_empty_registry_is_said_to_be_empty() {
    let empty = || Event::Devices { devices: Vec::new(), default: None };
    for (json, told) in [(false, "tell No devices registered."), (true, "tell []")] {
        assert_eq!(
            run(
                None,
                Commands::Devices(DevicesCommands::List { json }),
                vec![empty(), Event::Done]
            ),
            ["list", told, "done"]
        );
    }
}

#[test]
fn the_registry_is_listed_as_json() {
    assert_eq!(
        run(
            None,
            Commands::Devices(DevicesCommands::List { json: true }),
            vec![two_devices(), Event::Done]
        )[1],
        "tell [\n  {\n    \"default\": false,\n    \"nickname\": \"Den\",\n    \"serial\": \"B1\"\n  \
         },\n  {\n    \"default\": true,\n    \"nickname\": null,\n    \"serial\": \"B2\"\n  }\n]"
    );
}

#[test]
fn the_active_device_is_shown() {
    assert_eq!(
        run(
            Some("Den"),
            Commands::Devices(DevicesCommands::Get { json: false }),
            vec![found(), Event::Done]
        ),
        ["resolve Den", "tell serial:   B1|password: pw", "done"]
    );
    assert_eq!(
        run(
            None,
            Commands::Devices(DevicesCommands::Get { json: true }),
            vec![found(), Event::Default(some("B1")), Event::Done]
        ),
        [
            "find default",
            "get default",
            "tell {\n  \"default\": true,\n  \"nickname\": \"Den\",\n  \"password\": \"pw\",\n  \
             \"serial\": \"B1\"\n}",
            "done",
        ]
    );
}

#[test]
fn without_an_active_device_there_is_nothing_to_show() {
    assert_eq!(
        run(
            Some("x"),
            Commands::Devices(DevicesCommands::Get { json: true }),
            vec![Event::Found(None)]
        ),
        ["resolve x", "refused: device 'x' not found in credential store"]
    );
}

#[test]
fn a_device_is_added_and_saved() {
    let add = || {
        Commands::Devices(DevicesCommands::Add {
            serial: text("B1"),
            password: text("pw"),
            nickname: None,
        })
    };
    assert_eq!(
        run(None, add(), vec![Event::Done, Event::Done, Event::Done]),
        ["set B1 pw -", "save", "tell Device B1 added.", "done"]
    );
    assert_eq!(
        run(None, add(), vec![Event::Done, other_error(1)]),
        ["set B1 pw -", "save", "error 1"]
    );
}

fn remove() -> Commands {
    Commands::Devices(DevicesCommands::Remove { identifier: text("Den") })
}

#[test]
fn removing_the_default_device_clears_the_default() {
    assert_eq!(
        run(
            None,
            remove(),
            vec![
                found(),
                Event::Removed { removed: true, default: some("B1") },
                Event::Done,
                Event::Done,
                Event::Done
            ]
        ),
        ["resolve Den", "remove B1", "clear default", "save", "tell Device B1 removed.", "done"]
    );
}

#[test]
fn removing_another_device_keeps_the_default() {
    for default in [some("B2"), None] {
        assert_eq!(
            run(
                None,
                remove(),
                vec![found(), Event::Removed { removed: true, default }, Event::Done, Event::Done]
            ),
            ["resolve Den", "remove B1", "save", "tell Device B1 removed.", "done"]
        );
    }
}

#[test]
fn an_unknown_device_cannot_be_removed() {
    assert_eq!(
        run(None, remove(), vec![Event::Found(None)]),
        ["resolve Den", "refused: device 'Den' not found"]
    );
    assert_eq!(
        run(None, remove(), vec![found(), Event::Removed { removed: false, default: some("B1") }]),
        ["resolve Den", "remove B1", "refused: device 'Den' not found"]
    );
}

#[test]
fn the_default_is_set_and_saved() {
    let command =
        || Commands::Devices(DevicesCommands::SetDefault { identifier: text("Den") });
    assert_eq!(
        run(None, command(), vec![found(), Event::Done, Event::Done, Event::Done]),
        ["resolve Den", "set default B1", "save", "tell Default device set to B1.", "done"]
    );
    assert_eq!(
        run(None, command(), vec![Event::Found(None)]),
        ["resolve Den", "refused: device 'Den' not found"]
    );
}

// The rest.

#[test]
fn the_version_is_told() {
    assert_eq!(
        run(None, Commands::Version { version: text("1.2.3") }, vec![Event::Done]),
        ["tell 1.2.3", "done"]
    );
}

#[test]
fn completions_come_with_advice() {
    assert_eq!(
        run(None, Commands::Completions(ShellKind::Zsh), vec![Event::Done, Event::Done]),
        ["generate", "tell \n# To install: boppo completions zsh > ~/.zfunc/_boppo", "done"]
    );
}

#[test]
fn an_event_that_does_not_answer_is_out_of_step() {
    assert_eq!(
        run(None, upload(false), vec![found(), found(), Event::Port(None)])[3],
        "out of step"
    );
    assert_eq!(run(None, remove(), vec![Event::Done])[1], "out of step");
}
