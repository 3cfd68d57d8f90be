use boppo::command::ShellKind;
use boppo::notice::{install_hint, Channel, DeviceRow, DirEntry, Notice, Problem};

fn text(s: &str) -> String {
    s.to_owned()
}

fn says(notice: Notice, channel: Channel, lines: &[&str]) {
    assert!(notice.channel() == channel);
    assert_eq!(notice.lines(), lines);
}

#[test]
fn progress_of_transfers_goes_to_standard_error() {
    says(Notice::DryRun, Channel::Stderr, &["Dry run..."]);
    says(Notice::SyncDone, Channel::Stderr, &["Done syncing all files."]);
    says(
        Notice::Uploaded { host_path: text("a.txt"), device_path: text("/sd/a.txt") },
        Channel::Stderr,
        &["Uploaded a.txt -> /sd/a.txt"],
    );
    says(
        Notice::Downloaded { device_path: text("/sd/a"), host_path: text("b"), length: 1234 },
        Channel::Stderr,
        &["Downloaded /sd/a -> b (1234 bytes)"],
    );
    says(Notice::Removed(text("/sd/a")), Channel::Stderr, &["Removed /sd/a"]);
}

#[test]
fn listings_show_kind_size_and_name() {
    let entries = vec![
        DirEntry { is_dir: true, size: 0, name: text("music") },
        DirEntry { is_dir: false, size: 1234567, name: text("a b.mp3") },
        DirEntry { is_dir: false, size: 12345678901, name: text("big") },
    ];
    says(
        Notice::Listing(entries),
        Channel::Stdout,
        &["d          0  music", "f    1234567  a b.mp3", "f 12345678901  big"],
    );
    says(Notice::Listing(Vec::new()), Channel::Stdout, &["(empty)"]);
}

#[test]
fn output_is_passed_on_without_a_newline() {
    says(Notice::Output(text("one\ntwo\n")), Channel::StdoutRaw, &["one\ntwo\n"]);
}

#[test]
fn texts_and_lines_are_passed_on() {
    says(Notice::Text(text("0.1.0")), Channel::Stdout, &["0.1.0"]);
    says(Notice::Lines(vec![text("a: 1"), text("b: 2")]), Channel::Stdout, &["a: 1", "b: 2"]);
    says(Notice::Lines(Vec::new()), Channel::Stdout, &[]);
}

#[test]
fn discovery_is_reported() {
    says(Notice::Searching, Channel::Stderr, &["Searching for Boppo devices (5s)..."]);
    says(Notice::NoDevicesFound, Channel::Stdout, &["No devices found."]);
    says(
        Notice::KnownDevice { serial: text("B1"), device_name: text("Den") },
        Channel::Stdout,
        &["  B1 \"Den\" [already in store]"],
    );
    says(
        Notice::NewDevice { serial: text("B2"), device_name: text("Hall") },
        Channel::Stdout,
        &["  B2 \"Hall\" [not paired]"],
    );
    says(Notice::MadeDefault, Channel::Stdout, &["Set as default device."]);
}

#[test]
fn questions_stay_on_their_line() {
    says(Notice::PairQuestion, Channel::StdoutRaw, &["Pair with this device? [Y/n] "]);
    says(
        Notice::NicknameQuestion(Some(text("Den"))),
        Channel::StdoutRaw,
        &["Nickname (Enter for \"Den\"): "],
    );
    says(Notice::NicknameQuestion(None), Channel::StdoutRaw, &["Nickname (Enter to skip): "]);
    says(
        Notice::RepairQuestion(text("B1")),
        Channel::StdoutRaw,
        &["Re-pair with device B1? [Y/n] "],
    );
}

#[test]
fn pairing_is_reported() {
    says(Notice::Pairing(text("B1")), Channel::Stderr, &["Pairing with device B1..."]);
    says(Notice::Paired(text("B1")), Channel::Stdout, &["Device B1 paired and saved."]);
    says(
        Notice::Unauthorized,
        Channel::Stderr,
        &["Error: unauthorized (401) — is the password correct?"],
    );
}

#[test]
fn activities_are_reported() {
    says(
        Notice::Deployed { package: text("maze"), device_dir: text("/sd/w/maze") },
        Channel::Stderr,
        &["Deployed maze to /sd/w/maze"],
    );
    says(Notice::Started(text("maze")), Channel::Stderr, &["Started maze"]);
}

#[test]
fn usb_is_reported() {
    says(Notice::UsingPort(text("ttyACM0")), Channel::Stderr, &["Using serial port: ttyACM0"]);
    says(Notice::WifiSent, Channel::Stderr, &["Wi-Fi credentials sent."]);
}

#[test]
fn the_registry_is_reported() {
    says(Notice::NoDevices, Channel::Stdout, &["No devices registered."]);
    let rows = vec![
        DeviceRow { serial: text("B1"), nickname: Some(text("Den")), is_default: true },
        DeviceRow { serial: text("B2"), nickname: None, is_default: false },
    ];
    says(
        Notice::DeviceTable(rows),
        Channel::Stdout,
        &["B1 | nickname: Den [default]", "B2 | nickname: (none)"],
    );
    says(
        Notice::Credentials { serial: text("B1"), password: text("pw") },
        Channel::Stdout,
        &["serial:   B1", "password: pw"],
    );
    says(Notice::DeviceAdded(text("B1")), Channel::Stdout, &["Device B1 added."]);
    says(Notice::DeviceRemoved(text("B1")), Channel::Stdout, &["Device B1 removed."]);
    says(Notice::DefaultSet(text("B1")), Channel::Stdout, &["Default device set to B1."]);
}

#[test]
fn every_shell_has_installation_advice() {
    let hints = [
        (ShellKind::Fish, "boppo completions fish > ~/.config/fish/completions/boppo.fish"),
        (
            ShellKind::Bash,
            "boppo completions bash > ~/.local/share/bash-completion/completions/boppo",
        ),
        (ShellKind::Zsh, "boppo completions zsh > ~/.zfunc/_boppo"),
        (ShellKind::Elvish, "boppo completions elvish >> ~/.config/elvish/lib/completions.elv"),
        (ShellKind::PowerShell, "boppo completions powershell >> $PROFILE"),
        (ShellKind::Other, "pipe this output to your shell's completion directory"),
    ];
    for (shell, hint) in hints {
        assert_eq!(install_hint(shell), hint);
        says(
            Notice::InstallHint(shell),
            Channel::Stdout,
            &[format!("\n# To install: {hint}").as_str()],
        );
    }
}

#[test]
fn problems_have_their_texts() {
    assert_eq!(Problem::NotInStore(text("x")).text(), "device 'x' not found in credential store");
    assert_eq!(
        Problem::NoDefault.text(),
        "no default device set; use --device or `boppo devices set-default`"
    );
    assert_eq!(Problem::NotFound(text("x")).text(), "device 'x' not found");
    assert_eq!(Problem::InvalidFileName(text("/")).text(), "invalid file name: /");
    assert_eq!(Problem::ReadFailed(text("a")).text(), "failed to read a");
    assert_eq!(Problem::WriteFailed(text("a")).text(), "failed to write a");
    assert_eq!(Problem::EnumerateFailed.text(), "failed to enumerate USB ports");
    assert_eq!(Problem::NoUsbDevice.text(), "no Boppo device found on USB");
}
