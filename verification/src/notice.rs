//! What the tool says: notices for the console, and problems for its errors.

use crate::command::ShellKind;
use crate::text::{align_right, decimal, decimal_text, right_aligned};
use vstd::prelude::*;
use vstd::string::*;

verus! {

/// An entry of a directory on the device.
pub struct DirEntry {
    pub is_dir: bool,
    pub size: u64,
    pub name: String,
}

/// A registered device, as the device table shows it.
pub struct DeviceRow {
    pub serial: String,
    pub nickname: Option<String>,
    pub is_default: bool,
}

/// Where a notice goes, and whether its lines end in a newline.
#[derive(Clone, Copy, PartialEq, Eq, Structural)]
pub enum Channel {
    /// Standard output, every line ended.
    Stdout,
    /// Standard error, every line ended.
    Stderr,
    /// Standard output, without a newline.
    StdoutRaw,
}

/// Something that the tool tells the user.
pub enum Notice {
    DryRun,
    SyncDone,
    Uploaded { host_path: String, device_path: String },
    Downloaded { device_path: String, host_path: String, length: u64 },
    Listing(Vec<DirEntry>),
    Removed(String),
    Output(String),
    Lines(Vec<String>),
    Text(String),
    Searching,
    NoDevicesFound,
    KnownDevice { serial: String, device_name: String },
    NewDevice { serial: String, device_name: String },
    PairQuestion,
    NicknameQuestion(Option<String>),
    MadeDefault,
    Pairing(String),
    Paired(String),
    Deployed { package: String, device_dir: String },
    Started(String),
    UsingPort(String),
    WifiSent,
    NoDevices,
    DeviceTable(Vec<DeviceRow>),
    Credentials { serial: String, password: String },
    DeviceAdded(String),
    DeviceRemoved(String),
    DefaultSet(String),
    Unauthorized,
    RepairQuestion(String),
    InstallHint(ShellKind),
}

/// Why a command was refused, or what an error is put down to.
pub enum Problem {
    NotInStore(String),
    NoDefault,
    NotFound(String),
    InvalidFileName(String),
    ReadFailed(String),
    WriteFailed(String),
    EnumerateFailed,
    NoUsbDevice,
}

/// How the completion script of a shell is installed.
pub open spec fn hint_for(shell: ShellKind) -> Seq<char> {
    match shell {
        ShellKind::Fish => "boppo completions fish > ~/.config/fish/completions/boppo.fish"@,
        ShellKind::Bash =>
            "boppo completions bash > ~/.local/share/bash-completion/completions/boppo"@,
        ShellKind::Zsh => "boppo completions zsh > ~/.zfunc/_boppo"@,
        ShellKind::Elvish =>
            "boppo completions elvish >> ~/.config/elvish/lib/completions.elv"@,
        ShellKind::PowerShell => "boppo completions powershell >> $PROFILE"@,
        ShellKind::Other => "pipe this output to your shell's completion directory"@,
    }
}

/// The installation advice for a shell.
pub fn install_hint(shell: ShellKind) -> (res: &'static str)
    ensures
        res@ == hint_for(shell),
{
    match shell {
        ShellKind::Fish => "boppo completions fish > ~/.config/fish/completions/boppo.fish",
        ShellKind::Bash =>
            "boppo completions bash > ~/.local/share/bash-completion/completions/boppo",
        ShellKind::Zsh => "boppo completions zsh > ~/.zfunc/_boppo",
        ShellKind::Elvish => "boppo completions elvish >> ~/.config/elvish/lib/completions.elv",
        ShellKind::PowerShell => "boppo completions powershell >> $PROFILE",
        ShellKind::Other => "pipe this output to your shell's completion directory",
    }
}

/// The line that a directory listing has for an entry.
pub open spec fn entry_line(entry: DirEntry) -> Seq<char> {
    (if entry.is_dir { "d"@ } else { "f"@ }) + " "@ + right_aligned(decimal(entry.size as nat), 10)
        + "  "@ + entry.name@
}

impl DirEntry {
    /// The entry's line in a listing: its kind, its size in a column of ten,
    /// and its name.
    pub fn line(&self) -> (res: String)
        ensures
            res@ == entry_line(*self),
    {
        let kind = if self.is_dir { "d" } else { "f" };
        let size = align_right(decimal_text(self.size).as_str(), 10);
        kind.to_owned().concat(" ").concat(size.as_str()).concat("  ").concat(self.name.as_str())
    }
}

/// The line that the device table has for a device.
pub open spec fn row_line(row: DeviceRow) -> Seq<char> {
    row.serial@ + " | nickname: "@ + (match row.nickname {
        Some(nickname) => nickname@,
        None => "(none)"@,
    }) + (if row.is_default { " [default]"@ } else { ""@ })
}

impl DeviceRow {
    /// The device's line in the table: its serial number, its nickname, and a
    /// mark on the default device.
    pub fn line(&self) -> (res: String)
        ensures
            res@ == row_line(*self),
    {
        let nickname = match &self.nickname {
            Some(nickname) => nickname.as_str(),
            None => "(none)",
        };
        let mark = if self.is_default { " [default]" } else { "" };
        self.serial.clone().concat(" | nickname: ").concat(nickname).concat(mark)
    }
}

/// The lines of a notice.
pub open spec fn notice_lines(notice: Notice) -> Seq<Seq<char>> {
    match notice {
        Notice::DryRun => seq!["Dry run..."@],
        Notice::SyncDone => seq!["Done syncing all files."@],
        Notice::Uploaded { host_path, device_path } =>
            seq!["Uploaded "@ + host_path@ + " -> "@ + device_path@],
        Notice::Downloaded { device_path, host_path, length } =>
            seq![
                "Downloaded "@ + device_path@ + " -> "@ + host_path@ + " ("@
                    + decimal(length as nat) + " bytes)"@,
            ],
        Notice::Listing(entries) =>
            if entries@.len() == 0 {
                seq!["(empty)"@]
            } else {
                Seq::new(entries@.len(), |i: int| entry_line(entries@[i]))
            },
        Notice::Removed(path) => seq!["Removed "@ + path@],
        Notice::Output(output) => seq![output@],
        Notice::Lines(lines) => Seq::new(lines@.len(), |i: int| lines@[i]@),
        Notice::Text(text) => seq![text@],
        Notice::Searching => seq!["Searching for Boppo devices (5s)..."@],
        Notice::NoDevicesFound => seq!["No devices found."@],
        Notice::KnownDevice { serial, device_name } =>
            seq!["  "@ + serial@ + " \""@ + device_name@ + "\" [already in store]"@],
        Notice::NewDevice { serial, device_name } =>
            seq!["  "@ + serial@ + " \""@ + device_name@ + "\" [not paired]"@],
        Notice::PairQuestion => seq!["Pair with this device? [Y/n] "@],
        Notice::NicknameQuestion(default) => seq![nickname_prompt(default)],
        Notice::MadeDefault => seq!["Set as default device."@],
        Notice::Pairing(serial) => seq!["Pairing with device "@ + serial@ + "..."@],
        Notice::Paired(serial) => seq!["Device "@ + serial@ + " paired and saved."@],
        Notice::Deployed { package, device_dir } =>
            seq!["Deployed "@ + package@ + " to "@ + device_dir@],
        Notice::Started(package) => seq!["Started "@ + package@],
        Notice::UsingPort(port) => seq!["Using serial port: "@ + port@],
        Notice::WifiSent => seq!["Wi-Fi credentials sent."@],
        Notice::NoDevices => seq!["No devices registered."@],
        Notice::DeviceTable(rows) => Seq::new(rows@.len(), |i: int| row_line(rows@[i])),
        Notice::Credentials { serial, password } =>
            seq!["serial:   "@ + serial@, "password: "@ + password@],
        Notice::DeviceAdded(serial) => seq!["Device "@ + serial@ + " added."@],
        Notice::DeviceRemoved(serial) => seq!["Device "@ + serial@ + " removed."@],
        Notice::DefaultSet(serial) => seq!["Default device set to "@ + serial@ + "."@],
        Notice::Unauthorized =>
            seq!["Error: unauthorized (401) \u{2014} is the password correct?"@],
        Notice::RepairQuestion(serial) => seq!["Re-pair with device "@ + serial@ + "? [Y/n] "@],
        Notice::InstallHint(shell) => seq!["\n# To install: "@ + hint_for(shell)],
    }
}

/// The question for a nickname, which shows what Enter stands for.
pub open spec fn nickname_prompt(default: Option<String>) -> Seq<char> {
    match default {
        Some(nickname) => "Nickname (Enter for \""@ + nickname@ + "\"): "@,
        None => "Nickname (Enter to skip): "@,
    }
}

/// Where a notice goes.
pub open spec fn notice_channel(notice: Notice) -> Channel {
    match notice {
        Notice::DryRun
        | Notice::SyncDone
        | Notice::Uploaded { .. }
        | Notice::Downloaded { .. }
        | Notice::Removed(_)
        | Notice::Searching
        | Notice::Pairing(_)
        | Notice::Deployed { .. }
        | Notice::Started(_)
        | Notice::UsingPort(_)
        | Notice::WifiSent
        | Notice::Unauthorized => Channel::Stderr,
        Notice::Output(_)
        | Notice::PairQuestion
        | Notice::NicknameQuestion(_)
        | Notice::RepairQuestion(_) => Channel::StdoutRaw,
        _ => Channel::Stdout,
    }
}

/// A list of one line.
fn one_line(line: String) -> (res: Vec<String>)
    ensures
        res.deep_view() == seq![line@],
{
    let mut lines: Vec<String> = Vec::new();
    lines.push(line);
    assert(lines.deep_view() =~= seq![line@]);
    lines
}

/// The lines of a directory listing.
fn listing_lines(entries: &Vec<DirEntry>) -> (res: Vec<String>)
    ensures
        res.deep_view() == Seq::new(entries@.len(), |i: int| entry_line(entries@[i])),
{
    let mut lines: Vec<String> = Vec::new();
    for i in 0..entries.len()
        invariant
            lines@.len() == i,
            forall|j: int| 0 <= j < i ==> (#[trigger] lines@[j])@ == entry_line(entries@[j]),
    {
        lines.push(entries[i].line());
    }
    assert(lines.deep_view() =~= Seq::new(entries@.len(), |i: int| entry_line(entries@[i])));
    lines
}

/// The lines of the device table.
fn table_lines(rows: &Vec<DeviceRow>) -> (res: Vec<String>)
    ensures
        res.deep_view() == Seq::new(rows@.len(), |i: int| row_line(rows@[i])),
{
    let mut lines: Vec<String> = Vec::new();
    for i in 0..rows.len()
        invariant
            lines@.len() == i,
            forall|j: int| 0 <= j < i ==> (#[trigger] lines@[j])@ == row_line(rows@[j]),
    {
        lines.push(rows[i].line());
    }
    assert(lines.deep_view() =~= Seq::new(rows@.len(), |i: int| row_line(rows@[i])));
    lines
}

/// A copy of some lines.
fn copied_lines(source: &Vec<String>) -> (res: Vec<String>)
    ensures
        res.deep_view() == Seq::new(source@.len(), |i: int| source@[i]@),
{
    let mut lines: Vec<String> = Vec::new();
    for i in 0..source.len()
        invariant
            lines@.len() == i,
            forall|j: int| 0 <= j < i ==> (#[trigger] lines@[j])@ == source@[j]@,
    {
        lines.push(source[i].clone());
    }
    assert(lines.deep_view() =~= Seq::new(source@.len(), |i: int| source@[i]@));
    lines
}

impl Notice {
    /// Where the notice goes.
    pub fn channel(&self) -> (res: Channel)
        ensures
            res == notice_channel(*self),
    {
        match self {
            Notice::DryRun
            | Notice::SyncDone
            | Notice::Uploaded { .. }
            | Notice::Downloaded { .. }
            | Notice::Removed(_)
            | Notice::Searching
            | Notice::Pairing(_)
            | Notice::Deployed { .. }
            | Notice::Started(_)
            | Notice::UsingPort(_)
            | Notice::WifiSent
            | Notice::Unauthorized => Channel::Stderr,
            Notice::Output(_)
            | Notice::PairQuestion
            | Notice::NicknameQuestion(_)
            | Notice::RepairQuestion(_) => Channel::StdoutRaw,
            _ => Channel::Stdout,
        }
    }

    /// The lines of the notice.
    pub fn lines(&self) -> (res: Vec<String>)
        ensures
            res.deep_view() == notice_lines(*self),
    {
        match self {
            Notice::DryRun => one_line("Dry run...".to_owned()),
            Notice::SyncDone => one_line("Done syncing all files.".to_owned()),
            Notice::Uploaded { host_path, device_path } => one_line(
                "Uploaded ".to_owned().concat(host_path.as_str()).concat(" -> ").concat(
                    device_path.as_str(),
                ),
            ),
            Notice::Downloaded { device_path, host_path, length } => one_line(
                "Downloaded ".to_owned().concat(device_path.as_str()).concat(" -> ").concat(
                    host_path.as_str(),
                ).concat(" (").concat(decimal_text(*length).as_str()).concat(" bytes)"),
            ),
            Notice::Listing(entries) => if entries.len() == 0 {
                one_line("(empty)".to_owned())
            } else {
                listing_lines(entries)
            },
            Notice::Removed(path) => one_line("Removed ".to_owned().concat(path.as_str())),
            Notice::Output(output) => one_line(output.clone()),
            Notice::Lines(lines) => copied_lines(lines),
            Notice::Text(text) => one_line(text.clone()),
            Notice::Searching => one_line("Searching for Boppo devices (5s)...".to_owned()),
            Notice::NoDevicesFound => one_line("No devices found.".to_owned()),
            Notice::KnownDevice { serial, device_name } => one_line(
                "  ".to_owned().concat(serial.as_str()).concat(" \"").concat(
                    device_name.as_str(),
                ).concat("\" [already in store]"),
            ),
            Notice::NewDevice { serial, device_name } => one_line(
                "  ".to_owned().concat(serial.as_str()).concat(" \"").concat(
                    device_name.as_str(),
                ).concat("\" [not paired]"),
            ),
            Notice::PairQuestion => one_line("Pair with this device? [Y/n] ".to_owned()),
            Notice::NicknameQuestion(default) => one_line(
                match default {
                    Some(nickname) => "Nickname (Enter for \"".to_owned().concat(
                        nickname.as_str(),
                    ).concat("\"): "),
                    None => "Nickname (Enter to skip): ".to_owned(),
                },
            ),
            Notice::MadeDefault => one_line("Set as default device.".to_owned()),
            Notice::Pairing(serial) => one_line(
                "Pairing with device ".to_owned().concat(serial.as_str()).concat("..."),
            ),
            Notice::Paired(serial) => one_line(
                "Device ".to_owned().concat(serial.as_str()).concat(" paired and saved."),
            ),
            Notice::Deployed { package, device_dir } => one_line(
                "Deployed ".to_owned().concat(package.as_str()).concat(" to ").concat(
                    device_dir.as_str(),
                ),
            ),
            Notice::Started(package) => one_line("Started ".to_owned().concat(package.as_str())),
            Notice::UsingPort(port) => one_line(
                "Using serial port: ".to_owned().concat(port.as_str()),
            ),
            Notice::WifiSent => one_line("Wi-Fi credentials sent.".to_owned()),
            Notice::NoDevices => one_line("No devices registered.".to_owned()),
            Notice::DeviceTable(rows) => table_lines(rows),
            Notice::Credentials { serial, password } => {
                let mut lines: Vec<String> = Vec::new();
                lines.push("serial:   ".to_owned().concat(serial.as_str()));
                lines.push("password: ".to_owned().concat(password.as_str()));
                assert(lines.deep_view() =~= notice_lines(*self));
                lines
            },
            Notice::DeviceAdded(serial) => one_line(
                "Device ".to_owned().concat(serial.as_str()).concat(" added."),
            ),
            Notice::DeviceRemoved(serial) => one_line(
                "Device ".to_owned().concat(serial.as_str()).concat(" removed."),
            ),
            Notice::DefaultSet(serial) => one_line(
                "Default device set to ".to_owned().concat(serial.as_str()).concat("."),
            ),
            Notice::Unauthorized => one_line(
                "Error: unauthorized (401) \u{2014} is the password correct?".to_owned(),
            ),
            Notice::RepairQuestion(serial) => one_line(
                "Re-pair with device ".to_owned().concat(serial.as_str()).concat("? [Y/n] "),
            ),
            Notice::InstallHint(shell) => one_line(
                "\n# To install: ".to_owned().concat(install_hint(*shell)),
            ),
        }
    }
}

/// The text of a problem.
pub open spec fn problem_text(problem: Problem) -> Seq<char> {
    match problem {
        Problem::NotInStore(identifier) =>
            "device '"@ + identifier@ + "' not found in credential store"@,
        Problem::NoDefault =>
            "no default device set; use --device or `boppo devices set-default`"@,
        Problem::NotFound(identifier) => "device '"@ + identifier@ + "' not found"@,
        Problem::InvalidFileName(path) => "invalid file name: "@ + path@,
        Problem::ReadFailed(path) => "failed to read "@ + path@,
        Problem::WriteFailed(path) => "failed to write "@ + path@,
        Problem::EnumerateFailed => "failed to enumerate USB ports"@,
        Problem::NoUsbDevice => "no Boppo device found on USB"@,
    }
}

impl Problem {
    /// The text of the problem, as an error message.
    pub fn text(&self) -> (res: String)
        ensures
            res@ == problem_text(*self),
    {
        match self {
            Problem::NotInStore(identifier) => "device '".to_owned().concat(
                identifier.as_str(),
            ).concat("' not found in credential store"),
            Problem::NoDefault =>
                "no default device set; use --device or `boppo devices set-default`".to_owned(),
            Problem::NotFound(identifier) => "device '".to_owned().concat(
                identifier.as_str(),
            ).concat("' not found"),
            Problem::InvalidFileName(path) => "invalid file name: ".to_owned().concat(
                path.as_str(),
            ),
            Problem::ReadFailed(path) => "failed to read ".to_owned().concat(path.as_str()),
            Problem::WriteFailed(path) => "failed to write ".to_owned().concat(path.as_str()),
            Problem::EnumerateFailed => "failed to enumerate USB ports".to_owned(),
            Problem::NoUsbDevice => "no Boppo device found on USB".to_owned(),
        }
    }
}

} // verus!
