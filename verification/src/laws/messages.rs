//! Laws of what the user reads: numbers, lines, notices, and where they go.

use crate::command::ShellKind;
use crate::notice::{
    notice_channel, notice_lines, problem_text, Channel, DeviceRow, DirEntry, Notice, Problem,
};
use crate::text::{decimal, right_aligned};
use vstd::prelude::*;

verus! {

/// The number that a text of decimal digits stands for.
pub open spec fn number_of(digits: Seq<char>) -> int
    decreases digits.len(),
{
    if digits.len() == 0 {
        0
    } else {
        10 * number_of(digits.drop_last()) + (digits.last() as int - '0' as int)
    }
}

/// A number is written in digits, without a leading zero, and can be read back.
pub proof fn law_numbers_read_back(n: nat)
    ensures
        number_of(decimal(n)) == n,
        decimal(n).len() > 0,
        forall|i: int| 0 <= i < decimal(n).len() ==> '0' <= #[trigger] decimal(n)[i] <= '9',
        decimal(n).len() > 1 ==> decimal(n)[0] != '0',
    decreases n,
{
    if n < 10 {
        reveal_with_fuel(number_of, 2);
        assert(decimal(n).drop_last() =~= Seq::empty());
    } else {
        law_numbers_read_back(n / 10);
        assert(decimal(n).drop_last() =~= decimal(n / 10));
        assert(decimal(n).last() as int - '0' as int == n % 10);
        if decimal(n / 10).len() == 1 {
            assert(decimal(n / 10).drop_last() =~= Seq::empty());
            reveal_with_fuel(number_of, 2);
        }
    }
}

/// Alignment puts spaces before a text, as many as bring it to the width, and
/// never shortens it.
pub proof fn law_alignment(s: Seq<char>, width: nat)
    ensures
        right_aligned(s, width).len() == (if s.len() < width { width } else { s.len() }),
        right_aligned(s, width).skip(right_aligned(s, width).len() - s.len()) == s,
        forall|i: int|
            0 <= i < right_aligned(s, width).len() - s.len() ==> #[trigger] right_aligned(
                s,
                width,
            )[i] == ' ',
{
    assert(right_aligned(s, width).skip(right_aligned(s, width).len() - s.len()) =~= s);
}

/// The notices of transfers name what went where.
pub proof fn law_notices_of_transfers(from: String, to: String, length: u64)
    ensures
        notice_lines(Notice::DryRun) == seq!["Dry run..."@],
        notice_lines(Notice::SyncDone) == seq!["Done syncing all files."@],
        notice_lines(Notice::Uploaded { host_path: from, device_path: to }) == seq![
            "Uploaded "@ + from@ + " -> "@ + to@,
        ],
        notice_lines(Notice::Downloaded { device_path: from, host_path: to, length }) == seq![
            "Downloaded "@ + from@ + " -> "@ + to@ + " ("@ + decimal(length as nat) + " bytes)"@,
        ],
        notice_lines(Notice::Removed(from)) == seq!["Removed "@ + from@],
        notice_lines(Notice::Output(from)) == seq![from@],
        notice_lines(Notice::Text(from)) == seq![from@],
{
}

/// A listing has a line for every entry, in order: its kind, its size in a column
/// of ten, and its name. Without entries it says so.
pub proof fn law_listings(entries: Vec<DirEntry>)
    ensures
        entries@.len() == 0 ==> notice_lines(Notice::Listing(entries)) == seq!["(empty)"@],
        entries@.len() > 0 ==> notice_lines(Notice::Listing(entries)).len() == entries@.len(),
        forall|i: int|
            0 <= i < entries@.len() ==> #[trigger] notice_lines(Notice::Listing(entries))[i] == (
            if entries@[i].is_dir {
                "d"@
            } else {
                "f"@
            }) + " "@ + right_aligned(decimal(entries@[i].size as nat), 10) + "  "@
                + entries@[i].name@,
{
}

/// Lines are passed on as they are.
pub proof fn law_lines_are_passed_on(lines: Vec<String>)
    ensures
        notice_lines(Notice::Lines(lines)).len() == lines@.len(),
        forall|i: int|
            0 <= i < lines@.len() ==> #[trigger] notice_lines(Notice::Lines(lines))[i]
                == lines@[i]@,
{
}

/// The device table has a line for every device, in order: its serial number, its
/// nickname, and a mark on the default.
pub proof fn law_device_tables(rows: Vec<DeviceRow>)
    ensures
        notice_lines(Notice::DeviceTable(rows)).len() == rows@.len(),
        forall|i: int|
            0 <= i < rows@.len() ==> #[trigger] notice_lines(Notice::DeviceTable(rows))[i]
                == rows@[i].serial@ + " | nickname: "@ + (if rows@[i].nickname is Some {
                rows@[i].nickname->Some_0@
            } else {
                "(none)"@
            }) + (if rows@[i].is_default {
                " [default]"@
            } else {
                ""@
            }),
{
}

/// The notices and questions of discovery and pairing name the device.
pub proof fn law_notices_of_pairing(serial: String, name: String)
    ensures
        notice_lines(Notice::Searching) == seq!["Searching for Boppo devices (5s)..."@],
        notice_lines(Notice::NoDevicesFound) == seq!["No devices found."@],
        notice_lines(Notice::KnownDevice { serial, device_name: name }) == seq![
            "  "@ + serial@ + " \""@ + name@ + "\" [already in store]"@,
        ],
        notice_lines(Notice::NewDevice { serial, device_name: name }) == seq![
            "  "@ + serial@ + " \""@ + name@ + "\" [not paired]"@,
        ],
        notice_lines(Notice::PairQuestion) == seq!["Pair with this device? [Y/n] "@],
        notice_lines(Notice::NicknameQuestion(Some(name))) == seq![
            "Nickname (Enter for \""@ + name@ + "\"): "@,
        ],
        notice_lines(Notice::NicknameQuestion(None)) == seq!["Nickname (Enter to skip): "@],
        notice_lines(Notice::MadeDefault) == seq!["Set as default device."@],
        notice_lines(Notice::Pairing(serial)) == seq![
            "Pairing with device "@ + serial@ + "..."@,
        ],
        notice_lines(Notice::Paired(serial)) == seq![
            "Device "@ + serial@ + " paired and saved."@,
        ],
        notice_lines(Notice::Unauthorized) == seq![
            "Error: unauthorized (401) \u{2014} is the password correct?"@,
        ],
        notice_lines(Notice::RepairQuestion(serial)) == seq![
            "Re-pair with device "@ + serial@ + "? [Y/n] "@,
        ],
{
}

/// The notices of the other commands name what they are about.
pub proof fn law_other_notices(a: String, b: String)
    ensures
        notice_lines(Notice::Deployed { package: a, device_dir: b }) == seq![
            "Deployed "@ + a@ + " to "@ + b@,
        ],
        notice_lines(Notice::Started(a)) == seq!["Started "@ + a@],
        notice_lines(Notice::UsingPort(a)) == seq!["Using serial port: "@ + a@],
        notice_lines(Notice::WifiSent) == seq!["Wi-Fi credentials sent."@],
        notice_lines(Notice::NoDevices) == seq!["No devices registered."@],
        notice_lines(Notice::Credentials { serial: a, password: b }) == seq![
            "serial:   "@ + a@,
            "password: "@ + b@,
        ],
        notice_lines(Notice::DeviceAdded(a)) == seq!["Device "@ + a@ + " added."@],
        notice_lines(Notice::DeviceRemoved(a)) == seq!["Device "@ + a@ + " removed."@],
        notice_lines(Notice::DefaultSet(a)) == seq!["Default device set to "@ + a@ + "."@],
{
}

/// The advice on how to install a completion script is that for its shell.
pub proof fn law_installation_advice()
    ensures
        notice_lines(Notice::InstallHint(ShellKind::Fish)) == seq![
            "\n# To install: "@
                + "boppo completions fish > ~/.config/fish/completions/boppo.fish"@,
        ],
        notice_lines(Notice::InstallHint(ShellKind::Bash)) == seq![
            "\n# To install: "@
                + "boppo completions bash > ~/.local/share/bash-completion/completions/boppo"@,
        ],
        notice_lines(Notice::InstallHint(ShellKind::Zsh)) == seq![
            "\n# To install: "@ + "boppo completions zsh > ~/.zfunc/_boppo"@,
        ],
        notice_lines(Notice::InstallHint(ShellKind::Elvish)) == seq![
            "\n# To install: "@
                + "boppo completions elvish >> ~/.config/elvish/lib/completions.elv"@,
        ],
        notice_lines(Notice::InstallHint(ShellKind::PowerShell)) == seq![
            "\n# To install: "@ + "boppo completions powershell >> $PROFILE"@,
        ],
        notice_lines(Notice::InstallHint(ShellKind::Other)) == seq![
            "\n# To install: "@ + "pipe this output to your shell's completion directory"@,
        ],
{
}

/// What a command was asked for goes to standard output; what it says of its own
/// progress goes to standard error. Questions, and the output of a command on the
/// device, get no newline of their own.
pub proof fn law_channels(notice: Notice)
    ensures
        notice_channel(notice) == Channel::StdoutRaw <==> notice is Output || notice
            is PairQuestion || notice is NicknameQuestion || notice is RepairQuestion,
        notice_channel(notice) == Channel::Stderr <==> notice is DryRun || notice is SyncDone
            || notice is Uploaded || notice is Downloaded || notice is Removed || notice
            is Searching || notice is Pairing || notice is Deployed || notice is Started || notice
            is UsingPort || notice is WifiSent || notice is Unauthorized,
{
}

/// A problem names what it is about.
pub proof fn law_problems(a: String)
    ensures
        problem_text(Problem::NotInStore(a)) == "device '"@ + a@
            + "' not found in credential store"@,
        problem_text(Problem::NoDefault)
            == "no default device set; use --device or `boppo devices set-default`"@,
        problem_text(Problem::NotFound(a)) == "device '"@ + a@ + "' not found"@,
        problem_text(Problem::InvalidFileName(a)) == "invalid file name: "@ + a@,
        problem_text(Problem::ReadFailed(a)) == "failed to read "@ + a@,
        problem_text(Problem::WriteFailed(a)) == "failed to write "@ + a@,
        problem_text(Problem::EnumerateFailed) == "failed to enumerate USB ports"@,
        problem_text(Problem::NoUsbDevice) == "no Boppo device found on USB"@,
{
}

} // verus!
