//! The commands of the tool, as they come out of argument parsing.

use vstd::prelude::*;

verus! {

/// A parsed command line.
pub struct Cli {
    /// Serial number or nickname of the device to use.
    pub device: Option<String>,
    pub command: Commands,
}

/// The top-level commands.
pub enum Commands {
    /// Commands over Wi-Fi.
    Wifi(WifiCommands),
    /// Commands over USB serial, on a given port or on one that is looked for.
    Usb { port: Option<String>, command: UsbCommands },
    /// Management of the registered devices.
    Devices(DevicesCommands),
    /// Activity development.
    Activity(ActivityCommands),
    /// Print the version.
    Version { version: String },
    /// Print a shell completion script.
    Completions(ShellKind),
}

pub enum WifiCommands {
    /// A command that works on the active device.
    OnDevice(DeviceCommands),
    /// Look for devices on the local network and offer to pair with them.
    Discover,
    /// Pair with a device.
    Pair { serial: String },
}

/// The Wi-Fi commands that work on the active device.
pub enum DeviceCommands {
    SyncDir(SyncDirArgs),
    UploadFile(UploadFileArgs),
    UploadMusic(Vec<MusicFile>),
    DownloadFile(DownloadFileArgs),
    LsDir { path: String },
    RmFile { path: String },
    RmDir { path: String, recursive: bool },
    ExecuteCommand { command: String },
    GetInfo { json: bool },
}

pub struct SyncDirArgs {
    pub host_dir: String,
    pub device_dir: String,
    pub delete: bool,
    pub dry_run: bool,
    pub verbose: bool,
    pub no_progress: bool,
}

pub struct UploadFileArgs {
    pub host_path: String,
    pub device_path: String,
    pub no_progress: bool,
}

/// A music file named on the command line.
pub struct MusicFile {
    /// The path as it is shown to the user.
    pub display: String,
    /// The last component of the path, where it has one and it is valid text.
    pub name: Option<String>,
}

pub struct DownloadFileArgs {
    pub device_path: String,
    pub host_path: String,
}

pub enum UsbCommands {
    ExecuteCommand { command: String },
    SendWifi { ssid: String, password: Option<String> },
}

pub enum ActivityCommands {
    Build { no_optimize: bool },
    Deploy(DeployArgs),
    Start,
}

pub struct DeployArgs {
    pub no_optimize: bool,
    pub delete: bool,
    pub no_build: bool,
    pub no_start: bool,
    /// The directory on the device that holds the activities.
    pub device_root: String,
}

pub enum DevicesCommands {
    List { json: bool },
    Get { json: bool },
    Add { serial: String, password: String, nickname: Option<String> },
    Remove { identifier: String },
    SetDefault { identifier: String },
}

/// The shells that completion scripts are written for.
#[derive(Clone, Copy, PartialEq, Eq, Structural)]
pub enum ShellKind {
    Fish,
    Bash,
    Zsh,
    Elvish,
    PowerShell,
    /// A shell without installation advice of its own.
    Other,
}

} // verus!
