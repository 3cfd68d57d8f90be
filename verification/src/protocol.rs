//! The exchange between the decisions and the world: a flow asks for one action
//! at a time and is handed the event that the action ended in.

use crate::command::ShellKind;
use crate::notice::{DirEntry, Notice, Problem};
use vstd::prelude::*;

verus! {

/// What the credential store keeps of a device.
pub struct DeviceCredentials {
    pub password: String,
    pub nickname: Option<String>,
}

/// A device of the credential store.
pub struct Device {
    pub serial: String,
    pub credentials: DeviceCredentials,
}

/// A device that answered on the local network.
pub struct FoundDevice {
    pub serial: String,
    pub device_name: String,
}

/// A link of an error's chain of causes.
#[derive(Clone, Copy, PartialEq, Eq, Structural)]
pub enum Cause {
    /// The device refused the credentials.
    Unauthorized,
    Other,
}

/// An error that an action ended in. The error itself stays outside, under a
/// number.
pub struct ErrorReport {
    pub id: usize,
    pub causes: Vec<Cause>,
}

/// One thing to do in the world.
pub enum Action {
    /// Look a device up by serial number or nickname. Ends in `Event::Found`.
    Resolve(String),
    /// Look the default device up. Ends in `Event::Found`.
    FindDefault,
    /// Look a serial number up. Ends in `Event::Credentials`.
    GetDevice(String),
    /// Put a device into the store, in the place of one with its serial number.
    SetDevice(Device),
    /// Take a device out of the store. Ends in `Event::Removed`.
    RemoveDevice(String),
    /// Read the default serial number. Ends in `Event::Default`.
    GetDefault,
    SetDefault(String),
    ClearDefault,
    /// List the store. Ends in `Event::Devices`.
    ListDevices,
    /// Write the store to its file.
    SaveStore,
    /// Say something.
    Tell(Notice),
    /// Say something and read a line. Ends in `Event::Line`.
    Ask(Notice),
    /// Open a connection to a device, for the actions that follow.
    Connect { serial: String, password: String },
    SyncDir { host_dir: String, device_dir: String, delete: bool, dry_run: bool, progress: bool },
    /// Upload to the device, with a progress bar where there is a label.
    Upload { device_path: String, data: Vec<u8>, label: Option<String> },
    /// Download from the device. Ends in `Event::Bytes`.
    Download(String),
    /// Read a directory of the device. Ends in `Event::Entries`.
    ReadDir(String),
    RemoveFile(String),
    RemoveDir(String),
    RemoveDirAll(String),
    /// Run a command on the device. Ends in `Event::Output`.
    RunCommand(String),
    /// Fetch the device's information. Ends in `Event::Info`.
    GetInfo,
    /// Look for devices on the network. Ends in `Event::Discovered`.
    Browse,
    /// Pair with a device. Ends in `Event::Password`.
    PairDevice(String),
    /// Read a local file. Ends in `Event::Bytes`.
    ReadFile(String),
    /// Read the music file at a place on the command line. Ends in
    /// `Event::Bytes`.
    ReadMusic(usize),
    WriteFile { host_path: String, data: Vec<u8> },
    /// Look for a device on USB. Ends in `Event::Port`.
    FindPort,
    OpenPort(String),
    /// Run a command over the open port. Ends in `Event::Output`.
    UsbRun(String),
    /// Send Wi-Fi credentials over the open port.
    UsbSendWifi { ssid: String, passphrase: Option<String> },
    /// Compile the activity. Ends in `Event::Package`.
    Build { optimize: bool },
    /// Read the activity's package name. Ends in `Event::Package`.
    PackageName,
    /// Lay the compiled activity out for the device. Ends in `Event::Staged`.
    Stage(String),
    /// Run the command that starts an activity on the device.
    StartActivity(String),
    /// Write a completion script.
    GenerateCompletions(ShellKind),
}

/// How an action ended.
pub enum Event {
    /// It is done and there is nothing to report.
    Done,
    Failed(ErrorReport),
    Found(Option<Device>),
    Credentials(Option<DeviceCredentials>),
    /// Whether there was such a device, and the default that is set now.
    Removed { removed: bool, default: Option<String> },
    Default(Option<String>),
    Devices { devices: Vec<Device>, default: Option<String> },
    Line(String),
    Bytes(Vec<u8>),
    Entries(Vec<DirEntry>),
    Output(String),
    Info(serde_json::Value),
    Discovered(Vec<FoundDevice>),
    Password(String),
    Port(Option<String>),
    Package(String),
    Staged(String),
}

/// Why a flow ended in failure.
pub enum Failure {
    /// The command cannot be carried out.
    Refused(Problem),
    /// An action failed. The problem is what the error is put down to.
    Action { problem: Option<Problem>, error: ErrorReport },
    /// A document could not be written as JSON.
    Json(serde_json::Error),
    /// The event does not answer the action.
    OutOfStep,
}

/// What a flow does next.
pub enum Turn<S> {
    /// It asks for an action and waits in a state.
    Act(S, Action),
    /// It is complete.
    Done,
    /// It has failed.
    Fail(Failure),
}

/// The failure of an action whose error is passed on as it is.
pub open spec fn passed_on(error: ErrorReport) -> Failure {
    Failure::Action { problem: None, error }
}

/// The failure of an action whose error is put down to a problem.
pub open spec fn put_down_to(problem: Problem, error: ErrorReport) -> Failure {
    Failure::Action { problem: Some(problem), error }
}

/// The failure of a flow that waits for an action to be done and gets another
/// event: the action's error, or that the event does not fit.
pub open spec fn failed_with(event: Event) -> Failure {
    match event {
        Event::Failed(error) => passed_on(error),
        _ => Failure::OutOfStep,
    }
}

/// The failure that an event that is not awaited stands for.
pub fn failure_of(event: Event) -> (res: Failure)
    ensures
        res == failed_with(event),
{
    match event {
        Event::Failed(error) => Failure::Action { problem: None, error },
        _ => Failure::OutOfStep,
    }
}

/// As `failed_with`, with a problem that the action's error is put down to.
pub open spec fn failed_by(problem: Problem, event: Event) -> Failure {
    match event {
        Event::Failed(error) => put_down_to(problem, error),
        _ => Failure::OutOfStep,
    }
}

/// As `failure_of`, with a problem that the action's error is put down to.
pub fn failure_by(problem: Problem, event: Event) -> (res: Failure)
    ensures
        res == failed_by(problem, event),
{
    match event {
        Event::Failed(error) => Failure::Action { problem: Some(problem), error },
        _ => Failure::OutOfStep,
    }
}

/// An error that the device's refusal of the credentials is behind.
pub open spec fn refused_credentials(failure: Failure) -> bool {
    match failure {
        Failure::Action { error, .. } => error.causes@.contains(Cause::Unauthorized),
        _ => false,
    }
}

/// Whether some link of a chain of causes is the refusal of the credentials.
fn names_unauthorized(causes: &Vec<Cause>) -> (res: bool)
    ensures
        res == causes@.contains(Cause::Unauthorized),
{
    for i in 0..causes.len()
        invariant
            forall|j: int| 0 <= j < i ==> causes@[j] != Cause::Unauthorized,
    {
        if causes[i] == Cause::Unauthorized {
            return true;
        }
    }
    false
}

/// Whether the device's refusal of the credentials is behind a failure: some
/// link of its error's chain of causes says so.
pub fn is_unauthorized(failure: &Failure) -> (res: bool)
    ensures
        res == refused_credentials(*failure),
{
    match failure {
        Failure::Action { error, .. } => names_unauthorized(&error.causes),
        _ => false,
    }
}

} // verus!
