//! Laws of the commands on the registered devices, and of the commands that only
//! print, from the command line on.

use crate::command::{Cli, Commands, DevicesCommands, ShellKind};
use crate::device::is_default_serial;
use crate::devices::{device_rows, devices_steps, DevicesState};
use crate::json::{device_list, json_pretty, shown_device, Json};
use crate::laws::parts::{follows, lookup_of};
use crate::laws::runs::is_session_run;
use crate::notice::Notice;
use crate::protocol::{Action, Device, DeviceCredentials, Event, Turn};
use crate::session::{session_begun, session_steps, while_on_devices, Session};
use vstd::prelude::*;

verus! {

/// Whether a device is the one that is set as the default.
pub open spec fn is_set_as(default: Option<String>, serial: String) -> bool {
    default is Some && default->Some_0@ == serial@
}

/// The nickname of a device in a document: a string, or null.
pub open spec fn nickname_member(nickname: Option<String>) -> Json {
    match nickname {
        Some(nickname) => Json::Text(nickname@),
        None => Json::Null,
    }
}

/// A document that lists the store: one object per device, in the store's order,
/// with its serial number, its nickname and whether it is the default, and with
/// nothing else, so that no password is shown.
pub open spec fn lists(document: Json, devices: Seq<Device>, default: Option<String>) -> bool {
    &&& document matches Json::Array(items)
    &&& items.len() == devices.len()
    &&& forall|k: int|
        0 <= k < items.len() ==> {
            &&& #[trigger] items[k] matches Json::Object(members)
            &&& members.dom() =~= set!["serial"@, "nickname"@, "default"@]
            &&& members["serial"@] == Json::Text(devices[k].serial@)
            &&& members["nickname"@] == nickname_member(devices[k].credentials.nickname)
            &&& members["default"@] == Json::Bool(is_set_as(default, devices[k].serial))
        }
}

/// A document that shows a device: its serial number, its password, its nickname
/// and whether it is the default, and nothing else.
pub open spec fn shows(document: Json, device: Device, default: Option<String>) -> bool {
    &&& document matches Json::Object(members)
    &&& members.dom() =~= set!["serial"@, "password"@, "nickname"@, "default"@]
    &&& members["serial"@] == Json::Text(device.serial@)
    &&& members["password"@] == Json::Text(device.credentials.password@)
    &&& members["nickname"@] == nickname_member(device.credentials.nickname)
    &&& members["default"@] == Json::Bool(is_set_as(default, device.serial))
}

/// The notice of the store's devices: a document where that is asked for; else
/// that there are none, or one row for each, in the store's order.
pub open spec fn tells_devices(
    json: bool,
    devices: Seq<Device>,
    default: Option<String>,
    action: Action,
) -> bool {
    if json {
        &&& action matches Action::Tell(Notice::Text(text))
        &&& exists|document: Json| #[trigger]
            lists(document, devices, default) && text@ == json_pretty(document)
    } else if devices.len() == 0 {
        action == Action::Tell(Notice::NoDevices)
    } else {
        &&& action matches Action::Tell(Notice::DeviceTable(rows))
        &&& rows@.len() == devices.len()
        &&& forall|k: int|
            0 <= k < devices.len() ==> {
                &&& (#[trigger] rows@[k]).serial == devices[k].serial
                &&& rows@[k].nickname == devices[k].credentials.nickname
                &&& rows@[k].is_default == is_set_as(default, devices[k].serial)
            }
    }
}

/// The notice of a device as a document.
pub open spec fn tells_document(device: Device, default: Option<String>, action: Action) -> bool {
    &&& action matches Action::Tell(Notice::Text(text))
    &&& exists|document: Json| #[trigger]
        shows(document, device, default) && text@ == json_pretty(document)
}

proof fn lemma_keys()
    ensures
        "serial"@ != "nickname"@,
        "serial"@ != "default"@,
        "serial"@ != "password"@,
        "nickname"@ != "default"@,
        "nickname"@ != "password"@,
        "default"@ != "password"@,
{
    reveal_strlit("serial");
    reveal_strlit("nickname");
    reveal_strlit("default");
    reveal_strlit("password");
    assert("serial"@.len() < "default"@.len() < "nickname"@.len());
    assert("password"@.len() == "nickname"@.len() && "password"@[0] != "nickname"@[0]);
}

proof fn lemma_lists(devices: Seq<Device>, default: Option<String>)
    ensures
        lists(device_list(device_rows(devices, default)), devices, default),
{
    lemma_keys();
}

proof fn lemma_shows(device: Device, default: Option<String>)
    ensures
        shows(
            shown_device(
                device.serial@,
                device.credentials.password@,
                crate::text::optional_view(device.credentials.nickname),
                is_default_serial(default, device.serial@),
            ),
            device,
            default,
        ),
{
    lemma_keys();
}

/// State and action at turn `i`, where it asks for an action.
spec fn devices_at(
    device: Option<String>,
    command: DevicesCommands,
    events: Seq<Event>,
    i: int,
    state: DevicesState,
    action: Action,
) -> bool {
    match command {
        DevicesCommands::List { json } => if i == 0 {
            state == (DevicesState::Listing { json }) && action == Action::ListDevices
        } else {
            &&& i == 1
            &&& state == DevicesState::Reporting
            &&& events[0] matches Event::Devices { devices, default }
            &&& tells_devices(json, devices@, default, action)
        },
        DevicesCommands::Get { json } => if i == 0 {
            &&& state == (DevicesState::Finding { device_arg: device, json })
            &&& action == lookup_of(device)
        } else {
            &&& events[0] matches Event::Found(Some(found))
            &&& if json && i == 1 {
                state == DevicesState::CheckingDefault(found) && action == Action::GetDefault
            } else if json {
                &&& i == 2
                &&& state == DevicesState::Reporting
                &&& events[1] matches Event::Default(default)
                &&& tells_document(found, default, action)
            } else {
                &&& i == 1
                &&& state == DevicesState::Reporting
                &&& action == Action::Tell(
                    Notice::Credentials {
                        serial: found.serial,
                        password: found.credentials.password,
                    },
                )
            }
        },
        DevicesCommands::Add { serial, password, nickname } => if i == 0 {
            &&& state == (DevicesState::Adding { serial })
            &&& action == Action::SetDevice(
                Device { serial, credentials: DeviceCredentials { password, nickname } },
            )
        } else if i == 1 {
            &&& state == (DevicesState::Saving { then_tell: Notice::DeviceAdded(serial) })
            &&& action == Action::SaveStore
        } else {
            &&& i == 2
            &&& state == DevicesState::Reporting
            &&& action == Action::Tell(Notice::DeviceAdded(serial))
        },
        DevicesCommands::Remove { identifier } => if i == 0 {
            &&& state == (DevicesState::FindingRemoved { identifier })
            &&& action == Action::Resolve(identifier)
        } else {
            &&& events[0] matches Event::Found(Some(found))
            &&& if i == 1 {
                &&& state == (DevicesState::Removing { identifier, serial: found.serial })
                &&& action == Action::RemoveDevice(found.serial)
            } else {
                &&& events[1] matches Event::Removed { removed, default }
                &&& removed
                &&& {
                    let save: int = if is_set_as(default, found.serial) { 3 } else { 2 };
                    if i < save {
                        &&& state == (DevicesState::Clearing { serial: found.serial })
                        &&& action == Action::ClearDefault
                    } else if i == save {
                        &&& state == (DevicesState::Saving {
                            then_tell: Notice::DeviceRemoved(found.serial),
                        })
                        &&& action == Action::SaveStore
                    } else {
                        &&& i == save + 1
                        &&& state == DevicesState::Reporting
                        &&& action == Action::Tell(Notice::DeviceRemoved(found.serial))
                    }
                }
            }
        },
        DevicesCommands::SetDefault { identifier } => if i == 0 {
            &&& state == (DevicesState::FindingDefault { identifier })
            &&& action == Action::Resolve(identifier)
        } else {
            &&& events[0] matches Event::Found(Some(found))
            &&& if i == 1 {
                &&& state == (DevicesState::Setting { serial: found.serial })
                &&& action == Action::SetDefault(found.serial)
            } else if i == 2 {
                &&& state == (DevicesState::Saving { then_tell: Notice::DefaultSet(found.serial) })
                &&& action == Action::SaveStore
            } else {
                &&& i == 3
                &&& state == DevicesState::Reporting
                &&& action == Action::Tell(Notice::DefaultSet(found.serial))
            }
        },
    }
}

/// The number of actions of a command that ends well.
spec fn length_of(command: DevicesCommands, events: Seq<Event>) -> int {
    match command {
        DevicesCommands::List { .. } => 2,
        DevicesCommands::Get { json } => if json { 3 } else { 2 },
        DevicesCommands::Add { .. } => 3,
        DevicesCommands::Remove { .. } => if is_set_as(
            events[1]->Removed_default,
            events[0]->Found_0->Some_0.serial,
        ) {
            5
        } else {
            4
        },
        DevicesCommands::SetDefault { .. } => 4,
    }
}

proof fn lemma_devices_step(
    device: Option<String>,
    command: DevicesCommands,
    events: Seq<Event>,
    i: int,
    state: DevicesState,
    action: Action,
    turn: Turn<DevicesState>,
)
    requires
        i >= 0,
        devices_at(device, command, events, i, state, action),
        devices_steps(state, events[i], turn),
    ensures
        match turn {
            Turn::Act(next, asked) => devices_at(device, command, events, i + 1, next, asked),
            Turn::Done => i + 1 == length_of(command, events),
            Turn::Fail(_) => true,
        },
{
    match (state, events[i]) {
        (DevicesState::Listing { .. }, Event::Devices { devices, default }) => {
            lemma_lists(devices@, default);
        },
        (DevicesState::CheckingDefault(found), Event::Default(default)) => {
            lemma_shows(found, default);
        },
        _ => {},
    }
}

proof fn lemma_devices_schedule(
    cli: Cli,
    command: DevicesCommands,
    events: Seq<Event>,
    turns: Seq<Turn<Session>>,
    i: int,
)
    requires
        is_session_run(session_begun(cli), events, turns),
        cli.command == Commands::Devices(command),
        0 <= i < turns.len(),
    ensures
        match turns[i] {
            Turn::Act(session, action) => session is Devices && devices_at(
                cli.device,
                command,
                events,
                i,
                session->Devices_0,
                action,
            ),
            Turn::Done => i == length_of(command, events),
            Turn::Fail(_) => true,
        },
    decreases i,
{
    if i > 0 {
        lemma_devices_schedule(cli, command, events, turns, i - 1);
        let event = events[i - 1];
        assert(turns[i - 1] is Act && session_steps(turns[i - 1]->Act_0, event, turns[i]));
        let state = turns[i - 1]->Act_0->Devices_0;
        let step = choose|step: Turn<DevicesState>| #[trigger]
            devices_steps(state, event, step) && turns[i] == while_on_devices(step);
        lemma_devices_step(
            cli.device,
            command,
            events,
            i - 1,
            state,
            turns[i - 1]->Act_1,
            step,
        );
    }
}

proof fn lemma_devices(
    cli: Cli,
    command: DevicesCommands,
    events: Seq<Event>,
    turns: Seq<Turn<Session>>,
)
    requires
        is_session_run(session_begun(cli), events, turns),
        cli.command == Commands::Devices(command),
    ensures
        forall|i: int|
            0 <= i < turns.len() ==> match #[trigger] turns[i] {
                Turn::Act(session, action) => session is Devices && devices_at(
                    cli.device,
                    command,
                    events,
                    i,
                    session->Devices_0,
                    action,
                ),
                Turn::Done => i == length_of(command, events),
                Turn::Fail(_) => true,
            },
{
    assert forall|i: int| 0 <= i < turns.len() implies match #[trigger] turns[i] {
        Turn::Act(session, action) => session is Devices && devices_at(
            cli.device,
            command,
            events,
            i,
            session->Devices_0,
            action,
        ),
        Turn::Done => i == length_of(command, events),
        Turn::Fail(_) => true,
    } by {
        lemma_devices_schedule(cli, command, events, turns, i);
    }
}

/// Listing shows the store's devices, as they are, and does nothing else.
pub proof fn law_devices_list(
    cli: Cli,
    json: bool,
    events: Seq<Event>,
    turns: Seq<Turn<Session>>,
)
    requires
        is_session_run(session_begun(cli), events, turns),
        cli.command == Commands::Devices(DevicesCommands::List { json }),
    ensures
        follows(
            turns,
            2,
            |i: int, action: Action|
                {
                    &&& i == 0 ==> action == Action::ListDevices
                    &&& i == 1 ==> events[0] is Devices && tells_devices(
                        json,
                        events[0]->Devices_devices@,
                        events[0]->Devices_default,
                        action,
                    )
                },
        ),
{
    lemma_devices(cli, DevicesCommands::List { json }, events, turns);
}

/// Getting the active device looks up the device of the command line, or else the
/// default, and shows its serial number and password, or a document.
pub proof fn law_devices_get(
    cli: Cli,
    json: bool,
    events: Seq<Event>,
    turns: Seq<Turn<Session>>,
)
    requires
        is_session_run(session_begun(cli), events, turns),
        cli.command == Commands::Devices(DevicesCommands::Get { json }),
    ensures
        follows(
            turns,
            if json { 3 } else { 2 },
            |i: int, action: Action|
                {
                    &&& i == 0 ==> action == lookup_of(cli.device)
                    &&& i >= 1 ==> {
                        &&& events[0] matches Event::Found(Some(found))
                        &&& i == 1 && !json ==> action == Action::Tell(
                            Notice::Credentials {
                                serial: found.serial,
                                password: found.credentials.password,
                            },
                        )
                        &&& i == 1 && json ==> action == Action::GetDefault
                        &&& i == 2 ==> events[1] is Default && tells_document(
                            found,
                            events[1]->Default_0,
                            action,
                        )
                    }
                },
        ),
{
    lemma_devices(cli, DevicesCommands::Get { json }, events, turns);
}

/// Adding a device puts the device of the command line into the store, writes the
/// store, and says so.
pub proof fn law_devices_add(
    cli: Cli,
    serial: String,
    password: String,
    nickname: Option<String>,
    events: Seq<Event>,
    turns: Seq<Turn<Session>>,
)
    requires
        is_session_run(session_begun(cli), events, turns),
        cli.command == Commands::Devices(DevicesCommands::Add { serial, password, nickname }),
    ensures
        follows(
            turns,
            3,
            |i: int, action: Action|
                {
                    &&& i == 0 ==> {
                        &&& action matches Action::SetDevice(device)
                        &&& device.serial == serial
                        &&& device.credentials.password == password
                        &&& device.credentials.nickname == nickname
                    }
                    &&& i == 1 ==> action == Action::SaveStore
                    &&& i == 2 ==> action == Action::Tell(Notice::DeviceAdded(serial))
                },
        ),
{
    lemma_devices(cli, DevicesCommands::Add { serial, password, nickname }, events, turns);
}

/// Removing a device looks up what the command line names, removes the device that
/// was found, clears the default if, and only if, that is the device, writes the
/// store, and says so.
pub proof fn law_devices_remove(
    cli: Cli,
    identifier: String,
    events: Seq<Event>,
    turns: Seq<Turn<Session>>,
)
    requires
        is_session_run(session_begun(cli), events, turns),
        cli.command == Commands::Devices(DevicesCommands::Remove { identifier }),
    ensures
        ({
            let serial = events[0]->Found_0->Some_0.serial;
            let save: int = if is_set_as(events[1]->Removed_default, serial) { 3 } else { 2 };
            follows(
                turns,
                save + 2,
                |i: int, action: Action|
                    {
                        &&& i == 0 ==> action == Action::Resolve(identifier)
                        &&& i >= 1 ==> events[0] is Found && events[0]->Found_0 is Some
                        &&& i == 1 ==> action == Action::RemoveDevice(serial)
                        &&& i >= 2 ==> events[1] is Removed && events[1]->Removed_removed
                        &&& 2 <= i < save ==> action == Action::ClearDefault
                        &&& i == save && i >= 2 ==> action == Action::SaveStore
                        &&& i == save + 1 && i >= 2 ==> action == Action::Tell(
                            Notice::DeviceRemoved(serial),
                        )
                    },
            )
        }),
{
    lemma_devices(cli, DevicesCommands::Remove { identifier }, events, turns);
}

/// Setting the default looks up what the command line names, makes the device that
/// was found the default, writes the store, and says so.
pub proof fn law_devices_set_default(
    cli: Cli,
    identifier: String,
    events: Seq<Event>,
    turns: Seq<Turn<Session>>,
)
    requires
        is_session_run(session_begun(cli), events, turns),
        cli.command == Commands::Devices(DevicesCommands::SetDefault { identifier }),
    ensures
        follows(
            turns,
            4,
            |i: int, action: Action|
                {
                    let serial = events[0]->Found_0->Some_0.serial;
                    &&& i == 0 ==> action == Action::Resolve(identifier)
                    &&& i >= 1 ==> events[0] is Found && events[0]->Found_0 is Some
                    &&& i == 1 ==> action == Action::SetDefault(serial)
                    &&& i == 2 ==> action == Action::SaveStore
                    &&& i == 3 ==> action == Action::Tell(Notice::DefaultSet(serial))
                },
        ),
{
    lemma_devices(cli, DevicesCommands::SetDefault { identifier }, events, turns);
}

/// The version is told, as it is.
pub proof fn law_version(
    cli: Cli,
    version: String,
    events: Seq<Event>,
    turns: Seq<Turn<Session>>,
)
    requires
        is_session_run(session_begun(cli), events, turns),
        cli.command == (Commands::Version { version }),
    ensures
        follows(turns, 1, |i: int, action: Action| action == Action::Tell(Notice::Text(version))),
{
    if events.len() > 0 {
        let event = events[0];
        assert(session_steps(turns[0]->Act_0, event, turns[1]));
        if events.len() > 1 {
            let event = events[1];
            assert(turns[1] is Act);
        }
    }
}

/// The completion script of the shell that is asked for is written, and then the
/// advice on how to install it for that shell.
pub proof fn law_completions(
    cli: Cli,
    shell: ShellKind,
    events: Seq<Event>,
    turns: Seq<Turn<Session>>,
)
    requires
        is_session_run(session_begun(cli), events, turns),
        cli.command == Commands::Completions(shell),
    ensures
        follows(
            turns,
            2,
            |i: int, action: Action|
                {
                    &&& i == 0 ==> action == Action::GenerateCompletions(shell)
                    &&& i == 1 ==> action == Action::Tell(Notice::InstallHint(shell))
                },
        ),
{
    if events.len() > 0 {
        let event = events[0];
        assert(session_steps(turns[0]->Act_0, event, turns[1]));
        if events.len() > 1 {
            let event = events[1];
            assert(turns[1] is Act && session_steps(turns[1]->Act_0, event, turns[2]));
            if events.len() > 2 {
                let event = events[2];
                assert(turns[2] is Act);
            }
        }
    }
}

} // verus!
