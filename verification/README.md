# boppo

The decisions of the `boppo` command line tool, which manages Boppo devices over
Wi-Fi and USB, as a verified library.

The library performs no input and no output. A run is a `Session`: it asks for
one `Action` at a time (look a device up, tell the user something, upload these
bytes, write the store) and is handed the `Event` that the action ended in. What
it asks for next, and how it ends, is stated in the contracts of
`Session::begin` and `Session::advance`.

- `src/text.rs`, `src/notice.rs`, `src/json.rs`, `src/progress.rs`: names,
  answers, messages, documents and progress bars.
- `src/command.rs`, `src/protocol.rs`: commands, actions, events and failures.
- `src/device.rs`, `src/pairing.rs`, `src/discover.rs`, `src/wifi.rs`,
  `src/activity.rs`, `src/usb.rs`, `src/devices.rs`, `src/repair.rs`,
  `src/session.rs`: the flows.
- `src/laws/`: what holds of whole runs.
- `app/`: the program around the library: arguments, files, the terminal, and the
  device library `boppo_cli` (credential store, HTTPS client, mDNS, USB, activity
  toolchain), which is not part of this tree.
