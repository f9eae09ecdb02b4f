# t3unlock

Unlocks the password-protected Samsung Portable SSD T1, T3 and T5 over USB
bulk transfers.

- `src/` is the verified library: the model table (`usb/model.rs`), the
  command blocks and reply check of the protocol (`usb/proto.rs`), the unlock
  exchange as a state machine with its laws (`usb/session.rs`), device
  selection, status and diagnosis reports (`usb/mod.rs`), the command-line
  decisions (`cli.rs`) and report text helpers (`text.rs`).
- `app/` is the program: argument parsing with clap, password prompt, the
  USB operations with rusb that the state machine asks for, JSON output,
  shell completions and the man page.
- `tests/` exercises the library on concrete values.
