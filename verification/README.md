# dl_voice_typing

The verified core of a voice-typing program: a hotkey is held, speech is recorded and transcribed,
optionally corrected by a language model, optionally reviewed, and pasted into the window that has the
focus.

- `src/` is the library. All of it is checked by Verus. The outside world is never called from the
  middle of a decision: functions take what came of the last outside step and hand out a list of
  actions to perform next. Contracts speak of those lists as sequences, of texts as sequences of
  characters and of the state machine by its current state. Laws that relate several functions are
  public proof functions at the end of their module.
- `tests/` runs the library on concrete values.
- `app/` is the program around it: files, network, audio, windows, and everything that computes with
  floating-point numbers. The desktop part needs Windows.

What the proofs rest on besides Verus is stated where it stands: base64 and UTF-8 in `src/crypto.rs`,
the quoting of a text in `src/config/schema.rs`, lower case in
`src/commands/data_management/listing.rs`, JSON strings in `src/commands/delivery_controller.rs`,
`String::push` in `src/text.rs`, and three error types in `src/error.rs`.
