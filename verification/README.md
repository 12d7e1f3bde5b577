# herdr_sidebar

The logic of a terminal sidebar with two views, an Explorer and a Source Control
panel, written in Verus. Every function under `src/` is verified against its
contract; the laws that relate several of them are public proof functions whose
names start with `law_`.

## How it is laid out

- `src/actions/`: the file menu, names, the clipboard, programs of the system,
  editor commands.
- `src/launch/`: decisions over the messages of the multiplexer: which sidebar to
  open, focus or close, where to dock it, how to resize it, which folder to
  follow.
- `src/explorer_app/`: the tree, quick open and the content search, and the state
  machine of the Explorer.
- `src/scm_app/`: rows, drawers and message boxes, and the state machine of the
  Source Control panel.
- the other modules of `src/`: text and its columns, JSON and the fields of messages,
  geometry, the sections of a pane, popups, settings, and what the two views share.
- `app/`: the program around the library. It reads events, draws, and carries out
  the effects that the state machines return; what the library does not decide
  comes through the `Services` trait.
- `tests/`: tests of the library from outside.

## How it works

A view is a value with an invariant, `wf`. A handler takes an event, changes the
value and returns the effects that are to happen outside, in order. The program
performs each of them and hands the outcome back to the method named after it.
Contracts say for every event what the value is afterwards and which effects are
returned.

Calls into other crates stand behind trusted items, each with a comment that says
what is believed of the call: `serde_json` in `json.rs` and `records.rs`, `ratatui`
and `unicode-width` in `columns.rs`, `ratatui`'s layout in `sections.rs`, `regex`
and `globset` in `explorer_app/patterns.rs`, and a few functions of the standard
library.
