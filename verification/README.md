# Codex GPUI Desktop

A desktop client for Codex. The library in `src/` holds everything that the
client decides and is verified with Verus; `app/` puts a GPUI window and a child
process around it.

- `src/model.rs`, `src/reducer.rs`: what the client knows, and how events change it.
- `src/runtime/`: the scripted runtime, and the messages of `codex app-server`.
- `src/json.rs`, `src/codec.rs`: JSON documents, and their text by `serde_json`.
- `src/ui/`: what the window does (`root.rs`, over the values of `state.rs`) and
  what it shows (`view.rs`).
- `src/laws/`: what holds of all of it together.
- `app/`: the window, the text fields and the app-server process.

A message to the app-server is made by the library, handed over by the program,
and the library is told how that went (`RootView::delivered`).
