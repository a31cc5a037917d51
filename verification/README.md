# riichilab_agent

The decision logic of a mahjong agent for the RiichiLab game server, written in Rust and verified
with Verus.

- `src/` is the verified library.
  - `mjai` - seats, tiles, actions and events of the mjai protocol, and their texts.
  - `protocol` - messages of the server.
  - `engine` - observations and actions of the game engine.
  - `hand`, `context`, `evaluation`, `rules` - choosing an action by rules: `rules::choose_action`.
  - `selection` - choosing an action by its type.
  - `agent` - the session with the server: `agent::handle_message` answers a request.
  - `logger` - what to write to which log file.
  - `json`, `random`, `text` - JSON values, chance, and text.
- `tests/` runs the library together with the game engine.
- `app/` is the command line program around it: arguments, the websocket, the log files and the
  JSON forms of the protocol's types.

Each call into another crate stands in a small function marked `external_body`, whose comment says
what is claimed of the call.
