# chinese_chess

A verified core for Chinese chess (xiangqi): the search engine, the game server's rules of
play, and the client's game logic, with their behaviour stated in Verus contracts and
proved.

## Layout

- `src/` — the verified library.
  - `board`, `zobrist`, `evaluate`, `transposition`, `search`: positions, hashing,
    evaluation, the transposition table and the alpha-beta search. The search takes the
    rules of movement (legal moves, check) as arguments.
  - `server/`: players, rooms, the chess clock and the handlers of client requests,
    including the dispatcher of incoming messages.
  - `client`, `local_game`, `menu`, `network`, `editor/`, `settings`, `settings_menu`:
    the client's game state, what its buttons and events do, the board editor and the
    settings page.
  - `llm/`: prompts for a language model, parsing of its replies and the retry steps.
  - `storage`, `text`, `icons`, `outcome`, `clock`: file names of saved games, text
    helpers, display helpers, results, and the clock.
- `tests/` — tests of the library.
- `app/` — the server program: sockets, framing, storage on disk, the language-model
  client, the settings file, and the bridge to the `protocol` crate that provides move
  generation, notation and FEN.
