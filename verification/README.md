# game_auth

Verified decisions of a game server's request handling.

- `src/session.rs`: the session-token checks of the authentication extractor,
  as a step function: `begin` (token shape, logout path) and `step` (what a
  verification result, unverified payload claims, or a stored device lead to).
- `src/session_laws.rs`: what authentication guarantees over whole runs.
- `src/game.rs`: which state operations a socket request asks for
  (`plan_commands`, `bombs_max_count`) and what it is answered (`respond`).
- `src/game_laws.rs`: which bomb types are set.
- `src/encoding.rs`: base64, UTF-8 and integer parsing taken from `base64` and std.
- `app/`: the actix-web extractor and the socket handler driver, which do the
  session, token, store and state work the library asks for.
