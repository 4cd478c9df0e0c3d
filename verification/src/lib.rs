//! Request authentication for the game server and the decisions of the
//! attack-game socket handler.
pub mod encoding;
pub mod game;
pub mod game_laws;
pub mod session;
pub mod session_laws;
