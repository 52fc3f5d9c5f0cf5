//! A verified core for a tic-tac-toe game server.
//!
//! The library holds the game logic: the board, the rules, the per-game
//! session state machine, the registry of live sessions, and the text wire
//! protocol. Everything here is specified and proved; the TCP listener and
//! the threads that drive connections live outside the library and only
//! pass plain values (byte lines) in and out.

pub mod squares;

pub mod errors;

pub mod board;

pub mod rules;

pub mod session;

pub mod registry;

pub mod protocol;

pub mod laws;

pub mod demo;
