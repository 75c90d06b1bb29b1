//! Core logic of a command-line remote control for a local music-player
//! companion server: the resolved command model, the on-disk token store,
//! the pairing handshake, and the interpretation of server responses.

pub mod cli;
pub mod command;
pub mod interpret;
pub mod outside;
pub mod pairing;
pub mod protocol;
pub mod render;
pub mod state;
pub mod token_store;
