//! A verified core for a thin Bitcoin SV JSON-RPC command-line client.
//!
//! The library models the client's decisions as plain data: a `Command`
//! describes what the user asked for, `resolve_auth` picks exactly one
//! authentication mode, and `dispatch` turns a command into the single
//! remote request to perform, decoding hexadecimal hash identifiers on
//! the way. Network transport, argument parsing and printing live outside
//! the library.

pub mod auth;
pub mod dispatch;
pub mod errors;
pub mod hex_codec;
pub mod json_params;
