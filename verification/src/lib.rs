//! A verified core for a command-line client of the TickTick Open API:
//! request construction for every endpoint, the OAuth authorize URL, the
//! command-line grammar and the choice of what to do for a parsed command.

pub mod text;
pub mod json;
pub mod error;
pub mod address;
pub mod config;
pub mod api;
pub mod cli;
pub mod args;
pub mod output;
pub mod http;
pub mod laws;
pub mod roundtrip;
pub mod decoding;
pub mod endpoints;
