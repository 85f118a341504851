//! Command-line bridge to Cadence Virtuoso: the verified core.
//!
//! - `capability`: which RPC domains a client may use, and the parsing of
//!   the capability list;
//! - `client`: the SKILL text of the schematic editing commands, and the
//!   quoting of values put into SKILL string literals;
//! - `rpc`: the schema of the RPC methods;
//! - `history`: the SKILL and command history records and their selection;
//! - `commands`: what the session commands decide about the sessions;
//! - `session`: the session heartbeat's state and decisions;
//! - `text`: character-level helpers and the text models they are proved
//!   against.
use vstd::prelude::*;

pub mod capability;
pub mod client;
pub mod commands;
pub mod history;
pub mod rpc;
pub mod session;
pub mod text;
