//! A server-side library for remote, script-driven computers that connect
//! over a text-frame socket: the wire protocol, the correlation of requests
//! with responses on each connection, the identity of each computer, the
//! pool that hands computers out, and the typed access to their peripherals.
use vstd::prelude::*;

pub mod ids;
pub mod json;
pub mod protocol;
pub mod error;
pub mod correlator;
pub mod computer;
pub mod peripheral;
pub mod server;
pub mod color;
pub mod results;
pub mod lua_compat;
pub mod rs_bridge;
pub mod monitor;
pub mod colony;

verus! {

} // verus!
