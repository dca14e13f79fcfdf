//! A relay for NMEA-0183 sentences: lines read from one GPS source are copied
//! to every connected client, over TCP and over a local socket.
//!
//! This crate holds the relay's decisions, each with a verified contract; the
//! program around it performs the I/O they call for.
//!
//! - [`clients`]: the client registry, the broadcast pass, and when the
//!   broadcast loop starts and stops.
//! - [`probe`]: the check that a candidate device emits NMEA sentences.
//! - [`source`]: the order in which line sources are tried at start-up.
//! - [`config`], [`args`]: the configuration, built from the command line.
//! - [`listen`]: the listeners to run and the service record to announce.
//! - [`camel`]: D-Bus member names.
use vstd::prelude::*;

pub mod args;
pub mod camel;
pub mod clients;
pub mod config;
pub mod listen;
pub mod probe;
pub mod source;

verus! {

} // verus!
