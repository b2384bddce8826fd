//! Turns a magnet link into a minimal torrent-metadata file and models the
//! staged delivery of that file to a remote host.
//!
//! The library is split along the data flow: `magnet` validates a magnet URI
//! and extracts its info-hash, then builds the bencoded payload and its
//! destination filename; `session` is the ordered
//! connect -> handshake -> authenticate -> open -> write pipeline, expressed
//! as a state machine whose first failure short-circuits every later stage;
//! `config` assembles the run parameters; `errors` classifies every terminal
//! failure. The binary around the library performs the actual network and
//! file work and feeds each outcome back into the pipeline state machine.

pub mod errors;
pub mod magnet;
pub mod session;
pub mod config;
