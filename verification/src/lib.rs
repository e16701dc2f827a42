//! Reproducible number streams: the rules by which a stream server turns a
//! configuration and a seed into the sequence of values one connection emits.
//!
//! - `config`: the configuration snapshot, its faults, and the store that
//!   publishes the latest valid one.
//! - `seed`: where a connection's seed comes from, and the line a client
//!   sends for it.
//! - `generator`, `picker`: the contracts of the outside generator and of the
//!   draws taken from it.
//! - `substream`: the substreams that connections split off one shared
//!   generator.
//! - `weights`, `profile`: the sampling model of a connection.
//! - `rate`, `emitter`: when a value may go out, and the session that a
//!   caller drives to send it.

pub mod config;
pub mod emitter;
pub mod generator;
pub mod picker;
pub mod profile;
pub mod rate;
pub mod seed;
pub mod substream;
pub mod weights;
