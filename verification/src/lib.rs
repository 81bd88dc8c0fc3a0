//! A verified core for a `cat`-like line emitter: lines read from a list of
//! sources are echoed to output, optionally prefixed with a right-justified
//! line number, for every line or for non-blank lines only.

pub mod config;
pub mod emitter;
pub mod laws;
pub mod numbering;
