//! Verified core of a machine-wide environment-variable editor.
//!
//! The registry itself, privilege tokens and window broadcasts are operating
//! system resources; the code that touches them lives outside this library and
//! hands plain values in. Everything that decides or computes is here, with a
//! contract: the UTF-16 wire codec, null-terminator truncation, value-kind
//! decoding and placeholder-expansion bookkeeping, the growable-buffer
//! enumeration protocol, the point-lookup and write protocols, and the
//! privilege-elevation gate.

pub mod env_reader;
pub mod env_writer;
pub mod errors;
pub mod win_elevation;
pub mod win_strings;
