//! Deterministic core of a button-box game controller: logical-button
//! mapping, simultaneous-opposing-direction resolution, stick-coordinate
//! derivation, profile selection, and the console bus protocol's command
//! decoding and byte-exact response framing.

pub mod config;
pub mod curves;
pub mod framing;
pub mod input;
pub mod profile;
pub mod protocol;
pub mod report;
pub mod socd;
