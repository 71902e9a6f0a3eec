//! Verified core of the AuxScreen Linux host: command-line rules, the
//! signaling protocol and its session rules, and the media pipeline
//! descriptions.
use vstd::prelude::*;

pub mod text;
pub mod net;
pub mod cli;
pub mod protocol;
pub mod portal;
pub mod server;
pub mod media;
pub mod doctor;

verus! {
} // verus!
