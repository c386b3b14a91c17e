//! Binary account model, instruction-data codec and error taxonomy for a
//! derivatives/spot trading venue.
//!
//! Every persisted account and every instruction payload is a fixed-width,
//! little-endian byte image.  This crate states those layouts as specs over
//! byte sequences, decodes and encodes them in verified code, and validates
//! every decoded field before anything else is allowed to trust it.

pub mod codec;
pub mod dispatch;
pub mod constants;
pub mod errors;
pub mod ids;
pub mod instr_data;
pub mod registry;
pub mod reports;
pub mod state;
pub mod text;
pub mod types;

use vstd::prelude::*;

verus! {

} // verus!
