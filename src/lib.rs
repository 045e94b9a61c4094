//! Bit-exact codec between 32-bit RISC-V instruction words and their fields.
use vstd::prelude::*;

pub mod instructions;
pub mod util;

verus! {

} // verus!
