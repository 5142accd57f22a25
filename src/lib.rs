//! Floating-point values under a total order and a total equality that take in
//! every bit pattern, NaNs included.
use vstd::prelude::*;

pub mod float32;
pub mod float64;
pub mod order;

pub use float32::StupidFloat32;
pub use float64::StupidFloat64;

verus! {

} // verus!
