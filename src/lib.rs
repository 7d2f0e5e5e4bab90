//! Deterministic fixed-point arithmetic: a scalar stored as a scaled 64-bit
//! integer, and 2, 3 and 4 component vectors built on it.
use vstd::prelude::*;

pub mod laws;
pub mod num;
pub mod vec;

pub use num::{AsFx32, Fx32Var};
pub use vec::{FxVecVar2, FxVecVar3, FxVecVar4};

verus! {

/// The default resolution: 65536 raw units per whole unit.
pub const DEFAULT_RESOLUTION: u64 = 65536;

pub type Fx32 = Fx32Var<DEFAULT_RESOLUTION>;

pub type FxVec2 = FxVecVar2<DEFAULT_RESOLUTION>;

pub type FxVec3 = FxVecVar3<DEFAULT_RESOLUTION>;

pub type FxVec4 = FxVecVar4<DEFAULT_RESOLUTION>;

} // verus!
