//! Values of `sampler.wrapS` and `sampler.wrapT`.

use vstd::prelude::*;

verus! {

pub const REPEAT: usize = 10497;
pub const CLAMP_TO_EDGE: usize = 33071;
pub const MIRRORED_REPEAT: usize = 33648;

} // verus!
