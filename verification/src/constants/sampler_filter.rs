//! Values of `sampler.magFilter` and `sampler.minFilter`.

use vstd::prelude::*;

verus! {

pub const NEAREST: usize = 9728;
pub const LINEAR: usize = 9729;
pub const NEAREST_MIPMAP_NEAREST: usize = 9984;
pub const LINEAR_MIPMAP_NEAREST: usize = 9985;
pub const NEAREST_MIPMAP_LINEAR: usize = 9986;
pub const LINEAR_MIPMAP_LINEAR: usize = 9987;

} // verus!
