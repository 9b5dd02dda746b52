//! Values of `accessor.type`.

use vstd::prelude::*;

verus! {

pub const SCALAR: &'static str = "SCALAR";
pub const VEC2: &'static str = "VEC2";
pub const VEC3: &'static str = "VEC3";
pub const VEC4: &'static str = "VEC4";
pub const MAT2: &'static str = "MAT2";
pub const MAT3: &'static str = "MAT3";
pub const MAT4: &'static str = "MAT4";

} // verus!
