//! Values of `accessor.componentType`.

use vstd::prelude::*;

verus! {

pub const BYTE: usize = 5120;
pub const UNSIGNED_BYTE: usize = 5121;
pub const SHORT: usize = 5122;
pub const UNSIGNED_SHORT: usize = 5123;
pub const UNSIGNED_INT: usize = 5125;
pub const FLOAT: usize = 5126;

} // verus!
