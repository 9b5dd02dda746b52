//! Values of `material.alphaMode`.

use vstd::prelude::*;

verus! {

pub const OPAQUE: &'static str = "OPAQUE";
pub const MASK: &'static str = "MASK";
pub const BLEND: &'static str = "BLEND";

} // verus!
