//! Values of `bufferView.target`.

use vstd::prelude::*;

verus! {

pub const ARRAY_BUFFER: usize = 34962;
pub const ELEMENT_ARRAY_BUFFER: usize = 34963;

} // verus!
