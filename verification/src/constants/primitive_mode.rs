//! Values of `primitive.mode`.

use vstd::prelude::*;

verus! {

pub const POINTS: usize = 0;
pub const LINES: usize = 1;
pub const LINE_LOOP: usize = 2;
pub const LINE_STRIP: usize = 3;
pub const TRIANGLES: usize = 4;
pub const TRIANGLE_STRIP: usize = 5;
pub const TRIANGLE_FAN: usize = 6;

} // verus!
