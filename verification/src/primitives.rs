//! Triangle indices of the primitive shapes (plane, sphere, cylinder, cone, torus,
//! icosahedron). Vertices are laid out row by row, `columns + 1` vertices per row; every grid
//! cell (row y, column x) is split into the triangles (a, b, d) and (b, c, d) where a is its
//! corner (y, x), b is (y, x + 1), c is (y + 1, x + 1) and d is (y + 1, x). Indices are 16-bit
//! and wrap around modulo 2^16.

use vstd::prelude::*;
use vstd::arithmetic::div_mod::{lemma_fundamental_div_mod_converse, lemma_add_mod_noop, lemma_small_mod};

verus! {

/// `v` modulo 2^16, as a 16-bit index.
pub open spec fn wrap16(v: int) -> u16 {
    (v % 65536) as u16
}

/// The triangles of the cell in row `y`, column `x` of a grid with `vpr` vertices per row:
/// (a, b, d) when `first`, then (b, c, d) when `second`.
pub open spec fn cell_indices(y: int, x: int, vpr: int, first: bool, second: bool) -> Seq<u16> {
    let a = y * vpr + x;
    let b = y * vpr + x + 1;
    let c = (y + 1) * vpr + x + 1;
    let d = (y + 1) * vpr + x;
    (if first {
        seq![wrap16(a), wrap16(b), wrap16(d)]
    } else {
        Seq::empty()
    }) + (if second {
        seq![wrap16(b), wrap16(c), wrap16(d)]
    } else {
        Seq::empty()
    })
}

/// The triangles of the first `cols` cells of row `y`, left to right.
pub open spec fn row_indices(y: int, cols: nat, vpr: int, first: bool, second: bool) -> Seq<u16>
    decreases cols,
{
    if cols == 0 {
        Seq::empty()
    } else {
        row_indices(y, (cols - 1) as nat, vpr, first, second) + cell_indices(
            y,
            cols - 1,
            vpr,
            first,
            second,
        )
    }
}

/// The triangles of the first `rows` rows of a grid of `total` rows and `cols` columns, row by
/// row. When `poles` is set, the first row has only its (b, c, d) triangles and the last row
/// only its (a, b, d) triangles (the rows meeting at the poles of a sphere).
pub open spec fn grid_rows(rows: nat, cols: nat, poles: bool, total: nat) -> Seq<u16>
    decreases rows,
{
    if rows == 0 {
        Seq::empty()
    } else {
        let y = rows - 1;
        grid_rows((rows - 1) as nat, cols, poles, total) + row_indices(
            y,
            cols,
            cols + 1int,
            !poles || y != 0,
            !poles || y != total - 1,
        )
    }
}

/// Appends the triangles of a `rows` x `cols` grid (see [`grid_rows`]).
fn push_grid(out: &mut Vec<u16>, rows: usize, cols: usize, poles: bool)
    requires
        (rows + 1) * (cols + 1) <= usize::MAX,
    ensures
        final(out)@ == old(out)@ + grid_rows(rows as nat, cols as nat, poles, rows as nat),
{
    let ghost start = out@;
    assert((rows + 1) * (cols + 1) >= cols + 1) by (nonlinear_arith);
    let vertices_per_row = cols + 1;
    let mut y: usize = 0;
    while y < rows
        invariant
            y <= rows,
            vertices_per_row == cols + 1,
            (rows + 1) * (cols + 1) <= usize::MAX,
            out@ == start + grid_rows(y as nat, cols as nat, poles, rows as nat),
        decreases rows - y,
    {
        let first = !poles || y != 0;
        let second = !poles || y != rows - 1;
        let ghost before_row = out@;
        let mut x: usize = 0;
        while x < cols
            invariant
                y < rows,
                x <= cols,
                vertices_per_row == cols + 1,
                (rows + 1) * (cols + 1) <= usize::MAX,
                out@ == before_row + row_indices(y as int, x as nat, vertices_per_row as int, first, second),
            decreases cols - x,
        {
            proof {
                assert((y + 1) * vertices_per_row + x + 1 <= (rows + 1) * (cols + 1)) by (nonlinear_arith)
                    requires
                        y < rows,
                        x < cols,
                        vertices_per_row == cols + 1,
                ;
                assert(y * vertices_per_row <= (y + 1) * vertices_per_row) by (nonlinear_arith);
            }
            let a = y * vertices_per_row + x;
            let b = y * vertices_per_row + x + 1;
            let c = (y + 1) * vertices_per_row + x + 1;
            let d = (y + 1) * vertices_per_row + x;
            let ghost before_cell = out@;
            if first {
                out.push((a % 65536) as u16);
                out.push((b % 65536) as u16);
                out.push((d % 65536) as u16);
            }
            if second {
                out.push((b % 65536) as u16);
                out.push((c % 65536) as u16);
                out.push((d % 65536) as u16);
            }
            assert(out@ =~= before_cell + cell_indices(y as int, x as int, vertices_per_row as int, first, second));
            x = x + 1;
        }
        y = y + 1;
    }
}

/// The triangles of a plane of `width_segments` x `depth_segments` cells (rows run along the
/// depth).
pub open spec fn plane_indices_spec(width_segments: nat, depth_segments: nat) -> Seq<u16> {
    grid_rows(depth_segments, width_segments, false, depth_segments)
}

/// The triangle indices of [`plane_indices_spec`]; the grid's vertex count must fit in `usize`.
pub fn plane_indices(width_segments: usize, depth_segments: usize) -> (indices: Vec<u16>)
    requires
        (depth_segments + 1) * (width_segments + 1) <= usize::MAX,
    ensures
        indices@ == plane_indices_spec(width_segments as nat, depth_segments as nat),
{
    let mut indices: Vec<u16> = Vec::new();
    push_grid(&mut indices, depth_segments, width_segments, false);
    assert(indices@ =~= plane_indices_spec(width_segments as nat, depth_segments as nat));
    indices
}

/// `n`, but at least `lo`.
pub open spec fn at_least(n: nat, lo: nat) -> nat {
    if n < lo {
        lo
    } else {
        n
    }
}

/// The triangles of a sphere of at least 3 segments around and 2 segments from pole to pole:
/// a grid whose rows at the poles have one triangle per cell.
pub open spec fn sphere_indices_spec(width_segments: nat, height_segments: nat) -> Seq<u16> {
    let w = at_least(width_segments, 3);
    let h = at_least(height_segments, 2);
    grid_rows(h, w, true, h)
}

/// The triangle indices of [`sphere_indices_spec`]; the grid's vertex count must fit in
/// `usize`.
pub fn sphere_indices(width_segments: usize, height_segments: usize) -> (indices: Vec<u16>)
    requires
        (at_least(height_segments as nat, 2) + 1) * (at_least(width_segments as nat, 3) + 1)
            <= usize::MAX,
    ensures
        indices@ == sphere_indices_spec(width_segments as nat, height_segments as nat),
{
    let w = if width_segments < 3 { 3 } else { width_segments };
    let h = if height_segments < 2 { 2 } else { height_segments };
    let mut indices: Vec<u16> = Vec::new();
    push_grid(&mut indices, h, w, true);
    assert(indices@ =~= sphere_indices_spec(width_segments as nat, height_segments as nat));
    indices
}

/// The fan of a cap around the center vertex `center`: the triangles (center, center + x + 1,
/// center + x + 2) for the first `n` x (top cap, `reversed` false) or (center, center + x + 2,
/// center + x + 1) (bottom cap, `reversed` true); the offsets are taken modulo 2^16.
pub open spec fn cap_indices(center: u16, n: nat, reversed: bool) -> Seq<u16>
    decreases n,
{
    if n == 0 {
        Seq::empty()
    } else {
        let x = n - 1;
        let p = (center + wrap16(x + 1)) as u16;
        let q = (center + wrap16(x + 2)) as u16;
        cap_indices(center, (n - 1) as nat, reversed) + if reversed {
            seq![center, q, p]
        } else {
            seq![center, p, q]
        }
    }
}

/// Triangle `x` of a cap can be written with 16-bit additions that do not overflow.
pub open spec fn cap_step_fits(center: u16, x: int) -> bool {
    center + wrap16(x + 1) < 65536 && center + wrap16(x + 2) < 65536
}

/// A cap can be written with 16-bit additions that do not overflow.
pub open spec fn cap_fits(center: u16, n: nat) -> bool {
    forall|x: int| 0 <= x < n ==> #[trigger] cap_step_fits(center, x)
}

/// The index of the center vertex of the top cap of a cylinder: the first vertex after the
/// side grid.
pub open spec fn top_center(radial: nat, height: nat) -> int {
    ((height + 1) * (radial + 1)) as int
}

/// The index of the center vertex of the bottom cap: the first vertex after the top cap's
/// center and rim.
pub open spec fn bottom_center(radial: nat, height: nat) -> int {
    top_center(radial, height) + radial + 2
}

/// The triangles of a cylinder of at least 3 radial and 1 height segments: the side grid and,
/// unless open ended, the top and the bottom cap fans.
pub open spec fn cylinder_indices_spec(radial_segments: nat, height_segments: nat, open_ended: bool) -> Seq<u16> {
    let r = at_least(radial_segments, 3);
    let h = at_least(height_segments, 1);
    grid_rows(h, r, false, h) + if open_ended {
        Seq::empty()
    } else {
        cap_indices(wrap16(top_center(r, h)), r, false) + cap_indices(
            wrap16(bottom_center(r, h)),
            r,
            true,
        )
    }
}

/// Appends a cap fan (see [`cap_indices`]).
fn push_cap(out: &mut Vec<u16>, center: u16, n: usize, reversed: bool)
    requires
        cap_fits(center, n as nat),
        n + 2 <= usize::MAX,
    ensures
        final(out)@ == old(out)@ + cap_indices(center, n as nat, reversed),
{
    let ghost start = out@;
    let mut x: usize = 0;
    while x < n
        invariant
            x <= n,
            n + 2 <= usize::MAX,
            cap_fits(center, n as nat),
            out@ == start + cap_indices(center, x as nat, reversed),
        decreases n - x,
    {
        assert(cap_step_fits(center, x as int));
        let p = center + ((x + 1) % 65536) as u16;
        let q = center + ((x + 2) % 65536) as u16;
        out.push(center);
        if reversed {
            out.push(q);
            out.push(p);
        } else {
            out.push(p);
            out.push(q);
        }
        x = x + 1;
        assert(out@ =~= start + cap_indices(center, x as nat, reversed));
    }
}

/// `n`, raised to `lo` when it is smaller.
fn clamp_up(n: usize, lo: usize) -> (m: usize)
    ensures
        m == at_least(n as nat, lo as nat),
{
    if n < lo {
        lo
    } else {
        n
    }
}

/// The 16-bit indices of the two cap centers of a cylinder.
fn cap_center_indices(r: usize, h: usize) -> (c: (u16, u16))
    requires
        bottom_center(r as nat, h as nat) + r + 2 <= usize::MAX,
    ensures
        c.0 == wrap16(top_center(r as nat, h as nat)),
        c.1 == wrap16(bottom_center(r as nat, h as nat)),
{
    assert(top_center(r as nat, h as nat) == (h + 1) * (r + 1));
    assert((h + 1) * (r + 1) <= usize::MAX);
    assert(h + 1 <= (h + 1) * (r + 1) && r + 1 <= (h + 1) * (r + 1)) by (nonlinear_arith);
    let top = (h + 1) * (r + 1);
    let bottom = top + r + 2;
    ((top % 65536) as u16, (bottom % 65536) as u16)
}

/// The triangle indices of [`cylinder_indices_spec`]. The vertex count must fit in `usize`
/// and, with caps, the cap indices must be writable without 16-bit overflow.
pub fn cylinder_indices(radial_segments: usize, height_segments: usize, open_ended: bool) -> (indices: Vec<u16>)
    requires
        ({
            let r = at_least(radial_segments as nat, 3);
            let h = at_least(height_segments as nat, 1);
            &&& bottom_center(r, h) + r + 2 <= usize::MAX
            &&& !open_ended ==> cap_fits(wrap16(top_center(r, h)), r) && cap_fits(
                wrap16(bottom_center(r, h)),
                r,
            )
        }),
    ensures
        indices@ == cylinder_indices_spec(radial_segments as nat, height_segments as nat, open_ended),
{
    let r = clamp_up(radial_segments, 3);
    let h = clamp_up(height_segments, 1);
    assert((h + 1) * (r + 1) <= top_center(r as nat, h as nat));
    let mut indices: Vec<u16> = Vec::new();
    push_grid(&mut indices, h, r, false);
    let ghost side = indices@;
    if !open_ended {
        let (top, bottom) = cap_center_indices(r, h);
        push_cap(&mut indices, top, r, false);
        push_cap(&mut indices, bottom, r, true);
        assert(indices@ =~= side + (cap_indices(top, r as nat, false) + cap_indices(bottom, r as nat, true)));
    } else {
        assert(indices@ =~= side + Seq::<u16>::empty());
    }
    indices
}

/// The triangle indices of a cone: those of a cylinder (whose top radius is zero).
pub fn cone_indices(radial_segments: usize, height_segments: usize, open_ended: bool) -> (indices: Vec<u16>)
    requires
        ({
            let r = at_least(radial_segments as nat, 3);
            let h = at_least(height_segments as nat, 1);
            &&& bottom_center(r, h) + r + 2 <= usize::MAX
            &&& !open_ended ==> cap_fits(wrap16(top_center(r, h)), r) && cap_fits(
                wrap16(bottom_center(r, h)),
                r,
            )
        }),
    ensures
        indices@ == cylinder_indices_spec(radial_segments as nat, height_segments as nat, open_ended),
{
    cylinder_indices(radial_segments, height_segments, open_ended)
}

/// The triangles of a torus of at least 2 radial and 3 tubular segments: a grid with one row
/// per radial segment and one column per tubular segment.
pub open spec fn torus_indices_spec(radial_segments: nat, tubular_segments: nat) -> Seq<u16> {
    let r = at_least(radial_segments, 2);
    let t = at_least(tubular_segments, 3);
    grid_rows(r, t, false, r)
}

/// The triangle indices of [`torus_indices_spec`]; the vertex count must fit in `usize`.
pub fn torus_indices(radial_segments: usize, tubular_segments: usize) -> (indices: Vec<u16>)
    requires
        (at_least(radial_segments as nat, 2) + 1) * (at_least(tubular_segments as nat, 3) + 1)
            <= usize::MAX,
    ensures
        indices@ == torus_indices_spec(radial_segments as nat, tubular_segments as nat),
{
    let r = if radial_segments < 2 { 2 } else { radial_segments };
    let t = if tubular_segments < 3 { 3 } else { tubular_segments };
    let mut indices: Vec<u16> = Vec::new();
    push_grid(&mut indices, r, t, false);
    assert(indices@ =~= torus_indices_spec(radial_segments as nat, tubular_segments as nat));
    indices
}

/// The twenty faces of the icosahedron over its twelve vertices.
pub open spec fn icosahedron_faces() -> Seq<u16> {
    seq![
        0u16, 11, 5, 0, 5, 1, 0, 1, 7, 0, 7, 10, 0, 10, 11,
        1, 5, 9, 5, 11, 4, 11, 10, 2, 10, 7, 6, 7, 1, 8,
        3, 9, 4, 3, 4, 2, 3, 2, 6, 3, 6, 8, 3, 8, 9,
        4, 9, 5, 2, 4, 11, 6, 2, 10, 8, 6, 7, 9, 8, 1,
    ]
}

/// The triangle indices of the icosahedron (see [`icosahedron_faces`]).
pub fn icosahedron_indices() -> (indices: Vec<u16>)
    ensures
        indices@ == icosahedron_faces(),
{
    let faces: [[u16; 3]; 20] = [
        [0, 11, 5],
        [0, 5, 1],
        [0, 1, 7],
        [0, 7, 10],
        [0, 10, 11],
        [1, 5, 9],
        [5, 11, 4],
        [11, 10, 2],
        [10, 7, 6],
        [7, 1, 8],
        [3, 9, 4],
        [3, 4, 2],
        [3, 2, 6],
        [3, 6, 8],
        [3, 8, 9],
        [4, 9, 5],
        [2, 4, 11],
        [6, 2, 10],
        [8, 6, 7],
        [9, 8, 1],
    ];
    let mut indices: Vec<u16> = Vec::new();
    let mut i: usize = 0;
    while i < 20
        invariant
            i <= 20,
            faces@ == seq![
                [0u16, 11, 5], [0u16, 5, 1], [0u16, 1, 7], [0u16, 7, 10], [0u16, 10, 11],
                [1u16, 5, 9], [5u16, 11, 4], [11u16, 10, 2], [10u16, 7, 6], [7u16, 1, 8],
                [3u16, 9, 4], [3u16, 4, 2], [3u16, 2, 6], [3u16, 6, 8], [3u16, 8, 9],
                [4u16, 9, 5], [2u16, 4, 11], [6u16, 2, 10], [8u16, 6, 7], [9u16, 8, 1],
            ],
            indices@.len() == 3 * i,
            forall|k: int| 0 <= k < 3 * i ==> indices@[k] == #[trigger] icosahedron_faces()[k],
        decreases 20 - i,
    {
        let tri = faces[i];
        indices.push(tri[0]);
        indices.push(tri[1]);
        indices.push(tri[2]);
        i = i + 1;
    }
    assert(indices@ =~= icosahedron_faces());
    indices
}


/// The triangles of one cell of a grid with `rows` x `cols` cells refer to its
/// `(rows + 1) * (cols + 1)` vertices, when they all have 16-bit indices.
proof fn lemma_cell_in_range(y: int, x: int, rows: int, cols: int, first: bool, second: bool)
    requires
        0 <= y < rows,
        0 <= x < cols,
        (rows + 1) * (cols + 1) <= 65536,
    ensures
        forall|k: int|
            0 <= k < cell_indices(y, x, cols + 1, first, second).len() ==> (#[trigger] cell_indices(
                y,
                x,
                cols + 1,
                first,
                second,
            )[k]) < (rows + 1) * (cols + 1),
{
    let vpr = cols + 1;
    let c = (y + 1) * vpr + x + 1;
    assert(c < (rows + 1) * vpr && 0 <= y * vpr + x) by (nonlinear_arith)
        requires
            0 <= y < rows,
            0 <= x < cols,
            vpr == cols + 1,
            c == (y + 1) * vpr + x + 1,
    ;
    assert((y + 1) * vpr + x < c && y * vpr + x + 1 < c && y * vpr + x < c) by (nonlinear_arith)
        requires
            0 <= y,
            0 <= x < cols,
            vpr == cols + 1,
            c == (y + 1) * vpr + x + 1,
    ;
}

proof fn lemma_row_in_range(y: int, n: nat, rows: int, cols: int, first: bool, second: bool)
    requires
        0 <= y < rows,
        n <= cols,
        (rows + 1) * (cols + 1) <= 65536,
    ensures
        forall|k: int|
            0 <= k < row_indices(y, n, cols + 1, first, second).len() ==> (#[trigger] row_indices(
                y,
                n,
                cols + 1,
                first,
                second,
            )[k]) < (rows + 1) * (cols + 1),
    decreases n,
{
    if n > 0 {
        lemma_row_in_range(y, (n - 1) as nat, rows, cols, first, second);
        lemma_cell_in_range(y, n - 1, rows, cols, first, second);
        let a = row_indices(y, (n - 1) as nat, cols + 1, first, second);
        let b = cell_indices(y, n - 1, cols + 1, first, second);
        assert forall|k: int| 0 <= k < (a + b).len() implies (#[trigger] (a + b)[k]) < (rows + 1) * (cols + 1) by {
            if k < a.len() {
                assert((a + b)[k] == a[k]);
            } else {
                assert((a + b)[k] == b[k - a.len()]);
            }
        }
    }
}

proof fn lemma_grid_rows_in_range(n: nat, rows: nat, cols: nat, poles: bool)
    requires
        n <= rows,
        (rows + 1) * (cols + 1) <= 65536,
    ensures
        forall|k: int|
            0 <= k < grid_rows(n, cols, poles, rows).len() ==> (#[trigger] grid_rows(n, cols, poles, rows)[k])
                < (rows + 1) * (cols + 1),
    decreases n,
{
    if n > 0 {
        let y = n - 1;
        lemma_grid_rows_in_range((n - 1) as nat, rows, cols, poles);
        lemma_row_in_range(y, cols, rows as int, cols as int, !poles || y != 0, !poles || y != rows - 1);
        let a = grid_rows((n - 1) as nat, cols, poles, rows);
        let b = row_indices(y, cols, cols + 1int, !poles || y != 0, !poles || y != rows - 1);
        assert forall|k: int| 0 <= k < (a + b).len() implies (#[trigger] (a + b)[k]) < (rows + 1) * (cols + 1) by {
            if k < a.len() {
                assert((a + b)[k] == a[k]);
            } else {
                assert((a + b)[k] == b[k - a.len()]);
            }
        }
    }
}

/// Every index of a plane, sphere or torus grid of `rows` x `cols` cells names one of its
/// `(rows + 1) * (cols + 1)` vertices, as long as these have 16-bit indices.
pub proof fn lemma_grid_indices_in_range(rows: nat, cols: nat, poles: bool)
    requires
        (rows + 1) * (cols + 1) <= 65536,
    ensures
        forall|k: int|
            0 <= k < grid_rows(rows, cols, poles, rows).len() ==> (#[trigger] grid_rows(rows, cols, poles, rows)[k])
                < (rows + 1) * (cols + 1),
{
    lemma_grid_rows_in_range(rows, rows, cols, poles);
}


/// The values `g(base)`, `g(base + 1)`, ... `g(base + len - 1)`.
pub open spec fn values_from(g: spec_fn(int) -> u16, base: int, len: nat) -> Seq<u16> {
    Seq::new(len, |i: int| g(base + i))
}

proof fn lemma_values_concat(g: spec_fn(int) -> u16, base: int, l1: nat, l2: nat)
    ensures
        values_from(g, base, l1) + values_from(g, base + l1, l2) == values_from(g, base, l1 + l2),
{
    assert(values_from(g, base, l1) + values_from(g, base + l1, l2) =~= values_from(g, base, l1 + l2));
}

/// A row whose cells each give the next `per` values of `g` is the run of `g` from `base`.
proof fn lemma_row_values(
    y: int,
    n: nat,
    vpr: int,
    first: bool,
    second: bool,
    g: spec_fn(int) -> u16,
    base: int,
    per: int,
)
    requires
        per == (if first { 3int } else { 0int }) + (if second { 3int } else { 0int }),
        forall|x: int, k: int|
            0 <= x < n && 0 <= k < per ==> #[trigger] cell_indices(y, x, vpr, first, second)[k] == g(
                base + per * x + k,
            ),
    ensures
        row_indices(y, n, vpr, first, second) == values_from(g, base, (per * n) as nat),
    decreases n,
{
    if n > 0 {
        let m = (n - 1) as nat;
        lemma_row_values(y, m, vpr, first, second, g, base, per);
        let cell = cell_indices(y, m as int, vpr, first, second);
        assert(cell.len() == per);
        assert(cell =~= values_from(g, base + per * m, per as nat)) by {
            assert forall|k: int| 0 <= k < per implies cell[k] == g(base + per * m + k) by {
                assert(cell_indices(y, m as int, vpr, first, second)[k] == g(base + per * m + k));
            }
        }
        assert(per * m >= 0 && per * m + per == per * n) by (nonlinear_arith)
            requires
                0 <= per,
                m + 1 == n,
        ;
        lemma_values_concat(g, base, (per * m) as nat, per as nat);
        assert(row_indices(y, n, vpr, first, second) == row_indices(y, m, vpr, first, second) + cell);
    } else {
        assert(per * n == 0) by (nonlinear_arith)
            requires
                n == 0,
        ;
        assert(row_indices(y, n, vpr, first, second) =~= values_from(g, base, (per * n) as nat));
    }
}

/// Row `y` of a grid of `total` rows and `cols` columns (see [`grid_rows`]).
pub open spec fn grid_row(y: int, cols: nat, poles: bool, total: nat) -> Seq<u16> {
    row_indices(y, cols, cols + 1int, !poles || y != 0, !poles || y != total - 1)
}

/// A grid whose row `y` is the run of `g` from `start(y)` to `start(y + 1)` is the run of `g`
/// from 0 to `start(n)`.
proof fn lemma_grid_values(n: nat, cols: nat, poles: bool, total: nat, g: spec_fn(int) -> u16, start: spec_fn(int) -> int)
    requires
        start(0) == 0,
        forall|y: int| 0 <= y < n ==> start(y) <= #[trigger] start(y + 1),
        forall|y: int|
            0 <= y < n ==> #[trigger] grid_row(y, cols, poles, total) == values_from(
                g,
                start(y),
                (start(y + 1) - start(y)) as nat,
            ),
    ensures
        start(n as int) >= 0,
        grid_rows(n, cols, poles, total) == values_from(g, 0, start(n as int) as nat),
    decreases n,
{
    if n > 0 {
        let y = n - 1;
        lemma_grid_values((n - 1) as nat, cols, poles, total, g, start);
        assert(start(y) <= start(y + 1));
        let r = grid_row(y, cols, poles, total);
        assert(r == values_from(g, start(y), (start(y + 1) - start(y)) as nat));
        lemma_values_concat(g, 0, start(y) as nat, (start(y + 1) - start(y)) as nat);
    } else {
        assert(grid_rows(0, cols, poles, total) =~= values_from(g, 0, 0));
    }
}

/// Corner `j` of triangle `t` of a grid with `cols` columns (vertices numbered row by row,
/// `cols + 1` per row): cell `t / 2`, counted row by row, whose corner (row `y`, column `x`) is
/// vertex `a`; its even triangle is (a, a + 1, a + cols + 1) and its odd one
/// (a + 1, a + cols + 2, a + cols + 1).
pub open spec fn grid_corner(cols: int, t: int, j: int) -> int {
    let c = t / 2;
    let y = c / cols;
    let x = c % cols;
    let a = y * (cols + 1) + x;
    if t % 2 == 0 {
        if j == 0 { a } else if j == 1 { a + 1 } else { a + cols + 1 }
    } else {
        if j == 0 { a + 1 } else if j == 1 { a + cols + 2 } else { a + cols + 1 }
    }
}

/// Splits index `i = 6 c + k` of a run of cells into triangle `2 c + k / 3` and corner `k % 3`,
/// and cell `c = cols * y + x` into row `y` and column `x`.
proof fn lemma_cell_position(i: int, cols: int, y: int, x: int, k: int)
    requires
        0 < cols,
        0 <= y,
        0 <= x < cols,
        0 <= k < 6,
        i == 6 * (cols * y + x) + k,
    ensures
        i / 3 == 2 * (cols * y + x) + k / 3,
        i % 3 == k % 3,
        (i / 3) / 2 == cols * y + x,
        (i / 3) % 2 == k / 3,
        (cols * y + x) / cols == y,
        (cols * y + x) % cols == x,
{
    let c = cols * y + x;
    lemma_fundamental_div_mod_converse(i, 3, 2 * c + k / 3, k % 3);
    lemma_fundamental_div_mod_converse(2 * c + k / 3, 2, c, k / 3);
    assert(c == y * cols + x) by (nonlinear_arith)
        requires
            c == cols * y + x,
    ;
    lemma_fundamental_div_mod_converse(c, cols, y, x);
}

/// The cells of a grid without poles give the closed form [`grid_corner`].
proof fn lemma_plain_grid(rows: nat, cols: nat)
    requires
        cols > 0,
    ensures
        grid_rows(rows, cols, false, rows) == values_from(
            |i: int| wrap16(grid_corner(cols as int, i / 3, i % 3)),
            0,
            (6 * (cols * rows)) as nat,
        ),
{
    let g = |i: int| wrap16(grid_corner(cols as int, i / 3, i % 3));
    let start = |y: int| 6 * (cols * y);
    assert forall|y: int| 0 <= y < rows implies start(y) <= #[trigger] start(y + 1) by {
        assert(cols * y <= cols * (y + 1)) by (nonlinear_arith)
            requires
                0 <= y,
                0 < cols,
        ;
    }
    assert forall|y: int| 0 <= y < rows implies #[trigger] grid_row(y, cols, false, rows) == values_from(
        g,
        start(y),
        (start(y + 1) - start(y)) as nat,
    ) by {
        assert forall|x: int, k: int| 0 <= x < cols && 0 <= k < 6 implies #[trigger] cell_indices(
            y,
            x,
            cols + 1int,
            true,
            true,
        )[k] == g(start(y) + 6 * x + k) by {
            let i = start(y) + 6 * x + k;
            assert(i == 6 * (cols * y + x) + k);
            lemma_cell_position(i, cols as int, y, x, k);
            assert(y * (cols + 1) == cols * y + y) by (nonlinear_arith);
            assert((y + 1) * (cols + 1) == cols * y + y + cols + 1) by (nonlinear_arith);
        }
        lemma_row_values(y, cols, cols + 1int, true, true, g, start(y), 6);
        assert(6 * (cols * (y + 1)) == 6 * (cols * y) + 6 * cols) by (nonlinear_arith);
    }
    lemma_grid_values(rows, cols, false, rows, g, start);
}

/// The triangles of a plane of `w` x `d` cells are the two triangles of every cell, row by
/// row (rows run along the depth, `w + 1` vertices per row): index `i` is corner `i % 3` of
/// triangle `i / 3` as [`grid_corner`] gives it, modulo 2^16.
pub proof fn lemma_plane_triangles(w: nat, d: nat)
    requires
        w > 0,
    ensures
        plane_indices_spec(w, d).len() == 6 * (w * d),
        forall|i: int|
            0 <= i < plane_indices_spec(w, d).len() ==> #[trigger] plane_indices_spec(w, d)[i] == wrap16(
                grid_corner(w as int, i / 3, i % 3),
            ),
{
    lemma_plain_grid(d, w);
}

/// The triangles of a torus: one grid row per radial segment (at least 2), one column per
/// tubular segment (at least 3), `t + 1` vertices per ring; index `i` is corner `i % 3` of
/// triangle `i / 3` as [`grid_corner`] gives it with `t` columns, modulo 2^16.
pub proof fn lemma_torus_triangles(radial_segments: nat, tubular_segments: nat)
    ensures
        ({
            let r = at_least(radial_segments, 2);
            let t = at_least(tubular_segments, 3);
            let s = torus_indices_spec(radial_segments, tubular_segments);
            &&& s.len() == 6 * (t * r)
            &&& forall|i: int| 0 <= i < s.len() ==> #[trigger] s[i] == wrap16(grid_corner(t as int, i / 3, i % 3))
        }),
{
    let r = at_least(radial_segments, 2);
    let t = at_least(tubular_segments, 3);
    lemma_plain_grid(r, t);
}

/// Corner `j` of triangle `t` of a UV sphere of `w` segments around and `h` from pole to
/// pole (vertices row by row from the top pole, `w + 1` per row): the first `w` triangles join
/// each cell of the top row to the ring below, (x + 1, w + 1 + x + 1, w + 1 + x); then the two
/// triangles of every cell of the inner rows as in [`grid_corner`]; then the last `w`
/// triangles join each cell of the bottom row's upper ring to the pole, (a, a + 1, a + w + 1)
/// with a = (h - 1)(w + 1) + x. No triangle uses two vertices of a pole row.
pub open spec fn sphere_corner(w: int, h: int, t: int, j: int) -> int {
    let v = w + 1;
    let inner = 2 * (w * (h - 2));
    if t < w {
        let x = t;
        if j == 0 { x + 1 } else if j == 1 { v + x + 1 } else { v + x }
    } else if t < w + inner {
        let u = t - w;
        let c = u / 2;
        let y = 1 + c / w;
        let x = c % w;
        let a = y * v + x;
        if u % 2 == 0 {
            if j == 0 { a } else if j == 1 { a + 1 } else { a + v }
        } else {
            if j == 0 { a + 1 } else if j == 1 { a + v + 1 } else { a + v }
        }
    } else {
        let x = t - w - inner;
        let a = (h - 1) * v + x;
        if j == 0 { a } else if j == 1 { a + 1 } else { a + v }
    }
}

/// Splits index `i = 3 t + k` into triangle `t` and corner `k`.
proof fn lemma_triangle_position(i: int, t: int, k: int)
    requires
        0 <= k < 3,
        i == 3 * t + k,
    ensures
        i / 3 == t,
        i % 3 == k,
{
    lemma_fundamental_div_mod_converse(i, 3, t, k);
}

/// The triangles of a UV sphere of at least 3 segments around and 2 from pole to pole are
/// those of [`sphere_corner`]: index `i` is corner `i % 3` of triangle `i / 3`, modulo 2^16.
/// In particular the top and bottom rows have one triangle per cell, none of which joins two
/// copies of a pole vertex.
pub proof fn lemma_sphere_triangles(width_segments: nat, height_segments: nat)
    ensures
        ({
            let w = at_least(width_segments, 3);
            let h = at_least(height_segments, 2);
            let s = sphere_indices_spec(width_segments, height_segments);
            &&& s.len() == 6 * (w * (h - 1))
            &&& forall|i: int| 0 <= i < s.len() ==> #[trigger] s[i] == wrap16(sphere_corner(w as int, h as int, i / 3, i % 3))
        }),
{
    let w = at_least(width_segments, 3);
    let h = at_least(height_segments, 2);
    let wi = w as int;
    let hi = h as int;
    let v = wi + 1;
    let g = |i: int| wrap16(sphere_corner(wi, hi, i / 3, i % 3));
    let start = |y: int| if y <= 0 { 0 } else if y < hi { 3 * wi + 6 * (wi * (y - 1)) } else { 6 * (wi * (hi - 1)) };
    assert forall|y: int| 0 <= y < h implies start(y) <= #[trigger] start(y + 1) && start(y + 1) - start(y) == if y == 0
        || y == h - 1 { 3 * wi } else { 6 * wi } by {
        assert(wi * y == wi * (y - 1) + wi) by (nonlinear_arith);
        assert(wi * (hi - 1) == wi * (hi - 2) + wi) by (nonlinear_arith);
        if y >= 1 {
            assert(0 <= wi * (y - 1)) by (nonlinear_arith)
                requires
                    0 < wi,
                    y >= 1,
            ;
        }
    }
    assert forall|y: int| 0 <= y < h implies #[trigger] grid_row(y, w, true, h) == values_from(
        g,
        start(y),
        (start(y + 1) - start(y)) as nat,
    ) by {
        if y == 0 {
            assert forall|x: int, k: int| 0 <= x < w && 0 <= k < 3 implies #[trigger] cell_indices(
                y,
                x,
                v,
                false,
                true,
            )[k] == g(start(y) + 3 * x + k) by {
                lemma_triangle_position(3 * x + k, x, k);
                assert(y * v == 0 && (y + 1) * v == v) by (nonlinear_arith)
                    requires
                        y == 0,
                ;
            }
            lemma_row_values(y, w, v, false, true, g, start(y), 3);
        } else if y < h - 1 {
            assert forall|x: int, k: int| 0 <= x < w && 0 <= k < 6 implies #[trigger] cell_indices(
                y,
                x,
                v,
                true,
                true,
            )[k] == g(start(y) + 6 * x + k) by {
                let i = start(y) + 6 * x + k;
                let c = wi * (y - 1) + x;
                let t = wi + 2 * c + k / 3;
                lemma_triangle_position(i, t, k % 3);
                lemma_cell_position(6 * c + k, wi, y - 1, x, k);
                assert(c < wi * (hi - 2)) by (nonlinear_arith)
                    requires
                        c == wi * (y - 1) + x,
                        x < wi,
                        y < hi - 1,
                        0 < wi,
                ;
                assert((y - 1 + 1) * v == y * v);
                assert(y * v == wi * (y - 1) + wi + y) by (nonlinear_arith)
                    requires
                        v == wi + 1,
                ;
                assert((y + 1) * v == y * v + v) by (nonlinear_arith);
            }
            lemma_row_values(y, w, v, true, true, g, start(y), 6);
        } else {
            assert forall|x: int, k: int| 0 <= x < w && 0 <= k < 3 implies #[trigger] cell_indices(
                y,
                x,
                v,
                true,
                false,
            )[k] == g(start(y) + 3 * x + k) by {
                let i = start(y) + 3 * x + k;
                let t = wi + 2 * (wi * (hi - 2)) + x;
                lemma_triangle_position(i, t, k);
                assert((y + 1) * v == y * v + v) by (nonlinear_arith);
            }
            lemma_row_values(y, w, v, true, false, g, start(y), 3);
        }
    }
    lemma_grid_values(h, w, true, h, g, start);
    assert(start(hi) == 6 * (wi * (hi - 1)));
}

/// Corner `j` of triangle `t` of a cylinder of `r` radial and `h` height segments: first the
/// two triangles of every side cell as in [`grid_corner`] (`h` rows of `r` cells); then the
/// top cap fan around its center `T = (h + 1)(r + 1)`, triangle x being (T, T + x + 1,
/// T + x + 2), counter-clockwise seen from above; then the bottom cap fan around
/// `B = T + r + 2`, triangle x being (B, B + x + 2, B + x + 1), counter-clockwise seen from
/// below.
pub open spec fn cylinder_corner(r: int, h: int, t: int, j: int) -> int {
    let side = 2 * (r * h);
    let top = (h + 1) * (r + 1);
    let bottom = top + r + 2;
    if t < side {
        grid_corner(r, t, j)
    } else if t < side + r {
        let x = t - side;
        if j == 0 { top } else if j == 1 { top + x + 1 } else { top + x + 2 }
    } else {
        let x = t - side - r;
        if j == 0 { bottom } else if j == 1 { bottom + x + 2 } else { bottom + x + 1 }
    }
}

/// Offset `d` from center `wrap16(c)`, added in 16 bits without overflow, is `wrap16(c + d)`.
proof fn lemma_cap_offset(c: int, d: int)
    requires
        c >= 0,
        d >= 0,
        wrap16(c) + wrap16(d) < 65536,
    ensures
        (wrap16(c) + wrap16(d)) as u16 == wrap16(c + d),
{
    lemma_add_mod_noop(c, d, 65536);
    let sum = (c % 65536) + (d % 65536);
    assert(wrap16(c) == c % 65536 && wrap16(d) == d % 65536);
    lemma_small_mod(sum as nat, 65536);
}

/// A cap fan around `wrap16(c)` is the run of `g` from `base` when `g` gives its corners.
proof fn lemma_cap_values(center: u16, c: int, n: nat, reversed: bool, g: spec_fn(int) -> u16, base: int)
    requires
        c >= 0,
        center == wrap16(c),
        cap_fits(center, n),
        forall|x: int|
            0 <= x < n ==> {
                &&& #[trigger] g(base + 3 * x) == center
                &&& g(base + 3 * x + 1) == wrap16(c + if reversed { x + 2 } else { x + 1 })
                &&& g(base + 3 * x + 2) == wrap16(c + if reversed { x + 1 } else { x + 2 })
            },
    ensures
        cap_indices(center, n, reversed) == values_from(g, base, 3 * n),
    decreases n,
{
    if n > 0 {
        let x = n - 1;
        lemma_cap_values(center, c, (n - 1) as nat, reversed, g, base);
        assert(cap_step_fits(center, x));
        lemma_cap_offset(c, x + 1);
        lemma_cap_offset(c, x + 2);
        assert(g(base + 3 * x) == center);
        lemma_values_concat(g, base, (3 * x) as nat, 3);
        let tail = if reversed {
            seq![center, (center + wrap16(x + 2)) as u16, (center + wrap16(x + 1)) as u16]
        } else {
            seq![center, (center + wrap16(x + 1)) as u16, (center + wrap16(x + 2)) as u16]
        };
        assert(tail =~= values_from(g, base + 3 * x, 3));
    } else {
        assert(cap_indices(center, n, reversed) =~= values_from(g, base, 3 * n));
    }
}

/// The triangles of a cylinder (or cone) of at least 3 radial and 1 height segments are those
/// of [`cylinder_corner`]: index `i` is corner `i % 3` of triangle `i / 3`, modulo 2^16; the
/// caps, written when it is not open ended, follow the side. (The caps' indices must fit in
/// 16 bits without wrapping, as the function that writes them requires.)
pub proof fn lemma_cylinder_triangles(radial_segments: nat, height_segments: nat, open_ended: bool)
    requires
        ({
            let r = at_least(radial_segments, 3);
            let h = at_least(height_segments, 1);
            let top = ((h + 1) * (r + 1)) as int;
            !open_ended ==> cap_fits(wrap16(top), r) && cap_fits(wrap16(top + r + 2), r)
        }),
    ensures
        ({
            let r = at_least(radial_segments, 3);
            let h = at_least(height_segments, 1);
            let s = cylinder_indices_spec(radial_segments, height_segments, open_ended);
            &&& s.len() == 6 * (r * h) + if open_ended { 0 } else { 6 * r }
            &&& forall|i: int|
                0 <= i < s.len() ==> #[trigger] s[i] == wrap16(cylinder_corner(r as int, h as int, i / 3, i % 3))
        }),
{
    let r = at_least(radial_segments, 3);
    let h = at_least(height_segments, 1);
    let ri = r as int;
    let hi = h as int;
    let g = |i: int| wrap16(cylinder_corner(ri, hi, i / 3, i % 3));
    let gg = |i: int| wrap16(grid_corner(ri, i / 3, i % 3));
    let side_len = 6 * (ri * hi);
    lemma_plain_grid(h, r);
    assert(values_from(gg, 0, side_len as nat) =~= values_from(g, 0, side_len as nat));
    assert(top_center(r, h) == (hi + 1) * (ri + 1));
    assert(side_len >= 0 && (hi + 1) * (ri + 1) >= 0) by (nonlinear_arith)
        requires
            side_len == 6 * (ri * hi),
            ri >= 0,
            hi >= 0,
    ;
    if !open_ended {
        let top = (hi + 1) * (ri + 1);
        let bottom = top + ri + 2;
        assert forall|x: int| 0 <= x < r implies {
            &&& #[trigger] g(side_len + 3 * x) == wrap16(top)
            &&& g(side_len + 3 * x + 1) == wrap16(top + x + 1)
            &&& g(side_len + 3 * x + 2) == wrap16(top + x + 2)
        } by {
            lemma_triangle_position(side_len + 3 * x, 2 * (ri * hi) + x, 0);
            lemma_triangle_position(side_len + 3 * x + 1, 2 * (ri * hi) + x, 1);
            lemma_triangle_position(side_len + 3 * x + 2, 2 * (ri * hi) + x, 2);
        }
        lemma_cap_values(wrap16(top), top, r, false, g, side_len);
        let bbase = side_len + 3 * ri;
        assert forall|x: int| 0 <= x < r implies {
            &&& #[trigger] g(bbase + 3 * x) == wrap16(bottom)
            &&& g(bbase + 3 * x + 1) == wrap16(bottom + x + 2)
            &&& g(bbase + 3 * x + 2) == wrap16(bottom + x + 1)
        } by {
            lemma_triangle_position(bbase + 3 * x, 2 * (ri * hi) + ri + x, 0);
            lemma_triangle_position(bbase + 3 * x + 1, 2 * (ri * hi) + ri + x, 1);
            lemma_triangle_position(bbase + 3 * x + 2, 2 * (ri * hi) + ri + x, 2);
        }
        assert(bottom_center(r, h) == bottom);
        lemma_cap_values(wrap16(bottom), bottom, r, true, g, bbase);
        lemma_values_concat(g, side_len, (3 * ri) as nat, (3 * ri) as nat);
        lemma_values_concat(g, 0, side_len as nat, (6 * ri) as nat);
        assert(cylinder_indices_spec(radial_segments, height_segments, open_ended) == values_from(
            g,
            0,
            (side_len + 6 * ri) as nat,
        ));
    } else {
        assert(cylinder_indices_spec(radial_segments, height_segments, open_ended) =~= values_from(
            g,
            0,
            side_len as nat,
        ));
    }
}

/// Edge `k` of face `t` of the icosahedron, as the directed pair of vertices in winding order.
pub open spec fn icosahedron_edge(t: int, k: int) -> (u16, u16) {
    let f = icosahedron_faces();
    (f[3 * t + k], f[3 * t + (k + 1) % 3])
}

/// How many of the edges of the first `m` icosahedron faces run from `u` to `v`.
pub open spec fn icosahedron_edge_count(u: u16, v: u16, m: nat) -> nat
    decreases m,
{
    if m == 0 {
        0
    } else {
        let t = m - 1;
        icosahedron_edge_count(u, v, (m - 1) as nat) + (if icosahedron_edge(t, 0) == (u, v) { 1nat } else { 0nat })
            + (if icosahedron_edge(t, 1) == (u, v) { 1nat } else { 0nat }) + (if icosahedron_edge(t, 2) == (u, v) {
            1nat
        } else {
            0nat
        })
    }
}

/// Edge `k` of face `t` occurs once among the twenty faces, and its reverse occurs once too.
pub open spec fn icosahedron_edge_paired(t: int, k: int) -> bool {
    let (u, v) = icosahedron_edge(t, k);
    icosahedron_edge_count(u, v, 20) == 1 && icosahedron_edge_count(v, u, 20) == 1
}

/// The icosahedron's faces form a closed, consistently oriented surface: every edge of a
/// face is run once in its direction and once, by the neighbouring face, in the opposite
/// direction, so all faces are wound the same way round (outward).
pub proof fn lemma_icosahedron_orientation()
    ensures
        icosahedron_faces().len() == 60,
        forall|t: int, k: int| 0 <= t < 20 && 0 <= k < 3 ==> #[trigger] icosahedron_edge_paired(t, k),
{
    lemma_icosahedron_faces_paired_0();
    lemma_icosahedron_faces_paired_1();
    lemma_icosahedron_faces_paired_2();
    lemma_icosahedron_faces_paired_3();
    lemma_icosahedron_faces_paired_4();
    assert forall|t: int, k: int| 0 <= t < 20 && 0 <= k < 3 implies #[trigger] icosahedron_edge_paired(t, k) by {
        if t == 0 {
            assert(icosahedron_edge_paired(0, 0) && icosahedron_edge_paired(0, 1) && icosahedron_edge_paired(0, 2));
        } else if t == 1 {
            assert(icosahedron_edge_paired(1, 0) && icosahedron_edge_paired(1, 1) && icosahedron_edge_paired(1, 2));
        } else if t == 2 {
            assert(icosahedron_edge_paired(2, 0) && icosahedron_edge_paired(2, 1) && icosahedron_edge_paired(2, 2));
        } else if t == 3 {
            assert(icosahedron_edge_paired(3, 0) && icosahedron_edge_paired(3, 1) && icosahedron_edge_paired(3, 2));
        } else if t == 4 {
            assert(icosahedron_edge_paired(4, 0) && icosahedron_edge_paired(4, 1) && icosahedron_edge_paired(4, 2));
        } else if t == 5 {
            assert(icosahedron_edge_paired(5, 0) && icosahedron_edge_paired(5, 1) && icosahedron_edge_paired(5, 2));
        } else if t == 6 {
            assert(icosahedron_edge_paired(6, 0) && icosahedron_edge_paired(6, 1) && icosahedron_edge_paired(6, 2));
        } else if t == 7 {
            assert(icosahedron_edge_paired(7, 0) && icosahedron_edge_paired(7, 1) && icosahedron_edge_paired(7, 2));
        } else if t == 8 {
            assert(icosahedron_edge_paired(8, 0) && icosahedron_edge_paired(8, 1) && icosahedron_edge_paired(8, 2));
        } else if t == 9 {
            assert(icosahedron_edge_paired(9, 0) && icosahedron_edge_paired(9, 1) && icosahedron_edge_paired(9, 2));
        } else if t == 10 {
            assert(icosahedron_edge_paired(10, 0) && icosahedron_edge_paired(10, 1) && icosahedron_edge_paired(10, 2));
        } else if t == 11 {
            assert(icosahedron_edge_paired(11, 0) && icosahedron_edge_paired(11, 1) && icosahedron_edge_paired(11, 2));
        } else if t == 12 {
            assert(icosahedron_edge_paired(12, 0) && icosahedron_edge_paired(12, 1) && icosahedron_edge_paired(12, 2));
        } else if t == 13 {
            assert(icosahedron_edge_paired(13, 0) && icosahedron_edge_paired(13, 1) && icosahedron_edge_paired(13, 2));
        } else if t == 14 {
            assert(icosahedron_edge_paired(14, 0) && icosahedron_edge_paired(14, 1) && icosahedron_edge_paired(14, 2));
        } else if t == 15 {
            assert(icosahedron_edge_paired(15, 0) && icosahedron_edge_paired(15, 1) && icosahedron_edge_paired(15, 2));
        } else if t == 16 {
            assert(icosahedron_edge_paired(16, 0) && icosahedron_edge_paired(16, 1) && icosahedron_edge_paired(16, 2));
        } else if t == 17 {
            assert(icosahedron_edge_paired(17, 0) && icosahedron_edge_paired(17, 1) && icosahedron_edge_paired(17, 2));
        } else if t == 18 {
            assert(icosahedron_edge_paired(18, 0) && icosahedron_edge_paired(18, 1) && icosahedron_edge_paired(18, 2));
        } else if t == 19 {
            assert(icosahedron_edge_paired(19, 0) && icosahedron_edge_paired(19, 1) && icosahedron_edge_paired(19, 2));
        }
    }
}

/// Faces 0 to 3 of the icosahedron have their edges paired.
#[verifier::spinoff_prover]
#[verifier::rlimit(100)]
proof fn lemma_icosahedron_faces_paired_0()
    ensures
        icosahedron_edge_paired(0, 0),
        icosahedron_edge_paired(0, 1),
        icosahedron_edge_paired(0, 2),
        icosahedron_edge_paired(1, 0),
        icosahedron_edge_paired(1, 1),
        icosahedron_edge_paired(1, 2),
        icosahedron_edge_paired(2, 0),
        icosahedron_edge_paired(2, 1),
        icosahedron_edge_paired(2, 2),
        icosahedron_edge_paired(3, 0),
        icosahedron_edge_paired(3, 1),
        icosahedron_edge_paired(3, 2),
{
    reveal_with_fuel(icosahedron_edge_count, 21);
    assert(icosahedron_faces() =~= seq![
        0u16, 11, 5, 0, 5, 1, 0, 1, 7, 0, 7, 10, 0, 10, 11,
        1, 5, 9, 5, 11, 4, 11, 10, 2, 10, 7, 6, 7, 1, 8,
        3, 9, 4, 3, 4, 2, 3, 2, 6, 3, 6, 8, 3, 8, 9,
        4, 9, 5, 2, 4, 11, 6, 2, 10, 8, 6, 7, 9, 8, 1,
    ]);
}

/// Faces 4 to 7 of the icosahedron have their edges paired.
#[verifier::spinoff_prover]
#[verifier::rlimit(100)]
proof fn lemma_icosahedron_faces_paired_1()
    ensures
        icosahedron_edge_paired(4, 0),
        icosahedron_edge_paired(4, 1),
        icosahedron_edge_paired(4, 2),
        icosahedron_edge_paired(5, 0),
        icosahedron_edge_paired(5, 1),
        icosahedron_edge_paired(5, 2),
        icosahedron_edge_paired(6, 0),
        icosahedron_edge_paired(6, 1),
        icosahedron_edge_paired(6, 2),
        icosahedron_edge_paired(7, 0),
        icosahedron_edge_paired(7, 1),
        icosahedron_edge_paired(7, 2),
{
    reveal_with_fuel(icosahedron_edge_count, 21);
    assert(icosahedron_faces() =~= seq![
        0u16, 11, 5, 0, 5, 1, 0, 1, 7, 0, 7, 10, 0, 10, 11,
        1, 5, 9, 5, 11, 4, 11, 10, 2, 10, 7, 6, 7, 1, 8,
        3, 9, 4, 3, 4, 2, 3, 2, 6, 3, 6, 8, 3, 8, 9,
        4, 9, 5, 2, 4, 11, 6, 2, 10, 8, 6, 7, 9, 8, 1,
    ]);
}

/// Faces 8 to 11 of the icosahedron have their edges paired.
#[verifier::spinoff_prover]
#[verifier::rlimit(100)]
proof fn lemma_icosahedron_faces_paired_2()
    ensures
        icosahedron_edge_paired(8, 0),
        icosahedron_edge_paired(8, 1),
        icosahedron_edge_paired(8, 2),
        icosahedron_edge_paired(9, 0),
        icosahedron_edge_paired(9, 1),
        icosahedron_edge_paired(9, 2),
        icosahedron_edge_paired(10, 0),
        icosahedron_edge_paired(10, 1),
        icosahedron_edge_paired(10, 2),
        icosahedron_edge_paired(11, 0),
        icosahedron_edge_paired(11, 1),
        icosahedron_edge_paired(11, 2),
{
    reveal_with_fuel(icosahedron_edge_count, 21);
    assert(icosahedron_faces() =~= seq![
        0u16, 11, 5, 0, 5, 1, 0, 1, 7, 0, 7, 10, 0, 10, 11,
        1, 5, 9, 5, 11, 4, 11, 10, 2, 10, 7, 6, 7, 1, 8,
        3, 9, 4, 3, 4, 2, 3, 2, 6, 3, 6, 8, 3, 8, 9,
        4, 9, 5, 2, 4, 11, 6, 2, 10, 8, 6, 7, 9, 8, 1,
    ]);
}

/// Faces 12 to 15 of the icosahedron have their edges paired.
#[verifier::spinoff_prover]
#[verifier::rlimit(100)]
proof fn lemma_icosahedron_faces_paired_3()
    ensures
        icosahedron_edge_paired(12, 0),
        icosahedron_edge_paired(12, 1),
        icosahedron_edge_paired(12, 2),
        icosahedron_edge_paired(13, 0),
        icosahedron_edge_paired(13, 1),
        icosahedron_edge_paired(13, 2),
        icosahedron_edge_paired(14, 0),
        icosahedron_edge_paired(14, 1),
        icosahedron_edge_paired(14, 2),
        icosahedron_edge_paired(15, 0),
        icosahedron_edge_paired(15, 1),
        icosahedron_edge_paired(15, 2),
{
    reveal_with_fuel(icosahedron_edge_count, 21);
    assert(icosahedron_faces() =~= seq![
        0u16, 11, 5, 0, 5, 1, 0, 1, 7, 0, 7, 10, 0, 10, 11,
        1, 5, 9, 5, 11, 4, 11, 10, 2, 10, 7, 6, 7, 1, 8,
        3, 9, 4, 3, 4, 2, 3, 2, 6, 3, 6, 8, 3, 8, 9,
        4, 9, 5, 2, 4, 11, 6, 2, 10, 8, 6, 7, 9, 8, 1,
    ]);
}

/// Faces 16 to 19 of the icosahedron have their edges paired.
#[verifier::spinoff_prover]
#[verifier::rlimit(100)]
proof fn lemma_icosahedron_faces_paired_4()
    ensures
        icosahedron_edge_paired(16, 0),
        icosahedron_edge_paired(16, 1),
        icosahedron_edge_paired(16, 2),
        icosahedron_edge_paired(17, 0),
        icosahedron_edge_paired(17, 1),
        icosahedron_edge_paired(17, 2),
        icosahedron_edge_paired(18, 0),
        icosahedron_edge_paired(18, 1),
        icosahedron_edge_paired(18, 2),
        icosahedron_edge_paired(19, 0),
        icosahedron_edge_paired(19, 1),
        icosahedron_edge_paired(19, 2),
{
    reveal_with_fuel(icosahedron_edge_count, 21);
    assert(icosahedron_faces() =~= seq![
        0u16, 11, 5, 0, 5, 1, 0, 1, 7, 0, 7, 10, 0, 10, 11,
        1, 5, 9, 5, 11, 4, 11, 10, 2, 10, 7, 6, 7, 1, 8,
        3, 9, 4, 3, 4, 2, 3, 2, 6, 3, 6, 8, 3, 8, 9,
        4, 9, 5, 2, 4, 11, 6, 2, 10, 8, 6, 7, 9, 8, 1,
    ]);
}

} // verus!
