use vstd::prelude::*;
use vstd::relations::injective_on;
use vstd::set_lib::{lemma_int_range, lemma_map_size, lemma_subset_equality, set_int_range};
use super::{clamp, resolve_levels};
use super::ordered::is_square_matrix;
use crate::category::EffectCategory;
use crate::image::{channel_of, map_rgb, WorkingImage};

verus! {

/// Squared distance (in doubled coordinates, so it stays integral) from the
/// centre of a `size`x`size` cell to the cell at row-major index `i`.
pub open spec fn center_distance(size: int, i: int) -> int {
    let dr = 2 * (i / size) - (size - 1);
    let dc = 2 * (i % size) - (size - 1);
    dr * dr + dc * dc
}

/// The order in which a clustered-dot screen turns its cells on: nearer the
/// centre first, and among equally near cells the earlier row-major one.
pub open spec fn precedes(size: int, j: int, i: int) -> bool {
    center_distance(size, j) < center_distance(size, i) || (center_distance(size, j)
        == center_distance(size, i) && j < i)
}

/// How many of the cells `0..n` precede cell `i`.
pub open spec fn count_preceding(size: int, i: int, n: int) -> nat
    decreases n,
{
    if n <= 0 {
        0
    } else {
        count_preceding(size, i, n - 1) + if precedes(size, n - 1, i) {
            1nat
        } else {
            0nat
        }
    }
}

/// The threshold rank of cell `i` in a `size`x`size` clustered-dot screen:
/// the number of cells that turn on before it.
pub open spec fn dot_rank(size: int, i: int) -> nat {
    count_preceding(size, i, size * size)
}

/// Some cell of the `size`x`size` screen has rank `v`.
pub open spec fn rank_is_taken(size: int, v: int) -> bool {
    exists|i: int| 0 <= i < size * size && #[trigger] dot_rank(size, i) == v
}

proof fn lemma_precedes_irreflexive_total_transitive(size: int, a: int, b: int, c: int)
    ensures
        !precedes(size, a, a),
        a != b ==> (precedes(size, a, b) || precedes(size, b, a)),
        !(precedes(size, a, b) && precedes(size, b, a)),
        precedes(size, a, b) && precedes(size, b, c) ==> precedes(size, a, c),
{
}

proof fn lemma_count_bounded(size: int, i: int, n: int)
    requires
        n >= 0,
    ensures
        count_preceding(size, i, n) <= n,
        0 <= i < n ==> count_preceding(size, i, n) < n,
    decreases n,
{
    if n > 0 {
        lemma_count_bounded(size, i, n - 1);
        lemma_precedes_irreflexive_total_transitive(size, i, i, i);
    }
}

proof fn lemma_count_monotone(size: int, j: int, i: int, n: int)
    requires
        n >= 0,
        precedes(size, j, i),
    ensures
        count_preceding(size, j, n) + (if 0 <= j < n {
            1int
        } else {
            0int
        }) <= count_preceding(size, i, n),
    decreases n,
{
    if n > 0 {
        lemma_count_monotone(size, j, i, n - 1);
        lemma_precedes_irreflexive_total_transitive(size, n - 1, j, i);
        lemma_precedes_irreflexive_total_transitive(size, j, j, j);
    }
}

/// A cell that precedes another gets a strictly smaller rank.
proof fn lemma_rank_strictly_ordered(size: int, j: int, i: int)
    requires
        size >= 0,
        0 <= j < size * size,
        precedes(size, j, i),
    ensures
        dot_rank(size, j) < dot_rank(size, i),
{
    lemma_count_monotone(size, j, i, size * size);
}

/// Every cell of a `size`x`size` clustered-dot screen gets a distinct rank in
/// `0..size*size`, and every rank in that range is taken by some cell: the
/// screen is a permutation of the threshold levels.
pub proof fn lemma_clustered_dot_is_permutation(size: int)
    requires
        size >= 0,
    ensures
        forall|i: int| 0 <= i < size * size ==> #[trigger] dot_rank(size, i) < size * size,
        forall|i: int, j: int|
            0 <= i < size * size && 0 <= j < size * size && i != j ==> #[trigger] dot_rank(size, i)
                != #[trigger] dot_rank(size, j),
        forall|v: int| 0 <= v < size * size ==> #[trigger] rank_is_taken(size, v),
{
    let n = size * size;
    assert(size * size >= 0) by (nonlinear_arith)
        requires
            size >= 0,
    ;
    assert forall|i: int| 0 <= i < n implies #[trigger] dot_rank(size, i) < n by {
        lemma_count_bounded(size, i, n);
    }
    assert forall|i: int, j: int|
        0 <= i < n && 0 <= j < n && i != j implies #[trigger] dot_rank(size, i)
            != #[trigger] dot_rank(size, j) by {
        lemma_precedes_irreflexive_total_transitive(size, i, j, i);
        if precedes(size, i, j) {
            lemma_rank_strictly_ordered(size, i, j);
        } else {
            lemma_rank_strictly_ordered(size, j, i);
        }
    }
    let cells = set_int_range(0, n);
    let f = |i: int| dot_rank(size, i) as int;
    lemma_int_range(0, n);
    assert(injective_on(f, cells)) by {
        assert forall|a: int, b: int|
            cells.contains(a) && cells.contains(b) && #[trigger] f(a) == #[trigger] f(b) implies a
                == b by {
            if a != b {
                assert(dot_rank(size, a) != dot_rank(size, b));
            }
        }
    }
    let image = cells.map(f);
    lemma_map_size(cells, image, f);
    assert(image.subset_of(cells)) by {
        assert forall|v: int| image.contains(v) implies cells.contains(v) by {
            let i = choose|i: int| cells.contains(i) && f(i) == v;
            assert(dot_rank(size, i) < n);
        }
    }
    lemma_subset_equality(image, cells);
    assert forall|v: int| 0 <= v < n implies #[trigger] rank_is_taken(size, v) by {
        assert(cells.contains(v));
        assert(image.contains(v));
        let i = choose|i: int| cells.contains(i) && f(i) == v;
        assert(dot_rank(size, i) == v);
    }
}

/// A cell nearer the centre of the screen turns on strictly before any cell
/// farther from it: the dot grows outwards from the centre.
pub proof fn lemma_clustered_dot_grows_from_center(size: int, near: int, far: int)
    requires
        size >= 0,
        0 <= near < size * size,
        0 <= far < size * size,
        center_distance(size, near) < center_distance(size, far),
    ensures
        dot_rank(size, near) < dot_rank(size, far),
{
    lemma_rank_strictly_ordered(size, near, far);
}

fn center_distance_exec(size: u64, i: u64) -> (d: u64)
    requires
        1 <= size <= 65535,
        i < size * size,
    ensures
        d == center_distance(size as int, i as int),
{
    let r = i / size;
    let c = i % size;
    assert(r < size) by (nonlinear_arith)
        requires
            i < size * size,
            size >= 1,
            r == i / size,
    ;
    let dr: i64 = 2 * (r as i64) - (size as i64 - 1);
    let dc: i64 = 2 * (c as i64) - (size as i64 - 1);
    assert(dr * dr <= 65535 * 65535 && dc * dc <= 65535 * 65535) by (nonlinear_arith)
        requires
            -65535 <= dr <= 65535,
            -65535 <= dc <= 65535,
    ;
    assert(dr * dr >= 0 && dc * dc >= 0) by (nonlinear_arith);
    (dr * dr + dc * dc) as u64
}

/// Builds the `size`x`size` clustered-dot threshold matrix: entry `[r][c]`
/// is the rank at which that cell turns on, nearest the centre first.
pub fn clustered_dot_matrix(size: usize) -> (m: Vec<Vec<u32>>)
    requires
        size <= 65535,
    ensures
        m@.len() == size,
        forall|r: int| 0 <= r < size ==> (#[trigger] m@[r])@.len() == size,
        forall|r: int, c: int|
            0 <= r < size && 0 <= c < size ==> m@[r]@[c] == dot_rank(size as int, r * size + c),
{
    assert(size * size <= 65535 * 65535) by (nonlinear_arith)
        requires
            size <= 65535,
    ;
    let n: u64 = (size as u64) * (size as u64);
    let mut m: Vec<Vec<u32>> = Vec::new();
    let mut r: usize = 0;
    while r < size
        invariant
            r <= size <= 65535,
            n == size * size,
            m@.len() == r,
            forall|rr: int| 0 <= rr < r ==> (#[trigger] m@[rr])@.len() == size,
            forall|rr: int, c: int|
                0 <= rr < r && 0 <= c < size ==> m@[rr]@[c] == dot_rank(size as int, rr * size + c),
        decreases size - r,
    {
        let mut row: Vec<u32> = Vec::new();
        let mut c: usize = 0;
        while c < size
            invariant
                r < size <= 65535,
                c <= size,
                n == size * size,
                row@.len() == c,
                forall|cc: int|
                    0 <= cc < c ==> row@[cc] == dot_rank(size as int, r * size + cc),
            decreases size - c,
        {
            assert(r * size + c < size * size) by (nonlinear_arith)
                requires
                    r < size,
                    c < size,
            ;
            let i: u64 = (r as u64) * (size as u64) + (c as u64);
            let di = center_distance_exec(size as u64, i);
            let mut count: u64 = 0;
            let mut j: u64 = 0;
            while j < n
                invariant
                    1 <= size <= 65535,
                    n == size * size,
                    i < n,
                    j <= n,
                    di == center_distance(size as int, i as int),
                    count == count_preceding(size as int, i as int, j as int),
                    count <= j,
                decreases n - j,
            {
                let dj = center_distance_exec(size as u64, j);
                if dj < di || (dj == di && j < i) {
                    count = count + 1;
                }
                j = j + 1;
            }
            assert(n <= 65535 * 65535) by (nonlinear_arith)
                requires
                    n == size * size,
                    size <= 65535,
            ;
            row.push(count as u32);
            c = c + 1;
        }
        m.push(row);
        r = r + 1;
    }
    m
}

/// The simplest baseline: every color channel is binarized against one
/// global cutoff, with no error diffusion and no matrix.
#[derive(Debug, Clone, Copy)]
pub struct Threshold;

impl Threshold {
    pub const KEY: &'static str = "pattern.threshold";

    pub fn key(&self) -> (k: &'static str)
        ensures
            k@ == "pattern.threshold"@,
    {
        "pattern.threshold"
    }

    pub fn display_name(&self) -> (n: &'static str)
        ensures
            n@ == "Threshold"@,
    {
        "Threshold"
    }

    pub fn category(&self) -> (c: EffectCategory)
        ensures
            c == EffectCategory::Pattern,
    {
        EffectCategory::Pattern
    }

    /// The effect itself: `binarize` (the comparison against the cutoff) is
    /// applied to the red, green and blue channel of every pixel; alpha is
    /// left untouched.
    pub fn apply<T: Copy, F: Fn(T) -> T>(&self, input: &WorkingImage<T>, binarize: F) -> (out:
        WorkingImage<T>)
        requires
            forall|t: T| binarize.requires((t,)),
        ensures
            out.same_shape(input),
            forall|k: int|
                0 <= k < out.pixels@.len() ==> if channel_of(k) < 3 {
                    binarize.ensures((input.pixels@[k],), #[trigger] out.pixels@[k])
                } else {
                    out.pixels@[k] == input.pixels@[k]
                },
    {
        map_rgb(input, binarize)
    }
}

/// A clustered-dot halftone screen of 4x4 cells: unlike Bayer's dispersed
/// checkerboard, "on" pixels grow outward from a central dot per cell.
#[derive(Debug, Clone, Copy)]
pub struct ClusteredDot4x4;

/// A clustered-dot halftone screen of 8x8 cells.
#[derive(Debug, Clone, Copy)]
pub struct ClusteredDot8x8;

impl ClusteredDot4x4 {
    pub const KEY: &'static str = "pattern.clustered_dot_4x4";

    pub fn key(&self) -> (k: &'static str)
        ensures
            k@ == "pattern.clustered_dot_4x4"@,
    {
        "pattern.clustered_dot_4x4"
    }

    pub fn display_name(&self) -> (n: &'static str)
        ensures
            n@ == "Clustered Dot 4x4"@,
    {
        "Clustered Dot 4x4"
    }

    pub fn category(&self) -> (c: EffectCategory)
        ensures
            c == EffectCategory::Pattern,
    {
        EffectCategory::Pattern
    }

    /// The threshold matrix this screen dithers against.
    pub fn matrix(&self) -> (m: Vec<Vec<u32>>)
        ensures
            m@.len() == 4,
            is_square_matrix(m@),
            forall|r: int, c: int|
                0 <= r < 4 && 0 <= c < 4 ==> m@[r]@[c] == dot_rank(4, r * 4 + c),
    {
        clustered_dot_matrix(4)
    }

    /// Quantization levels per channel (`levels` parameter).
    pub fn levels(&self, raw: Option<i64>) -> (l: u32)
        ensures
            l == clamp(
                match raw {
                    Some(r) => r as int,
                    None => 2,
                },
                2,
                256,
            ),
    {
        resolve_levels(raw)
    }
}

impl ClusteredDot8x8 {
    pub const KEY: &'static str = "pattern.clustered_dot_8x8";

    pub fn key(&self) -> (k: &'static str)
        ensures
            k@ == "pattern.clustered_dot_8x8"@,
    {
        "pattern.clustered_dot_8x8"
    }

    pub fn display_name(&self) -> (n: &'static str)
        ensures
            n@ == "Clustered Dot 8x8"@,
    {
        "Clustered Dot 8x8"
    }

    pub fn category(&self) -> (c: EffectCategory)
        ensures
            c == EffectCategory::Pattern,
    {
        EffectCategory::Pattern
    }

    /// The threshold matrix this screen dithers against.
    pub fn matrix(&self) -> (m: Vec<Vec<u32>>)
        ensures
            m@.len() == 8,
            is_square_matrix(m@),
            forall|r: int, c: int|
                0 <= r < 8 && 0 <= c < 8 ==> m@[r]@[c] == dot_rank(8, r * 8 + c),
    {
        clustered_dot_matrix(8)
    }

    /// Quantization levels per channel (`levels` parameter).
    pub fn levels(&self, raw: Option<i64>) -> (l: u32)
        ensures
            l == clamp(
                match raw {
                    Some(r) => r as int,
                    None => 2,
                },
                2,
                256,
            ),
    {
        resolve_levels(raw)
    }
}

} // verus!
