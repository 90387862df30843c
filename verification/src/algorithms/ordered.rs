use vstd::prelude::*;
use super::resolve_levels;
use crate::category::EffectCategory;

verus! {

/// The classic 4x4 Bayer threshold matrix, values `0..16`.
pub open spec fn bayer_4x4_entry(row: int, col: int) -> int {
    let rows = seq![
        seq![0int, 8, 2, 10],
        seq![12int, 4, 14, 6],
        seq![3int, 11, 1, 9],
        seq![15int, 7, 13, 5],
    ];
    rows[row][col]
}

/// The 4x4 Bayer matrix ranks its sixteen cells: every entry is below 16
/// and no two cells share one, so its entries are `0..16` each once.
pub proof fn lemma_bayer_4x4_is_permutation()
    ensures
        forall|r: int, c: int|
            0 <= r < 4 && 0 <= c < 4 ==> 0 <= #[trigger] bayer_4x4_entry(r, c) < 16,
        forall|r1: int, c1: int, r2: int, c2: int|
            0 <= r1 < 4 && 0 <= c1 < 4 && 0 <= r2 < 4 && 0 <= c2 < 4 && (r1 != r2 || c1 != c2)
                ==> #[trigger] bayer_4x4_entry(r1, c1) != #[trigger] bayer_4x4_entry(r2, c2),
{
    assert forall|r1: int, c1: int, r2: int, c2: int|
        0 <= r1 < 4 && 0 <= c1 < 4 && 0 <= r2 < 4 && 0 <= c2 < 4 && (r1 != r2 || c1 != c2)
            implies #[trigger] bayer_4x4_entry(r1, c1) != #[trigger] bayer_4x4_entry(r2, c2) by {
        assert(r1 == 0 || r1 == 1 || r1 == 2 || r1 == 3);
        assert(r2 == 0 || r2 == 1 || r2 == 2 || r2 == 3);
        assert(c1 == 0 || c1 == 1 || c1 == 2 || c1 == 3);
        assert(c2 == 0 || c2 == 1 || c2 == 2 || c2 == 3);
    }
}

/// The bias of a rank of an `n`x`n` matrix lies strictly inside
/// `(-1/2, 1/2)`: so a pure black (0) or white (1) channel, perturbed by it
/// and rounded, stays as it was.
pub proof fn lemma_threshold_bias_is_centred(rank: int, n: int)
    requires
        1 <= n,
        0 <= rank < n * n,
    ensures
        -(n * n) < 2 * rank + 1 - n * n < n * n,
{
}

/// A square, non-empty threshold matrix.
pub open spec fn is_square_matrix(m: Seq<Vec<u32>>) -> bool {
    &&& m.len() > 0
    &&& forall|r: int| 0 <= r < m.len() ==> (#[trigger] m[r])@.len() == m.len()
}

/// The threshold rank a tiled `n`x`n` matrix assigns to pixel `(x, y)`.
pub fn matrix_rank(matrix: &Vec<Vec<u32>>, x: usize, y: usize) -> (v: u32)
    requires
        is_square_matrix(matrix@),
    ensures
        v == matrix@[(y as int) % (matrix@.len() as int)]@[(x as int) % (matrix@.len() as int)],
{
    let n = matrix.len();
    matrix[y % n][x % n]
}

/// The ordered-dither bias of a matrix entry as the exact fraction
/// `(numerator, denominator)`: `(rank + 1/2) / n^2 - 1/2`, which centres the
/// entry in `(-1/2, 1/2)`, one quantization step's worth of perturbation.
pub fn threshold_bias(rank: u32, n: u32) -> (r: (i64, i64))
    requires
        1 <= n <= 65535,
    ensures
        r.1 == 2 * (n * n),
        r.0 == 2 * rank + 1 - n * n,
{
    assert(n * n <= 65535 * 65535) by (nonlinear_arith)
        requires
            n <= 65535,
    ;
    let nn: i64 = (n as i64) * (n as i64);
    (2 * (rank as i64) + 1 - nn, 2 * nn)
}

/// Ordered dithering against the 4x4 Bayer matrix.
#[derive(Debug, Clone, Copy)]
pub struct Bayer4x4;

impl Bayer4x4 {
    pub const KEY: &'static str = "ordered.bayer_4x4";

    pub fn key(&self) -> (k: &'static str)
        ensures
            k@ == "ordered.bayer_4x4"@,
    {
        "ordered.bayer_4x4"
    }

    pub fn display_name(&self) -> (n: &'static str)
        ensures
            n@ == "Bayer 4x4"@,
    {
        "Bayer 4x4"
    }

    pub fn category(&self) -> (c: EffectCategory)
        ensures
            c == EffectCategory::Ordered,
    {
        EffectCategory::Ordered
    }

    /// The threshold matrix this effect dithers against.
    pub fn matrix(&self) -> (m: Vec<Vec<u32>>)
        ensures
            m@.len() == 4,
            is_square_matrix(m@),
            forall|r: int, c: int|
                0 <= r < 4 && 0 <= c < 4 ==> m@[r]@[c] == bayer_4x4_entry(r, c),
            forall|r: int, c: int| 0 <= r < 4 && 0 <= c < 4 ==> #[trigger] m@[r]@[c] < 16,
            forall|r1: int, c1: int, r2: int, c2: int|
                0 <= r1 < 4 && 0 <= c1 < 4 && 0 <= r2 < 4 && 0 <= c2 < 4 && (r1 != r2 || c1 != c2)
                    ==> #[trigger] m@[r1]@[c1] != #[trigger] m@[r2]@[c2],
    {
        proof {
            lemma_bayer_4x4_is_permutation();
        }
        let mut m: Vec<Vec<u32>> = Vec::new();
        m.push(vec![0, 8, 2, 10]);
        m.push(vec![12, 4, 14, 6]);
        m.push(vec![3, 11, 1, 9]);
        m.push(vec![15, 7, 13, 5]);
        m
    }

    /// Quantization levels per channel (`levels` parameter).
    pub fn levels(&self, raw: Option<i64>) -> (l: u32)
        ensures
            l == super::clamp(
                match raw {
                    Some(r) => r as int,
                    None => 2,
                },
                2,
                256,
            ),
    {
        resolve_levels(raw)
    }
}

} // verus!
