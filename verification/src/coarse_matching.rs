use vstd::prelude::*;

use crate::error::{ConfigError, LoftrError, TensorName};
use crate::index_tensor::{lemma_linear_id_decomposes, linear_id};
use crate::loftr_config::{MatchCoarseConfig, MatchType};

verus! {

/// The coarse matcher: dual-softmax matching with mutual-nearest filtering.
#[derive(Debug, Clone, Copy)]
pub struct CoarseMatching {
    config: MatchCoarseConfig,
}

impl CoarseMatching {
    /// A coarse matcher for `config`; only dual-softmax matching is supported,
    /// which is every matcher type that a configuration can name.
    pub fn new(config: &MatchCoarseConfig) -> (r: Result<Self, LoftrError>)
        ensures
            r matches Ok(matcher) && matcher.config_view() == *config,
    {
        match config.match_type {
            MatchType::DualSoftmax => Ok(Self { config: *config }),
        }
    }

    /// The configuration the matcher was made with.
    pub closed spec fn config_view(&self) -> MatchCoarseConfig {
        self.config
    }

    /// The configuration the matcher was made with.
    pub fn config(&self) -> (config: &MatchCoarseConfig)
        ensures
            *config == self.config_view(),
    {
        &self.config
    }
}

/// The checks on the coarse features `[N, L, C]`, `[N, S, C]`, on the grid
/// extents `hw0_c`, `hw1_c` and on the optional `[N, L]` and `[N, S]` masks,
/// in the order in which they are made.
pub open spec fn coarse_matching_inputs_check(
    feat_c0: Seq<i64>,
    feat_c1: Seq<i64>,
    hw0_c: (i64, i64),
    hw1_c: (i64, i64),
    mask_c0: Option<Seq<i64>>,
    mask_c1: Option<Seq<i64>>,
) -> Result<(), LoftrError> {
    if feat_c0.len() != 3 || feat_c1.len() != 3 {
        Err(LoftrError::InvalidConfig(ConfigError::CoarseMatchingRank))
    } else if feat_c0[0] != feat_c1[0] || feat_c0[2] != feat_c1[2] {
        Err(LoftrError::InvalidConfig(ConfigError::CoarseMatchingBatchChannel))
    } else if feat_c0[1] != hw0_c.0 * hw0_c.1 || feat_c1[1] != hw1_c.0 * hw1_c.1 {
        Err(LoftrError::InvalidConfig(ConfigError::CoarseMatchingGrid))
    } else if mask_c0 matches Some(mask) && mask != seq![feat_c0[0], feat_c0[1]] {
        Err(
            LoftrError::InvalidConfig(
                ConfigError::CoarseMaskShape {
                    label: TensorName::MaskC0,
                    batch: feat_c0[0],
                    length: feat_c0[1],
                },
            ),
        )
    } else if mask_c1 matches Some(mask) && mask != seq![feat_c1[0], feat_c1[1]] {
        Err(
            LoftrError::InvalidConfig(
                ConfigError::CoarseMaskShape {
                    label: TensorName::MaskC1,
                    batch: feat_c1[0],
                    length: feat_c1[1],
                },
            ),
        )
    } else {
        Ok(())
    }
}

/// The view of an optional shape.
pub open spec fn optional_dims(dims: Option<&Vec<i64>>) -> Option<Seq<i64>> {
    match dims {
        Some(d) => Some(d@),
        None => None,
    }
}

fn is_pair(dims: &Vec<i64>, first: i64, second: i64) -> (r: bool)
    ensures
        r == (dims@ == seq![first, second]),
{
    let r = dims.len() == 2 && dims[0] == first && dims[1] == second;
    proof {
        if r {
            assert(dims@ =~= seq![first, second]);
        }
    }
    r
}

/// The product of two `i64` values fits in an `i128`.
pub proof fn lemma_wide_product_fits(a: i64, b: i64)
    ensures
        i128::MIN <= (a as int) * (b as int) <= i128::MAX,
{
    let x = a as int;
    let y = b as int;
    assert(-0x8000_0000_0000_0000 <= x <= 0x7fff_ffff_ffff_ffff);
    assert(-0x8000_0000_0000_0000 <= y <= 0x7fff_ffff_ffff_ffff);
    assert(-0x4000_0000_0000_0000_0000_0000_0000_0000 <= x * y <= 0x4000_0000_0000_0000_0000_0000_0000_0000)
        by (nonlinear_arith)
        requires
            -0x8000_0000_0000_0000 <= x <= 0x7fff_ffff_ffff_ffff,
            -0x8000_0000_0000_0000 <= y <= 0x7fff_ffff_ffff_ffff,
    ;
}

/// Checks the shapes handed to coarse matching: rank-3 features with equal
/// batch and channel extents, token counts equal to the grid areas, and
/// masks, where given, of shape `[N, L]` and `[N, S]`.
pub fn validate_coarse_matching_inputs(
    feat_c0: &Vec<i64>,
    feat_c1: &Vec<i64>,
    hw0_c: (i64, i64),
    hw1_c: (i64, i64),
    mask_c0: Option<&Vec<i64>>,
    mask_c1: Option<&Vec<i64>>,
) -> (r: Result<(), LoftrError>)
    ensures
        r == coarse_matching_inputs_check(
            feat_c0@,
            feat_c1@,
            hw0_c,
            hw1_c,
            optional_dims(mask_c0),
            optional_dims(mask_c1),
        ),
{
    if feat_c0.len() != 3 || feat_c1.len() != 3 {
        return Err(LoftrError::InvalidConfig(ConfigError::CoarseMatchingRank));
    }
    if feat_c0[0] != feat_c1[0] || feat_c0[2] != feat_c1[2] {
        return Err(LoftrError::InvalidConfig(ConfigError::CoarseMatchingBatchChannel));
    }
    proof {
        lemma_wide_product_fits(hw0_c.0, hw0_c.1);
        lemma_wide_product_fits(hw1_c.0, hw1_c.1);
    }
    let area0 = (hw0_c.0 as i128) * (hw0_c.1 as i128);
    let area1 = (hw1_c.0 as i128) * (hw1_c.1 as i128);
    if feat_c0[1] as i128 != area0 || feat_c1[1] as i128 != area1 {
        return Err(LoftrError::InvalidConfig(ConfigError::CoarseMatchingGrid));
    }
    if let Some(mask) = mask_c0 {
        if !is_pair(mask, feat_c0[0], feat_c0[1]) {
            return Err(
                LoftrError::InvalidConfig(
                    ConfigError::CoarseMaskShape {
                        label: TensorName::MaskC0,
                        batch: feat_c0[0],
                        length: feat_c0[1],
                    },
                ),
            );
        }
    }
    if let Some(mask) = mask_c1 {
        if !is_pair(mask, feat_c1[0], feat_c1[1]) {
            return Err(
                LoftrError::InvalidConfig(
                    ConfigError::CoarseMaskShape {
                        label: TensorName::MaskC1,
                        batch: feat_c1[0],
                        length: feat_c1[1],
                    },
                ),
            );
        }
    }
    Ok(())
}

/// Whether position `index` of an axis of `length` cells lies at least
/// `border_rm` cells away from both ends.
pub open spec fn axis_valid(index: int, length: int, border_rm: int) -> bool {
    border_rm <= index && index < length - border_rm
}

/// Whether cell `(y, x)` of an `h` by `w` grid may take part in a match:
/// with no border to remove every cell may, else both coordinates must lie
/// away from the border.
pub open spec fn cell_valid(y: int, x: int, h: int, w: int, border_rm: int) -> bool {
    if border_rm <= 0 {
        true
    } else {
        axis_valid(y, h, border_rm) && axis_valid(x, w, border_rm)
    }
}

/// Whether the pair of token `l` of the left grid (`h0` by `w0`) and token
/// `s` of the right grid (`h1` by `w1`) survives the border mask.
pub open spec fn pair_valid(l: int, s: int, h0: int, w0: int, h1: int, w1: int, border_rm: int) -> bool {
    cell_valid(l / w0, l % w0, h0, w0, border_rm) && cell_valid(s / w1, s % w1, h1, w1, border_rm)
}

/// The cells of an axis of `length` cells that lie at least `border_rm`
/// cells away from both ends.
pub fn border_axis_mask(length: i64, border_rm: i64) -> (mask: Vec<bool>)
    requires
        length >= 0,
        i64::MIN <= length - border_rm <= i64::MAX,
    ensures
        mask@.len() == length,
        forall|i: int| 0 <= i < length ==> mask@[i] == axis_valid(i, length as int, border_rm as int),
{
    let upper = length - border_rm;
    let mut mask: Vec<bool> = Vec::new();
    let mut index: i64 = 0;
    while index < length
        invariant
            0 <= index <= length,
            upper == length - border_rm,
            mask@.len() == index,
            forall|i: int| 0 <= i < index ==> mask@[i] == axis_valid(i, length as int, border_rm as int),
        decreases length - index,
    {
        mask.push(index >= border_rm && index < upper);
        index = index + 1;
    }
    mask
}

/// The cells of an `h` by `w` grid, in row-major order, that may take part in
/// a match once `border_rm` cells are removed on each edge.
pub fn grid_validity(h: i64, w: i64, border_rm: i64) -> (valid: Vec<bool>)
    requires
        h >= 0,
        w > 0,
        h * w <= i64::MAX,
    ensures
        valid@.len() == h * w,
        forall|k: int|
            0 <= k < h * w ==> valid@[k] == cell_valid(
                k / (w as int),
                k % (w as int),
                h as int,
                w as int,
                border_rm as int,
            ),
{
    let trimmed = border_rm > 0;
    let rows = if trimmed {
        border_axis_mask(h, border_rm)
    } else {
        Vec::new()
    };
    let columns = if trimmed {
        border_axis_mask(w, border_rm)
    } else {
        Vec::new()
    };
    let mut valid: Vec<bool> = Vec::new();
    let mut y: i64 = 0;
    while y < h
        invariant
            0 <= y <= h,
            w > 0,
            h * w <= i64::MAX,
            trimmed == (border_rm > 0),
            trimmed ==> rows@.len() == h,
            trimmed ==> columns@.len() == w,
            trimmed ==> forall|i: int| 0 <= i < h ==> rows@[i] == axis_valid(i, h as int, border_rm as int),
            trimmed ==> forall|i: int| 0 <= i < w ==> columns@[i] == axis_valid(i, w as int, border_rm as int),
            valid@.len() == y * w,
            forall|k: int|
                0 <= k < y * w ==> valid@[k] == cell_valid(
                    k / (w as int),
                    k % (w as int),
                    h as int,
                    w as int,
                    border_rm as int,
                ),
        decreases h - y,
    {
        proof {
            assert((y + 1) * w == y * w + w) by (nonlinear_arith);
            assert((y + 1) * w <= h * w) by (nonlinear_arith)
                requires
                    y + 1 <= h,
                    w > 0,
            ;
        }
        let mut x: i64 = 0;
        while x < w
            invariant
                0 <= y < h,
                0 <= x <= w,
                w > 0,
                h * w <= i64::MAX,
                (y + 1) * w <= h * w,
                (y + 1) * w == y * w + w,
                trimmed == (border_rm > 0),
                trimmed ==> rows@.len() == h,
                trimmed ==> columns@.len() == w,
                trimmed ==> forall|i: int| 0 <= i < h ==> rows@[i] == axis_valid(i, h as int, border_rm as int),
                trimmed ==> forall|i: int| 0 <= i < w ==> columns@[i] == axis_valid(i, w as int, border_rm as int),
                valid@.len() == y * w + x,
                forall|k: int|
                    0 <= k < y * w + x ==> valid@[k] == cell_valid(
                        k / (w as int),
                        k % (w as int),
                        h as int,
                        w as int,
                        border_rm as int,
                    ),
            decreases w - x,
        {
            let cell = if trimmed {
                rows[y as usize] && columns[x as usize]
            } else {
                true
            };
            proof {
                lemma_linear_id_decomposes(y as int, x as int, w as int);
                let k = y * w + x;
                if trimmed {
                    assert(rows@[y as int] == axis_valid(y as int, h as int, border_rm as int));
                    assert(columns@[x as int] == axis_valid(x as int, w as int, border_rm as int));
                }
                assert(k / (w as int) == y);
                assert(k % (w as int) == x);
                assert(cell == cell_valid(k / (w as int), k % (w as int), h as int, w as int, border_rm as int));
            }
            valid.push(cell);
            x = x + 1;
        }
        y = y + 1;
    }
    valid
}

/// With no border to remove, the border mask keeps every pair of cells; the
/// shortcut taken then agrees with the axis masks, which keep every cell too.
pub proof fn lemma_no_border_keeps_everything(l: int, s: int, h0: int, w0: int, h1: int, w1: int, border_rm: int)
    requires
        border_rm <= 0,
        w0 > 0,
        w1 > 0,
        0 <= l < h0 * w0,
        0 <= s < h1 * w1,
    ensures
        pair_valid(l, s, h0, w0, h1, w1, border_rm),
        axis_valid(l / w0, h0, border_rm) && axis_valid(l % w0, w0, border_rm),
        axis_valid(s / w1, h1, border_rm) && axis_valid(s % w1, w1, border_rm),
{
    lemma_cell_in_grid(l, h0, w0);
    lemma_cell_in_grid(s, h1, w1);
}

/// A token of an `h` by `w` grid lies on row `k / w < h` and column `k % w < w`.
pub proof fn lemma_cell_in_grid(k: int, h: int, w: int)
    requires
        w > 0,
        0 <= k < h * w,
    ensures
        0 <= k / w < h,
        0 <= k % w < w,
{
    vstd::arithmetic::div_mod::lemma_div_pos_is_pos(k, w);
    vstd::arithmetic::div_mod::lemma_mod_pos_bound(k, w);
    vstd::arithmetic::div_mod::lemma_fundamental_div_mod(k, w);
    let q = k / w;
    if q >= h {
        assert(q * w >= h * w) by (nonlinear_arith)
            requires
                q >= h,
                w > 0,
        ;
        assert(false);
    }
}

/// The border mask treats both images alike: swapping the two grids swaps
/// the roles of the two tokens and keeps the verdict.
pub proof fn lemma_border_mask_symmetric(l: int, s: int, h0: int, w0: int, h1: int, w1: int, border_rm: int)
    ensures
        pair_valid(l, s, h0, w0, h1, w1, border_rm) == pair_valid(s, l, h1, w1, h0, w0, border_rm),
{
}

/// The position of match `(batch, i, j)` in the flattened `[N, L, S]`
/// confidence matrix: `batch * (L * S) + i * S + j`.
pub open spec fn match_position(batch: int, i: int, j: int, l: int, s: int) -> int {
    batch * (l * s) + i * s + j
}

/// The positions in the flattened `[n, l, s]` confidence matrix of the
/// matches `(b_ids[k], i_ids[k], j_ids[k])`, each a cell of that matrix.
pub fn match_positions(b_ids: &Vec<i64>, i_ids: &Vec<i64>, j_ids: &Vec<i64>, n: i64, l: i64, s: i64) -> (positions:
    Vec<i64>)
    requires
        b_ids@.len() == i_ids@.len(),
        b_ids@.len() == j_ids@.len(),
        n * l * s <= i64::MAX,
        forall|k: int| 0 <= k < b_ids@.len() ==> 0 <= #[trigger] b_ids@[k] < n,
        forall|k: int| 0 <= k < i_ids@.len() ==> 0 <= #[trigger] i_ids@[k] < l,
        forall|k: int| 0 <= k < j_ids@.len() ==> 0 <= #[trigger] j_ids@[k] < s,
    ensures
        positions@.len() == b_ids@.len(),
        forall|k: int|
            0 <= k < positions@.len() ==> positions@[k] == match_position(
                b_ids@[k] as int,
                i_ids@[k] as int,
                j_ids@[k] as int,
                l as int,
                s as int,
            ),
        forall|k: int| 0 <= k < positions@.len() ==> 0 <= #[trigger] positions@[k] < n * l * s,
{
    let mut positions: Vec<i64> = Vec::new();
    let mut k: usize = 0;
    while k < b_ids.len()
        invariant
            b_ids@.len() == i_ids@.len(),
            b_ids@.len() == j_ids@.len(),
            n * l * s <= i64::MAX,
            forall|m: int| 0 <= m < b_ids@.len() ==> 0 <= #[trigger] b_ids@[m] < n,
            forall|m: int| 0 <= m < i_ids@.len() ==> 0 <= #[trigger] i_ids@[m] < l,
            forall|m: int| 0 <= m < j_ids@.len() ==> 0 <= #[trigger] j_ids@[m] < s,
            k <= b_ids@.len(),
            positions@.len() == k,
            forall|m: int|
                0 <= m < k ==> positions@[m] == match_position(
                    b_ids@[m] as int,
                    i_ids@[m] as int,
                    j_ids@[m] as int,
                    l as int,
                    s as int,
                ),
            forall|m: int| 0 <= m < k ==> 0 <= #[trigger] positions@[m] < n * l * s,
        decreases b_ids@.len() - k,
    {
        let batch = b_ids[k];
        let i = i_ids[k];
        let j = j_ids[k];
        proof {
            lemma_match_position_bounds(batch as int, i as int, j as int, n as int, l as int, s as int);
        }
        let row = batch * (l * s);
        let position = row + i * s + j;
        positions.push(position);
        k = k + 1;
    }
    positions
}

/// A match position lies in the flattened matrix, below every later batch.
pub proof fn lemma_match_position_bounds(batch: int, i: int, j: int, n: int, l: int, s: int)
    requires
        0 <= batch < n,
        0 <= i < l,
        0 <= j < s,
    ensures
        0 <= i * s + j < l * s,
        0 <= batch * (l * s) <= match_position(batch, i, j, l, s) < (batch + 1) * (l * s),
        (batch + 1) * (l * s) <= n * l * s,
        0 <= l * s <= n * l * s,
        0 <= i * s <= (l - 1) * s,
{
    assert(0 <= i * s <= (l - 1) * s) by (nonlinear_arith)
        requires
            0 <= i < l,
            0 <= s,
    ;
    assert((l - 1) * s + s == l * s) by (nonlinear_arith);
    assert(0 <= batch * (l * s)) by (nonlinear_arith)
        requires
            0 <= batch,
            0 <= l,
            0 <= s,
    ;
    assert((batch + 1) * (l * s) == batch * (l * s) + l * s) by (nonlinear_arith);
    assert((batch + 1) * (l * s) <= n * (l * s)) by (nonlinear_arith)
        requires
            batch + 1 <= n,
            0 <= l,
            0 <= s,
    ;
    assert(n * (l * s) == n * l * s) by (nonlinear_arith);
    assert(l * s <= n * (l * s)) by (nonlinear_arith)
        requires
            1 <= n,
            0 <= l * s,
    ;
}

/// A match position, read back, gives the batch and the two tokens.
pub proof fn lemma_match_position_decomposes(batch: int, i: int, j: int, l: int, s: int)
    requires
        0 <= batch,
        0 <= i < l,
        0 <= j < s,
    ensures
        match_position(batch, i, j, l, s) / (l * s) == batch,
        (match_position(batch, i, j, l, s) % (l * s)) / s == i,
        match_position(batch, i, j, l, s) % s == j,
{
    lemma_match_position_bounds(batch, i, j, batch + 1, l, s);
    lemma_linear_id_decomposes(batch, i * s + j, l * s);
    lemma_linear_id_decomposes(i, j, s);
    assert(linear_id(batch, i * s + j, l * s) == match_position(batch, i, j, l, s));
    assert(linear_id(i, j, s) == i * s + j);
    // the remainder modulo `s` of the full position is that of `i * s + j`
    vstd::arithmetic::div_mod::lemma_mod_multiples_vanish(batch * l, i * s + j, s);
    assert(batch * l * s == batch * (l * s)) by (nonlinear_arith);
    assert(s * (batch * l) == batch * (l * s)) by (nonlinear_arith);
}

/// The grid cell `(x, y)` of token `index` of a grid `width` cells wide:
/// `x = index mod width` and `y = floor(index / width)`.
pub fn grid_cell(index: i64, width: i64) -> (cell: (i64, i64))
    requires
        width > 0,
    ensures
        cell.0 == index as int % width as int,
        cell.1 == index as int / width as int,
{
    if index >= 0 {
        return (index % width, index / width);
    }
    let magnitude: i128 = -(index as i128);
    let wide_width = width as i128;
    let quotient = magnitude / wide_width;
    let remainder = magnitude % wide_width;
    proof {
        vstd::arithmetic::div_mod::lemma_fundamental_div_mod(magnitude as int, wide_width as int);
        assert(0 <= quotient <= magnitude) by (nonlinear_arith)
            requires
                quotient == magnitude / wide_width,
                magnitude >= 0,
                wide_width >= 1,
        ;
    }
    if remainder == 0 {
        proof {
            assert(index as int == (-quotient) * width + 0) by (nonlinear_arith)
                requires
                    magnitude == wide_width * quotient + remainder,
                    remainder == 0,
                    magnitude == -index,
                    wide_width == width,
            ;
            vstd::arithmetic::div_mod::lemma_fundamental_div_mod_converse(
                index as int,
                width as int,
                -quotient,
                0,
            );
        }
        (0, (-quotient) as i64)
    } else {
        proof {
            assert(index as int == (-quotient - 1) * width + (width - remainder)) by (nonlinear_arith)
                requires
                    magnitude == wide_width * quotient + remainder,
                    magnitude == -index,
                    wide_width == width,
            ;
            vstd::arithmetic::div_mod::lemma_fundamental_div_mod_converse(
                index as int,
                width as int,
                -quotient - 1,
                width - remainder,
            );
            assert(quotient * wide_width <= magnitude - 1) by (nonlinear_arith)
                requires
                    magnitude == wide_width * quotient + remainder,
                    remainder >= 1,
            ;
            assert(wide_width >= 2);
            assert(quotient * 2 <= quotient * wide_width) by (nonlinear_arith)
                requires
                    quotient >= 0,
                    wide_width >= 2,
            ;
        }
        ((width as i128 - remainder) as i64, (-quotient - 1) as i64)
    }
}

/// The grid cells `(x, y)` of the tokens `ids` of a grid `width` cells wide.
pub fn grid_cells(ids: &Vec<i64>, width: i64) -> (cells: Vec<(i64, i64)>)
    requires
        width > 0,
    ensures
        cells@.len() == ids@.len(),
        forall|k: int|
            0 <= k < ids@.len() ==> #[trigger] cells@[k] == (
                (ids@[k] as int % width as int) as i64,
                (ids@[k] as int / width as int) as i64,
            ),
{
    let mut cells: Vec<(i64, i64)> = Vec::new();
    let mut k: usize = 0;
    while k < ids.len()
        invariant
            width > 0,
            k <= ids@.len(),
            cells@.len() == k,
            forall|m: int|
                0 <= m < k ==> #[trigger] cells@[m] == (
                    (ids@[m] as int % width as int) as i64,
                    (ids@[m] as int / width as int) as i64,
                ),
        decreases ids@.len() - k,
    {
        let cell = grid_cell(ids[k], width);
        cells.push(cell);
        k = k + 1;
    }
    cells
}

/// A grid cell gives its token back: `x + y * width == index`, with
/// `0 <= x < width`.
pub proof fn lemma_grid_cell_round_trip(index: int, width: int)
    requires
        width > 0,
    ensures
        index % width + (index / width) * width == index,
        0 <= index % width < width,
{
    vstd::arithmetic::div_mod::lemma_fundamental_div_mod(index, width);
    assert(width * (index / width) == (index / width) * width) by (nonlinear_arith);
}

/// The coarse inputs are accepted exactly when both features have rank 3,
/// share their batch and channel extents, each token count is the area of
/// its own grid (`L == h0 * w0` for the left image, `S == h1 * w1` for the
/// right one, so images of different sizes are matched), and each given
/// mask is `[N, L]` or `[N, S]`.
pub proof fn lemma_coarse_inputs_accepted_iff(
    feat_c0: Seq<i64>,
    feat_c1: Seq<i64>,
    hw0_c: (i64, i64),
    hw1_c: (i64, i64),
    mask_c0: Option<Seq<i64>>,
    mask_c1: Option<Seq<i64>>,
)
    ensures
        coarse_matching_inputs_check(feat_c0, feat_c1, hw0_c, hw1_c, mask_c0, mask_c1) is Ok <==> {
            &&& feat_c0.len() == 3
            &&& feat_c1.len() == 3
            &&& feat_c0[0] == feat_c1[0]
            &&& feat_c0[2] == feat_c1[2]
            &&& feat_c0[1] as int == hw0_c.0 as int * hw0_c.1 as int
            &&& feat_c1[1] as int == hw1_c.0 as int * hw1_c.1 as int
            &&& (mask_c0 matches Some(m) ==> m.len() == 2 && m[0] == feat_c0[0] && m[1] == feat_c0[1])
            &&& (mask_c1 matches Some(m) ==> m.len() == 2 && m[0] == feat_c1[0] && m[1] == feat_c1[1])
        },
{
    if let Some(m) = mask_c0 {
        if m.len() == 2 && m[0] == feat_c0[0] && m[1] == feat_c0[1] {
            assert(m =~= seq![feat_c0[0], feat_c0[1]]);
        }
    }
    if let Some(m) = mask_c1 {
        if m.len() == 2 && m[0] == feat_c1[0] && m[1] == feat_c1[1] {
            assert(m =~= seq![feat_c1[0], feat_c1[1]]);
        }
    }
}

/// A feature pair that fails only on the grid areas is rejected with
/// `CoarseMatchingGrid`: a token count that is not the area of its own grid.
pub proof fn lemma_coarse_grid_mismatch_rejected(
    feat_c0: Seq<i64>,
    feat_c1: Seq<i64>,
    hw0_c: (i64, i64),
    hw1_c: (i64, i64),
    mask_c0: Option<Seq<i64>>,
    mask_c1: Option<Seq<i64>>,
)
    requires
        feat_c0.len() == 3,
        feat_c1.len() == 3,
        feat_c0[0] == feat_c1[0],
        feat_c0[2] == feat_c1[2],
        feat_c0[1] as int != hw0_c.0 as int * hw0_c.1 as int
            || feat_c1[1] as int != hw1_c.0 as int * hw1_c.1 as int,
    ensures
        coarse_matching_inputs_check(feat_c0, feat_c1, hw0_c, hw1_c, mask_c0, mask_c1)
            == Err::<(), LoftrError>(LoftrError::InvalidConfig(ConfigError::CoarseMatchingGrid)),
{
}

/// A mask, where one is given, has shape `[batch, length]`.
pub open spec fn mask_has_shape(mask: Option<Seq<i64>>, batch: i64, length: i64) -> bool {
    match mask {
        None => true,
        Some(m) => m.len() == 2 && m[0] == batch && m[1] == length,
    }
}

/// Each rejection names the first check that failed: the ranks, then the
/// batch and channel extents, then the grid areas, then the left mask and
/// last the right mask, which reports the batch and token count it should
/// have had.
pub proof fn lemma_coarse_rejection_names_failed_check(
    feat_c0: Seq<i64>,
    feat_c1: Seq<i64>,
    hw0_c: (i64, i64),
    hw1_c: (i64, i64),
    mask_c0: Option<Seq<i64>>,
    mask_c1: Option<Seq<i64>>,
)
    ensures
        feat_c0.len() != 3 || feat_c1.len() != 3 ==> coarse_matching_inputs_check(
            feat_c0,
            feat_c1,
            hw0_c,
            hw1_c,
            mask_c0,
            mask_c1,
        ) == Err::<(), LoftrError>(LoftrError::InvalidConfig(ConfigError::CoarseMatchingRank)),
        feat_c0.len() == 3 && feat_c1.len() == 3 && (feat_c0[0] != feat_c1[0] || feat_c0[2] != feat_c1[2])
            ==> coarse_matching_inputs_check(feat_c0, feat_c1, hw0_c, hw1_c, mask_c0, mask_c1) == Err::<
            (),
            LoftrError,
        >(LoftrError::InvalidConfig(ConfigError::CoarseMatchingBatchChannel)),
        ({
            &&& feat_c0.len() == 3
            &&& feat_c1.len() == 3
            &&& feat_c0[0] == feat_c1[0]
            &&& feat_c0[2] == feat_c1[2]
            &&& feat_c0[1] as int == hw0_c.0 as int * hw0_c.1 as int
            &&& feat_c1[1] as int == hw1_c.0 as int * hw1_c.1 as int
        }) ==> {
            &&& (!mask_has_shape(mask_c0, feat_c0[0], feat_c0[1]) ==> coarse_matching_inputs_check(feat_c0, feat_c1, hw0_c, hw1_c, mask_c0, mask_c1) == Err::<
                (),
                LoftrError,
            >(
                LoftrError::InvalidConfig(
                    ConfigError::CoarseMaskShape { label: TensorName::MaskC0, batch: feat_c0[0], length: feat_c0[1] },
                ),
            ))
            &&& (mask_has_shape(mask_c0, feat_c0[0], feat_c0[1]) && !mask_has_shape(mask_c1, feat_c1[0], feat_c1[1])
                ==> coarse_matching_inputs_check(feat_c0, feat_c1, hw0_c, hw1_c, mask_c0, mask_c1) == Err::<
                (),
                LoftrError,
            >(
                LoftrError::InvalidConfig(
                    ConfigError::CoarseMaskShape { label: TensorName::MaskC1, batch: feat_c1[0], length: feat_c1[1] },
                ),
            ))
        },
{
    if let Some(m) = mask_c0 {
        if m.len() == 2 && m[0] == feat_c0[0] && m[1] == feat_c0[1] {
            assert(m =~= seq![feat_c0[0], feat_c0[1]]);
        }
    }
    if let Some(m) = mask_c1 {
        if m.len() == 2 && m[0] == feat_c1[0] && m[1] == feat_c1[1] {
            assert(m =~= seq![feat_c1[0], feat_c1[1]]);
        }
    }
}

} // verus!
