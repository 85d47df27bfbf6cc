use vstd::prelude::*;

use crate::error::{ConfigError, LoftrError, TensorName};
use crate::index_tensor::{
    broadcast_at, broadcast_len, broadcastable, flattened_ids, linear_id, IndexTensor,
};
use crate::loftr_config::LoftrConfig;

verus! {

/// What fine preprocessing reads of the coarse matches: the fine and coarse
/// map extents of the left image and the batch, left-token and right-token
/// indexes of the matches.
pub struct FinePreprocessData {
    pub hw0_f: (i64, i64),
    pub hw0_c: (i64, i64),
    pub b_ids: IndexTensor,
    pub i_ids: IndexTensor,
    pub j_ids: IndexTensor,
}

/// The fine-map cells per coarse cell, read along the height axis only.
pub open spec fn stride_of(hw0_f: (i64, i64), hw0_c: (i64, i64)) -> Result<i64, LoftrError> {
    if hw0_f.0 <= 0 || hw0_f.1 <= 0 || hw0_c.0 <= 0 || hw0_c.1 <= 0 {
        Err(LoftrError::InvalidConfig(ConfigError::FinePreprocessNonPositiveShape))
    } else if hw0_f.0 / hw0_c.0 <= 0 {
        Err(LoftrError::InvalidConfig(ConfigError::FinePreprocessNonPositiveStride))
    } else {
        Ok((hw0_f.0 / hw0_c.0) as i64)
    }
}

/// The extent of a rank-1 index tensor, or `IndexRank` for any other rank.
pub open spec fn index_extent(dims: Seq<i64>, label: TensorName) -> Result<i64, LoftrError> {
    if dims.len() != 1 {
        Err(LoftrError::InvalidConfig(ConfigError::IndexRank { label }))
    } else {
        Ok(dims[0])
    }
}

/// The number of matches: the common extent of the three index tensors.
pub open spec fn match_count_of(b_ids: Seq<i64>, i_ids: Seq<i64>, j_ids: Seq<i64>) -> Result<
    i64,
    LoftrError,
> {
    match index_extent(b_ids, TensorName::BIds) {
        Err(e) => Err(e),
        Ok(b_count) => match index_extent(i_ids, TensorName::IIds) {
            Err(e) => Err(e),
            Ok(i_count) => match index_extent(j_ids, TensorName::JIds) {
                Err(e) => Err(e),
                Ok(j_count) => if b_count != i_count || b_count != j_count {
                    Err(
                        LoftrError::InvalidConfig(
                            ConfigError::IndexLengthMismatch { b_count, i_count, j_count },
                        ),
                    )
                } else {
                    Ok(b_count)
                },
            },
        },
    }
}

/// The extent of a rank-1 index tensor; fails with `IndexRank` naming `label`.
pub fn first_dim(dims: &Vec<i64>, label: TensorName) -> (r: Result<i64, LoftrError>)
    ensures
        r == index_extent(dims@, label),
{
    if dims.len() != 1 {
        return Err(LoftrError::InvalidConfig(ConfigError::IndexRank { label }));
    }
    Ok(dims[0])
}

impl FinePreprocessData {
    /// The coarse-to-fine stride `hw0_f.0 / hw0_c.0`, taken from the height
    /// axis alone; all four extents must be positive and the stride too.
    pub fn stride(&self) -> (r: Result<i64, LoftrError>)
        ensures
            r == stride_of(self.hw0_f, self.hw0_c),
    {
        if self.hw0_f.0 <= 0 || self.hw0_f.1 <= 0 || self.hw0_c.0 <= 0 || self.hw0_c.1 <= 0 {
            return Err(LoftrError::InvalidConfig(ConfigError::FinePreprocessNonPositiveShape));
        }
        let stride_h = self.hw0_f.0 / self.hw0_c.0;
        if stride_h <= 0 {
            return Err(LoftrError::InvalidConfig(ConfigError::FinePreprocessNonPositiveStride));
        }
        Ok(stride_h)
    }

    /// The number of matches: each index tensor must have rank 1, and the
    /// three extents must agree.
    pub fn match_count(&self) -> (r: Result<i64, LoftrError>)
        ensures
            r == match_count_of(
                self.b_ids.shape_view(),
                self.i_ids.shape_view(),
                self.j_ids.shape_view(),
            ),
    {
        let batch_count = first_dim(self.b_ids.shape(), TensorName::BIds)?;
        let i_count = first_dim(self.i_ids.shape(), TensorName::IIds)?;
        let j_count = first_dim(self.j_ids.shape(), TensorName::JIds)?;
        if batch_count != i_count || batch_count != j_count {
            return Err(
                LoftrError::InvalidConfig(
                    ConfigError::IndexLengthMismatch { b_count: batch_count, i_count, j_count },
                ),
            );
        }
        Ok(batch_count)
    }
}

/// The parameters of fine preprocessing taken from the configuration.
#[derive(Debug, Clone, Copy, PartialEq, Eq, Structural)]
pub struct FineWindowSettings {
    /// Whether coarse token features are merged into the fine windows.
    pub cat_coarse_feat: bool,
    /// Side of the local window, positive and odd.
    pub window_size: i64,
    /// Coarse feature width, the input width of the down projection.
    pub d_model_c: i64,
    /// Fine feature width.
    pub d_model_f: i64,
}

/// The fine preprocessing parameters of `config`, or why there are none.
pub open spec fn fine_window_settings_of(config: LoftrConfig) -> Result<FineWindowSettings, LoftrError> {
    if config.fine_window_size <= 0 || config.fine_window_size % 2 == 0 {
        Err(
            LoftrError::InvalidConfig(
                ConfigError::WindowSizeNotPositiveOdd { window_size: config.fine_window_size },
            ),
        )
    } else {
        Ok(
            FineWindowSettings {
                cat_coarse_feat: config.fine_concat_coarse_feat,
                window_size: config.fine_window_size,
                d_model_c: config.coarse.d_model,
                d_model_f: config.fine.d_model,
            },
        )
    }
}

/// Reads the fine preprocessing parameters: the window size must be
/// positive and odd.
pub fn fine_window_settings(config: &LoftrConfig) -> (r: Result<FineWindowSettings, LoftrError>)
    ensures
        r == fine_window_settings_of(*config),
{
    if config.fine_window_size <= 0 || config.fine_window_size % 2 == 0 {
        return Err(
            LoftrError::InvalidConfig(
                ConfigError::WindowSizeNotPositiveOdd { window_size: config.fine_window_size },
            ),
        );
    }
    Ok(
        FineWindowSettings {
            cat_coarse_feat: config.fine_concat_coarse_feat,
            window_size: config.fine_window_size,
            d_model_c: config.coarse.d_model,
            d_model_f: config.fine.d_model,
        },
    )
}

impl FineWindowSettings {
    /// The cells per window, `window_size * window_size`.
    pub fn window_area(&self) -> (area: i64)
        requires
            self.window_size * self.window_size <= i64::MAX,
        ensures
            area == self.window_size * self.window_size,
    {
        proof {
            assert(self.window_size * self.window_size >= 0) by (nonlinear_arith);
        }
        self.window_size * self.window_size
    }

    /// The shape `[0, W * W, d_model_f]` of the windows when there is no match.
    pub fn empty_windows_shape(&self) -> (shape: Vec<i64>)
        requires
            self.window_size * self.window_size <= i64::MAX,
        ensures
            shape@ == seq![0i64, (self.window_size * self.window_size) as i64, self.d_model_f],
    {
        let area = self.window_area();
        let mut shape: Vec<i64> = Vec::new();
        shape.push(0);
        shape.push(area);
        shape.push(self.d_model_f);
        assert(shape@ =~= seq![0i64, (self.window_size * self.window_size) as i64, self.d_model_f]);
        shape
    }
}

/// Check of a fine feature map: `[N, C, H, W]` with `expected` channels.
pub open spec fn fine_map_check(dims: Seq<i64>, label: TensorName, expected: i64) -> Result<
    (),
    LoftrError,
> {
    if dims.len() != 4 {
        Err(LoftrError::InvalidConfig(ConfigError::FineMapRank { label }))
    } else if dims[1] != expected {
        Err(LoftrError::InvalidConfig(ConfigError::FineMapChannels { label, expected, got: dims[1] }))
    } else {
        Ok(())
    }
}

/// Checks that a fine feature map is `[N, C, H, W]` with `expected_channels` channels.
pub fn validate_fine_map(dims: &Vec<i64>, label: TensorName, expected_channels: i64) -> (r: Result<
    (),
    LoftrError,
>)
    ensures
        r == fine_map_check(dims@, label, expected_channels),
{
    if dims.len() != 4 {
        return Err(LoftrError::InvalidConfig(ConfigError::FineMapRank { label }));
    }
    if dims[1] != expected_channels {
        return Err(
            LoftrError::InvalidConfig(
                ConfigError::FineMapChannels { label, expected: expected_channels, got: dims[1] },
            ),
        );
    }
    Ok(())
}

/// Checks that a coarse token sequence is `[N, L, C]`.
pub fn validate_coarse_sequence(dims: &Vec<i64>, label: TensorName) -> (r: Result<(), LoftrError>)
    ensures
        r == (if dims@.len() != 3 {
            Err(LoftrError::InvalidConfig(ConfigError::CoarseSequenceRank { label }))
        } else {
            Ok(())
        }),
{
    if dims.len() != 3 {
        return Err(LoftrError::InvalidConfig(ConfigError::CoarseSequenceRank { label }));
    }
    Ok(())
}

proof fn lemma_divisible_negation(a: int, b: int)
    requires
        b > 0,
        a % b == 0,
    ensures
        (-a) % b == 0,
        (-a) / b == -(a / b),
{
    let q = a / b;
    vstd::arithmetic::div_mod::lemma_fundamental_div_mod(a, b);
    assert(-a == (-q) * b + 0) by (nonlinear_arith)
        requires
            a == b * q + 0,
    ;
    vstd::arithmetic::div_mod::lemma_fundamental_div_mod_converse(-a, b, -q, 0);
}

/// How unfolded windows are regrouped: `[batch, channels, window_area,
/// positions]`, later permuted to `[batch, positions, window_area, channels]`.
#[derive(Debug, Clone, Copy, PartialEq, Eq, Structural)]
pub struct UnfoldLayout {
    pub batch: i64,
    pub channels: i64,
    pub window_area: i64,
    pub positions: i64,
}

/// The regrouping of an unfolded `[N, C * W * W, L]` tensor taken from a
/// `[N, C, H, W]` map, or why the unfolded shape does not fit.
pub open spec fn unfold_layout_of(feat: Seq<i64>, window_size: i64, unfolded: Seq<i64>) -> Result<
    UnfoldLayout,
    LoftrError,
> {
    let area: int = window_size * window_size;
    if unfolded.len() != 3 {
        Err(LoftrError::InvalidConfig(ConfigError::UnfoldRank))
    } else if (unfolded[1] as int) % area != 0 {
        Err(LoftrError::InvalidConfig(ConfigError::UnfoldArea { window_area: area as i64 }))
    } else if (unfolded[1] as int) / area != feat[1] {
        Err(
            LoftrError::InvalidConfig(
                ConfigError::UnfoldChannels { expected: feat[1], got: ((unfolded[1] as int) / area) as i64 },
            ),
        )
    } else {
        Ok(
            UnfoldLayout {
                batch: feat[0],
                channels: feat[1],
                window_area: area as i64,
                positions: unfolded[2],
            },
        )
    }
}

/// Checks the shape of the unfolded windows of a feature map against the
/// map's shape and returns how to regroup them.
pub fn unfold_layout(feat_dims: &Vec<i64>, window_size: i64, unfolded_dims: &Vec<i64>) -> (r: Result<
    UnfoldLayout,
    LoftrError,
>)
    requires
        feat_dims@.len() >= 2,
        window_size > 0,
        window_size * window_size <= i64::MAX,
    ensures
        r == unfold_layout_of(feat_dims@, window_size, unfolded_dims@),
{
    proof {
        assert(window_size * window_size > 0) by (nonlinear_arith)
            requires
                window_size > 0,
        ;
    }
    let window_area = window_size * window_size;
    if unfolded_dims.len() != 3 {
        return Err(LoftrError::InvalidConfig(ConfigError::UnfoldRank));
    }
    let stacked = unfolded_dims[1] as i128;
    let wide_area = window_area as i128;
    let magnitude: i128 = if stacked >= 0 {
        stacked
    } else {
        -stacked
    };
    proof {
        if stacked < 0 {
            if (stacked as int) % (wide_area as int) == 0 {
                lemma_divisible_negation(stacked as int, wide_area as int);
            }
            if (magnitude as int) % (wide_area as int) == 0 {
                lemma_divisible_negation(magnitude as int, wide_area as int);
            }
        }
    }
    if magnitude % wide_area != 0 {
        return Err(LoftrError::InvalidConfig(ConfigError::UnfoldArea { window_area }));
    }
    let quotient = magnitude / wide_area;
    proof {
        assert(0 <= quotient <= magnitude) by (nonlinear_arith)
            requires
                quotient == magnitude / wide_area,
                magnitude >= 0,
                wide_area >= 1,
        ;
    }
    let channels_wide: i128 = if stacked >= 0 {
        quotient
    } else {
        -quotient
    };
    proof {
        if stacked < 0 {
            lemma_divisible_negation(magnitude as int, wide_area as int);
        }
    }
    let channels = channels_wide as i64;
    if channels != feat_dims[1] {
        return Err(
            LoftrError::InvalidConfig(
                ConfigError::UnfoldChannels { expected: feat_dims[1], got: channels },
            ),
        );
    }
    Ok(
        UnfoldLayout {
            batch: feat_dims[0],
            channels,
            window_area,
            positions: unfolded_dims[2],
        },
    )
}

/// Every flattened row `batch * per_batch + token` lies in `[0, rows)`.
pub open spec fn rows_in_range(
    batch_ids: Seq<i64>,
    token_ids: Seq<i64>,
    per_batch: int,
    rows: int,
) -> bool {
    &&& broadcastable(batch_ids, token_ids)
    &&& forall|k: int|
        0 <= k < broadcast_len(batch_ids, token_ids) ==> 0 <= #[trigger] linear_id(
            broadcast_at(batch_ids, k) as int,
            broadcast_at(token_ids, k) as int,
            per_batch,
        ) < rows
}

/// The shape checks made before rows are selected from a tensor whose first
/// two axes are flattened: the tensor must have rank `rank`, the index
/// tensors rank 1.
pub open spec fn row_selection_check(
    dims: Seq<i64>,
    rank: nat,
    rank_error: ConfigError,
    batch_ids: Seq<i64>,
    token_ids: Seq<i64>,
) -> Result<(), LoftrError> {
    if dims.len() != rank {
        Err(LoftrError::InvalidConfig(rank_error))
    } else if batch_ids.len() != 1 || token_ids.len() != 1 {
        Err(LoftrError::InvalidConfig(ConfigError::IndexTensorRank))
    } else {
        Ok(())
    }
}

/// Rows `batch_ids[k] * dims[1] + token_ids[k]` of a tensor of shape `dims`
/// whose first two axes are flattened, once the shape checks pass.
fn select_rows(
    dims: &Vec<i64>,
    rank: usize,
    rank_error: ConfigError,
    batch_ids: &IndexTensor,
    token_ids: &IndexTensor,
) -> (r: Result<Vec<i64>, LoftrError>)
    requires
        rank >= 2,
        dims@.len() == rank && batch_ids.shape_view().len() == 1 && token_ids.shape_view().len()
            == 1 ==> rows_in_range(
            batch_ids.values_view(),
            token_ids.values_view(),
            dims@[1] as int,
            dims@[0] * dims@[1],
        ),
        dims@.len() == rank ==> dims@[0] * dims@[1] <= i64::MAX + 1,
    ensures
        match r {
            Err(e) => row_selection_check(
                dims@,
                rank as nat,
                rank_error,
                batch_ids.shape_view(),
                token_ids.shape_view(),
            ) == Err::<(), LoftrError>(e),
            Ok(ids) => {
                &&& row_selection_check(
                    dims@,
                    rank as nat,
                    rank_error,
                    batch_ids.shape_view(),
                    token_ids.shape_view(),
                ) is Ok
                &&& ids@.len() == broadcast_len(batch_ids.values_view(), token_ids.values_view())
                &&& forall|k: int|
                    0 <= k < ids@.len() ==> ids@[k] == linear_id(
                        broadcast_at(batch_ids.values_view(), k) as int,
                        broadcast_at(token_ids.values_view(), k) as int,
                        dims@[1] as int,
                    )
            },
        },
{
    if dims.len() != rank {
        return Err(LoftrError::InvalidConfig(rank_error));
    }
    if batch_ids.shape().len() != 1 {
        return Err(LoftrError::InvalidConfig(ConfigError::IndexTensorRank));
    }
    if token_ids.shape().len() != 1 {
        return Err(LoftrError::InvalidConfig(ConfigError::IndexTensorRank));
    }
    let ids = flattened_ids(batch_ids.values(), token_ids.values(), dims[1]);
    Ok(ids)
}

/// The rows of the windows `[N, L, W * W, C]`, flattened to `[N * L, W * W, C]`,
/// that hold the window of token `token_ids[k]` in batch `batch_ids[k]`.
///
/// Fails with `WindowsRank` unless the windows have rank 4, and with
/// `IndexTensorRank` unless both index tensors have rank 1.
pub fn window_row_ids(windows_dims: &Vec<i64>, batch_ids: &IndexTensor, token_ids: &IndexTensor) -> (r:
    Result<Vec<i64>, LoftrError>)
    requires
        windows_dims@.len() == 4 && batch_ids.shape_view().len() == 1
            && token_ids.shape_view().len() == 1 ==> rows_in_range(
            batch_ids.values_view(),
            token_ids.values_view(),
            windows_dims@[1] as int,
            windows_dims@[0] * windows_dims@[1],
        ),
        windows_dims@.len() == 4 ==> windows_dims@[0] * windows_dims@[1] <= i64::MAX + 1,
    ensures
        match r {
            Err(e) => row_selection_check(
                windows_dims@,
                4,
                ConfigError::WindowsRank,
                batch_ids.shape_view(),
                token_ids.shape_view(),
            ) == Err::<(), LoftrError>(e),
            Ok(ids) => {
                &&& row_selection_check(
                    windows_dims@,
                    4,
                    ConfigError::WindowsRank,
                    batch_ids.shape_view(),
                    token_ids.shape_view(),
                ) is Ok
                &&& ids@.len() == broadcast_len(batch_ids.values_view(), token_ids.values_view())
                &&& forall|k: int|
                    0 <= k < ids@.len() ==> ids@[k] == linear_id(
                        broadcast_at(batch_ids.values_view(), k) as int,
                        broadcast_at(token_ids.values_view(), k) as int,
                        windows_dims@[1] as int,
                    )
            },
        },
{
    select_rows(windows_dims, 4, ConfigError::WindowsRank, batch_ids, token_ids)
}

/// The rows of a coarse sequence `[N, L, C]`, flattened to `[N * L, C]`, that
/// hold token `token_ids[k]` of batch `batch_ids[k]`.
///
/// Fails with `SequenceRank` unless the sequence has rank 3, and with
/// `IndexTensorRank` unless both index tensors have rank 1.
pub fn sequence_row_ids(sequence_dims: &Vec<i64>, batch_ids: &IndexTensor, token_ids: &IndexTensor) -> (r:
    Result<Vec<i64>, LoftrError>)
    requires
        sequence_dims@.len() == 3 && batch_ids.shape_view().len() == 1
            && token_ids.shape_view().len() == 1 ==> rows_in_range(
            batch_ids.values_view(),
            token_ids.values_view(),
            sequence_dims@[1] as int,
            sequence_dims@[0] * sequence_dims@[1],
        ),
        sequence_dims@.len() == 3 ==> sequence_dims@[0] * sequence_dims@[1] <= i64::MAX + 1,
    ensures
        match r {
            Err(e) => row_selection_check(
                sequence_dims@,
                3,
                ConfigError::SequenceRank,
                batch_ids.shape_view(),
                token_ids.shape_view(),
            ) == Err::<(), LoftrError>(e),
            Ok(ids) => {
                &&& row_selection_check(
                    sequence_dims@,
                    3,
                    ConfigError::SequenceRank,
                    batch_ids.shape_view(),
                    token_ids.shape_view(),
                ) is Ok
                &&& ids@.len() == broadcast_len(batch_ids.values_view(), token_ids.values_view())
                &&& forall|k: int|
                    0 <= k < ids@.len() ==> ids@[k] == linear_id(
                        broadcast_at(batch_ids.values_view(), k) as int,
                        broadcast_at(token_ids.values_view(), k) as int,
                        sequence_dims@[1] as int,
                    )
            },
        },
{
    select_rows(sequence_dims, 3, ConfigError::SequenceRank, batch_ids, token_ids)
}

/// The stride counts the whole fine rows per coarse row: with all four
/// extents positive it is the `s` with `s * hw0_c.0 <= hw0_f.0 < (s + 1) *
/// hw0_c.0`, the widths play no part, and it is refused exactly when the fine
/// map has fewer rows than the coarse one. For heights that divide,
/// `stride * hw0_c.0 == hw0_f.0`.
pub proof fn lemma_stride_counts_fine_rows_per_coarse_row(hw0_f: (i64, i64), hw0_c: (i64, i64))
    requires
        hw0_f.0 > 0,
        hw0_f.1 > 0,
        hw0_c.0 > 0,
        hw0_c.1 > 0,
    ensures
        stride_of(hw0_f, hw0_c) is Err <==> hw0_f.0 < hw0_c.0,
        stride_of(hw0_f, hw0_c) matches Ok(s) ==> {
            &&& s * hw0_c.0 <= hw0_f.0 < (s + 1) * hw0_c.0
            &&& (hw0_f.0 % hw0_c.0 == 0 ==> s * hw0_c.0 == hw0_f.0)
            &&& s >= 1
        },
        stride_of(hw0_f, hw0_c) is Err ==> stride_of(hw0_f, hw0_c) == Err::<i64, LoftrError>(
            LoftrError::InvalidConfig(ConfigError::FinePreprocessNonPositiveStride),
        ),
        forall|w_f: i64, w_c: i64|
            w_f > 0 && w_c > 0 ==> stride_of((hw0_f.0, w_f), (hw0_c.0, w_c)) == stride_of(hw0_f, hw0_c),
{
    let f = hw0_f.0 as int;
    let c = hw0_c.0 as int;
    vstd::arithmetic::div_mod::lemma_fundamental_div_mod(f, c);
    let q = f / c;
    let r = f % c;
    assert(0 <= r < c);
    assert(q * c == c * q) by (nonlinear_arith);
    assert((q + 1) * c == q * c + c) by (nonlinear_arith);
    if f < c {
        vstd::arithmetic::div_mod::lemma_basic_div(f, c);
    } else {
        vstd::arithmetic::div_mod::lemma_div_pos_is_pos(f, c);
        if q == 0 {
            assert(f == r);
        }
    }
}

/// A stride fails for non-positive extents and only then before the row count.
pub proof fn lemma_stride_rejects_non_positive_extents(hw0_f: (i64, i64), hw0_c: (i64, i64))
    requires
        hw0_f.0 <= 0 || hw0_f.1 <= 0 || hw0_c.0 <= 0 || hw0_c.1 <= 0,
    ensures
        stride_of(hw0_f, hw0_c) == Err::<i64, LoftrError>(
            LoftrError::InvalidConfig(ConfigError::FinePreprocessNonPositiveShape),
        ),
{
}

} // verus!
