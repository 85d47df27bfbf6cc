use vstd::prelude::*;

use crate::error::{ConfigError, LoftrError, TensorName};
use crate::numeric::{
    is_perfect_square, is_positive_square_root, lemma_positive_square_root_unique,
    perfect_square_root,
};
use crate::shape::{dims_equal, first_dim_or_zero, first_or_zero};

verus! {

/// The shapes of the tensors that fine matching receives, with the image and
/// fine-map extents of the left image.
pub struct FineMatchingShapes {
    pub hw0_i: (i64, i64),
    pub hw0_f: (i64, i64),
    pub mkpts0_c: Vec<i64>,
    pub mkpts1_c: Vec<i64>,
    pub mconf: Vec<i64>,
    pub b_ids: Vec<i64>,
    pub scale1: Option<Vec<i64>>,
}

/// The content of [`FineMatchingShapes`].
pub struct FineMatchingShapesView {
    pub hw0_i: (i64, i64),
    pub hw0_f: (i64, i64),
    pub mkpts0_c: Seq<i64>,
    pub mkpts1_c: Seq<i64>,
    pub mconf: Seq<i64>,
    pub b_ids: Seq<i64>,
    pub scale1: Option<Seq<i64>>,
}

impl View for FineMatchingShapes {
    type V = FineMatchingShapesView;

    open spec fn view(&self) -> FineMatchingShapesView {
        FineMatchingShapesView {
            hw0_i: self.hw0_i,
            hw0_f: self.hw0_f,
            mkpts0_c: self.mkpts0_c@,
            mkpts1_c: self.mkpts1_c@,
            mconf: self.mconf@,
            b_ids: self.b_ids@,
            scale1: match self.scale1 {
                Some(dims) => Some(dims@),
                None => None,
            },
        }
    }
}

/// The fine matcher: refines coarse matches inside local windows.
#[derive(Debug, Default, Clone, Copy)]
pub struct FineMatching;

/// How the matched windows are laid out, as fine matching reads them.
#[derive(Debug, Clone, Copy, PartialEq, Eq, Structural)]
pub struct FineWindowLayout {
    /// Number of matches `M`.
    pub match_count: i64,
    /// Cells per window, `W * W`.
    pub window_area: i64,
    /// Feature channels `C`.
    pub channels: i64,
    /// Window side `W`.
    pub window_size: i64,
    /// Index of the cell whose left feature is compared with the right window.
    pub center: i64,
    /// Half the window side, which scales the normalized offset.
    pub radius: i64,
    /// Image pixels per fine-map cell along the height axis.
    pub scale: i64,
}

/// What fine matching does with validated inputs.
#[derive(Debug, Clone, Copy, PartialEq, Eq, Structural)]
pub enum FineRefinement {
    /// There is no match: the coarse points are returned unchanged.
    KeepCoarse,
    /// The right points are moved by the expected offset inside each window.
    Refine(FineWindowLayout),
}

/// Check of one tensor aligned with the matches: its first extent must be
/// `expected`; with `last`, it must be `[M, last]`, else `[M]`.
pub open spec fn aligned_check(dims: Seq<i64>, label: TensorName, expected: i64, last: Option<i64>) -> Result<
    (),
    LoftrError,
> {
    if first_or_zero(dims) != expected {
        Err(LoftrError::InvalidConfig(ConfigError::FineMatchingLengthMismatch { label, expected }))
    } else {
        match last {
            Some(extent) => if dims.len() != 2 || dims[1] != extent {
                Err(LoftrError::InvalidConfig(ConfigError::FineMatchingPointsLayout { label, last: extent }))
            } else {
                Ok(())
            },
            None => if dims.len() != 1 {
                Err(LoftrError::InvalidConfig(ConfigError::FineMatchingVectorLayout { label }))
            } else {
                Ok(())
            },
        }
    }
}

/// The first failing check of two, in order.
pub open spec fn first_failure(first: Result<(), LoftrError>, second: Result<(), LoftrError>) -> Result<
    (),
    LoftrError,
> {
    if first is Err {
        first
    } else {
        second
    }
}

/// The input checks of fine matching, in the order in which they are made.
pub open spec fn fine_match_inputs_check(
    feat_f0: Seq<i64>,
    feat_f1: Seq<i64>,
    data: FineMatchingShapesView,
) -> Result<(), LoftrError> {
    if feat_f0.len() != 3 || feat_f1.len() != 3 {
        Err(LoftrError::InvalidConfig(ConfigError::FineMatchingRank))
    } else if feat_f0 != feat_f1 {
        Err(LoftrError::InvalidConfig(ConfigError::FineMatchingShapeMismatch))
    } else if data.hw0_i.0 <= 0 || data.hw0_i.1 <= 0 || data.hw0_f.0 <= 0 || data.hw0_f.1 <= 0 {
        Err(LoftrError::InvalidConfig(ConfigError::FineMatchingNonPositiveShape))
    } else if data.hw0_i.0 % data.hw0_f.0 != 0 {
        Err(LoftrError::InvalidConfig(ConfigError::FineMatchingNonIntegerScale))
    } else {
        let m = feat_f0[0];
        first_failure(
            aligned_check(data.mkpts0_c, TensorName::Mkpts0C, m, Some(2)),
            first_failure(
                aligned_check(data.mkpts1_c, TensorName::Mkpts1C, m, Some(2)),
                first_failure(
                    aligned_check(data.mconf, TensorName::Mconf, m, None),
                    aligned_check(data.b_ids, TensorName::BIds, m, None),
                ),
            ),
        )
    }
}

/// The side of a square window of `window_area` cells, or why there is none.
pub open spec fn window_side(window_area: i64) -> Result<i64, LoftrError> {
    if window_area <= 0 {
        Err(LoftrError::InvalidConfig(ConfigError::WindowAreaNotPositive { window_area }))
    } else if !is_perfect_square(window_area as int) {
        Err(LoftrError::InvalidConfig(ConfigError::WindowAreaNotSquare { window_area }))
    } else {
        Ok((choose|root: int| is_positive_square_root(window_area as int, root)) as i64)
    }
}

/// What fine matching does with the given shapes.
pub open spec fn fine_refinement(feat_f0: Seq<i64>, feat_f1: Seq<i64>, data: FineMatchingShapesView) -> Result<
    FineRefinement,
    LoftrError,
> {
    match fine_match_inputs_check(feat_f0, feat_f1, data) {
        Err(e) => Err(e),
        Ok(_) => match window_side(feat_f0[1]) {
            Err(e) => Err(e),
            Ok(window_size) => if feat_f0[0] == 0 {
                Ok(FineRefinement::KeepCoarse)
            } else if data.scale1 matches Some(dims) && dims.len() != 1 {
                Err(LoftrError::InvalidConfig(ConfigError::FineMatchingScaleLayout))
            } else {
                Ok(
                    FineRefinement::Refine(
                        FineWindowLayout {
                            match_count: feat_f0[0],
                            window_area: feat_f0[1],
                            channels: feat_f0[2],
                            window_size,
                            center: (feat_f0[1] / 2) as i64,
                            radius: (window_size / 2) as i64,
                            scale: (data.hw0_i.0 / data.hw0_f.0) as i64,
                        },
                    ),
                )
            },
        },
    }
}

fn check_aligned(dims: &Vec<i64>, label: TensorName, expected: i64, last: Option<i64>) -> (r: Result<
    (),
    LoftrError,
>)
    ensures
        r == aligned_check(dims@, label, expected, last),
{
    if first_dim_or_zero(dims) != expected {
        return Err(LoftrError::InvalidConfig(ConfigError::FineMatchingLengthMismatch { label, expected }));
    }
    match last {
        Some(extent) => {
            if dims.len() != 2 || dims[1] != extent {
                return Err(LoftrError::InvalidConfig(ConfigError::FineMatchingPointsLayout { label, last: extent }));
            }
        },
        None => {
            if dims.len() != 1 {
                return Err(LoftrError::InvalidConfig(ConfigError::FineMatchingVectorLayout { label }));
            }
        },
    }
    Ok(())
}

/// Checks the shapes handed to fine matching: two `[M, WW, C]` feature
/// tensors of equal shape, positive extents, an integer scale between image
/// and fine map, `[M, 2]` points and `[M]` confidences and batch indexes.
pub fn validate_fine_match_inputs(feat_f0: &Vec<i64>, feat_f1: &Vec<i64>, data: &FineMatchingShapes) -> (r: Result<
    (),
    LoftrError,
>)
    ensures
        r == fine_match_inputs_check(feat_f0@, feat_f1@, data@),
{
    if feat_f0.len() != 3 || feat_f1.len() != 3 {
        return Err(LoftrError::InvalidConfig(ConfigError::FineMatchingRank));
    }
    if !dims_equal(feat_f0, feat_f1) {
        return Err(LoftrError::InvalidConfig(ConfigError::FineMatchingShapeMismatch));
    }
    if data.hw0_i.0 <= 0 || data.hw0_i.1 <= 0 || data.hw0_f.0 <= 0 || data.hw0_f.1 <= 0 {
        return Err(LoftrError::InvalidConfig(ConfigError::FineMatchingNonPositiveShape));
    }
    if data.hw0_i.0 % data.hw0_f.0 != 0 {
        return Err(LoftrError::InvalidConfig(ConfigError::FineMatchingNonIntegerScale));
    }
    let expected = feat_f0[0];
    check_aligned(&data.mkpts0_c, TensorName::Mkpts0C, expected, Some(2))?;
    check_aligned(&data.mkpts1_c, TensorName::Mkpts1C, expected, Some(2))?;
    check_aligned(&data.mconf, TensorName::Mconf, expected, None)?;
    check_aligned(&data.b_ids, TensorName::BIds, expected, None)?;
    Ok(())
}

/// The side of a square window of `window_area` cells: fails with
/// `WindowAreaNotPositive` or `WindowAreaNotSquare`.
pub fn perfect_square_side(window_area: i64) -> (r: Result<i64, LoftrError>)
    ensures
        r == window_side(window_area),
        r matches Ok(side) ==> is_positive_square_root(window_area as int, side as int),
{
    if window_area <= 0 {
        return Err(LoftrError::InvalidConfig(ConfigError::WindowAreaNotPositive { window_area }));
    }
    match perfect_square_root(window_area, "window area") {
        Ok(side) => {
            proof {
                let chosen = choose|root: int| is_positive_square_root(window_area as int, root);
                assert(is_positive_square_root(window_area as int, side as int));
                lemma_positive_square_root_unique(window_area as int, side as int, chosen);
            }
            Ok(side)
        },
        Err(_) => Err(LoftrError::InvalidConfig(ConfigError::WindowAreaNotSquare { window_area })),
    }
}

impl FineMatching {
    /// Decides what fine matching does with tensors of the given shapes:
    /// the checks of [`validate_fine_match_inputs`], then the window side,
    /// then, when there are matches, the layout of the per-batch scale.
    pub fn refinement(&self, feat_f0: &Vec<i64>, feat_f1: &Vec<i64>, data: &FineMatchingShapes) -> (r: Result<
        FineRefinement,
        LoftrError,
    >)
        ensures
            r == fine_refinement(feat_f0@, feat_f1@, data@),
    {
        validate_fine_match_inputs(feat_f0, feat_f1, data)?;
        let match_count = feat_f0[0];
        let window_area = feat_f0[1];
        let channels = feat_f0[2];
        let window_size = perfect_square_side(window_area)?;
        if match_count == 0 {
            return Ok(FineRefinement::KeepCoarse);
        }
        match &data.scale1 {
            Some(dims) => {
                if dims.len() != 1 {
                    return Err(LoftrError::InvalidConfig(ConfigError::FineMatchingScaleLayout));
                }
            },
            None => {},
        }
        Ok(
            FineRefinement::Refine(
                FineWindowLayout {
                    match_count,
                    window_area,
                    channels,
                    window_size,
                    center: window_area / 2,
                    radius: window_size / 2,
                    scale: data.hw0_i.0 / data.hw0_f.0,
                },
            ),
        )
    }
}

/// The window side is the positive square root of the window area whenever
/// that root exists, and only then: it agrees with [`perfect_square_root`].
pub proof fn lemma_window_side_is_square_root(window_area: i64)
    ensures
        window_side(window_area) is Ok <==> (window_area > 0 && is_perfect_square(window_area as int)),
        window_side(window_area) matches Ok(side) ==> is_positive_square_root(
            window_area as int,
            side as int,
        ),
{
    if window_area > 0 && is_perfect_square(window_area as int) {
        let root = choose|root: int| is_positive_square_root(window_area as int, root);
        assert(root * root == window_area);
        assert(root <= window_area) by (nonlinear_arith)
            requires
                root > 0,
                root * root == window_area,
        ;
    }
}

/// For an odd window side, the compared cell `window_area / 2` is the middle
/// cell of the window: `radius` rows down and `radius` columns across.
pub proof fn lemma_center_is_middle_cell(window_size: int)
    requires
        window_size > 0,
        window_size % 2 == 1,
    ensures
        (window_size * window_size) / 2 == (window_size / 2) * window_size + window_size / 2,
{
    let r = window_size / 2;
    assert(window_size == 2 * r + 1);
    assert(window_size * window_size == 2 * (r * window_size + r) + 1) by (nonlinear_arith)
        requires
            window_size == 2 * r + 1,
    ;
}

/// What a refinement layout means, in terms of the inputs: there are
/// matches, the window is a square of `window_size` cells per side holding
/// the `window_area` cells of each feature row, the compared cell and the
/// radius are the halves of the area and of the side, the channels are the
/// feature width, and `scale` image pixels make one fine-map cell along the
/// height axis: `scale * hw0_f.0 == hw0_i.0`.
pub proof fn lemma_refine_layout_meaning(feat_f0: Seq<i64>, feat_f1: Seq<i64>, data: FineMatchingShapesView)
    requires
        fine_refinement(feat_f0, feat_f1, data) matches Ok(FineRefinement::Refine(_)),
    ensures
        ({
            let layout = fine_refinement(feat_f0, feat_f1, data)->Ok_0->Refine_0;
            &&& feat_f0 == feat_f1
            &&& feat_f0.len() == 3
            &&& layout.match_count == feat_f0[0]
            &&& layout.match_count != 0
            &&& layout.window_area == feat_f0[1]
            &&& layout.channels == feat_f0[2]
            &&& layout.window_size > 0
            &&& layout.window_size * layout.window_size == layout.window_area
            &&& 2 * layout.center <= layout.window_area < 2 * layout.center + 2
            &&& 2 * layout.radius <= layout.window_size < 2 * layout.radius + 2
            &&& data.hw0_f.0 > 0
            &&& layout.scale * data.hw0_f.0 == data.hw0_i.0
        }),
{
    let layout = fine_refinement(feat_f0, feat_f1, data)->Ok_0->Refine_0;
    let i = data.hw0_i.0 as int;
    let f = data.hw0_f.0 as int;
    vstd::arithmetic::div_mod::lemma_fundamental_div_mod(i, f);
    assert((i / f) * f == f * (i / f)) by (nonlinear_arith);
    lemma_window_side_is_square_root(feat_f0[1]);
}

/// Without matches, shapes that pass the checks keep the coarse points; with
/// matches they are refined (unless the per-batch scale is not rank 1).
pub proof fn lemma_keep_coarse_exactly_without_matches(
    feat_f0: Seq<i64>,
    feat_f1: Seq<i64>,
    data: FineMatchingShapesView,
)
    requires
        fine_match_inputs_check(feat_f0, feat_f1, data) is Ok,
        window_side(feat_f0[1]) is Ok,
    ensures
        fine_refinement(feat_f0, feat_f1, data) == Ok::<FineRefinement, LoftrError>(
            FineRefinement::KeepCoarse,
        ) <==> feat_f0[0] == 0,
        feat_f0[0] != 0 && !(data.scale1 matches Some(d) && d.len() != 1) ==> fine_refinement(
            feat_f0,
            feat_f1,
            data,
        ) is Ok,
{
}

/// The feature and scale checks of fine matching, in order: both features
/// rank 3, then of equal shape, then positive image and fine extents, then
/// an image height that is a whole multiple of the fine-map height.
pub proof fn lemma_fine_checks_in_order(feat_f0: Seq<i64>, feat_f1: Seq<i64>, data: FineMatchingShapesView)
    ensures
        feat_f0.len() != 3 || feat_f1.len() != 3 ==> fine_match_inputs_check(feat_f0, feat_f1, data) == Err::<
            (),
            LoftrError,
        >(LoftrError::InvalidConfig(ConfigError::FineMatchingRank)),
        feat_f0.len() == 3 && feat_f1.len() == 3 && feat_f0 != feat_f1 ==> fine_match_inputs_check(
            feat_f0,
            feat_f1,
            data,
        ) == Err::<(), LoftrError>(LoftrError::InvalidConfig(ConfigError::FineMatchingShapeMismatch)),
        feat_f0.len() == 3 && feat_f0 == feat_f1 && (data.hw0_i.0 <= 0 || data.hw0_i.1 <= 0 || data.hw0_f.0 <= 0
            || data.hw0_f.1 <= 0) ==> fine_match_inputs_check(feat_f0, feat_f1, data) == Err::<(), LoftrError>(
            LoftrError::InvalidConfig(ConfigError::FineMatchingNonPositiveShape),
        ),
        feat_f0.len() == 3 && feat_f0 == feat_f1 && data.hw0_i.0 > 0 && data.hw0_i.1 > 0 && data.hw0_f.0 > 0
            && data.hw0_f.1 > 0 ==> (fine_match_inputs_check(feat_f0, feat_f1, data) == Err::<(), LoftrError>(
            LoftrError::InvalidConfig(ConfigError::FineMatchingNonIntegerScale),
        ) <==> data.hw0_i.0 % data.hw0_f.0 != 0),
{
}

} // verus!
