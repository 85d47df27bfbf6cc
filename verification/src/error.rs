use vstd::prelude::*;

verus! {

/// Names of the tensors and index vectors that the shape checks speak of.
#[derive(Debug, Clone, Copy, PartialEq, Eq, Structural)]
pub enum TensorName {
    FeatF0,
    FeatF1,
    FeatC0,
    FeatC1,
    Mkpts0C,
    Mkpts1C,
    Mconf,
    BIds,
    IIds,
    JIds,
    MaskC0,
    MaskC1,
    X,
    Source,
    Feat0,
    Feat1,
}

/// Rejections of a configuration or of tensor shapes handed between stages.
///
/// Each variant names one check; the values it carries are those that the
/// check computed or compared and that its caller does not hold already.
#[derive(Debug, Clone, PartialEq, Eq)]
pub enum ConfigError {
    NotPositive { label: String, value: i64 },
    NotPerfectSquare { label: String, value: i64 },
    FineMatchingRank,
    FineMatchingShapeMismatch,
    FineMatchingNonPositiveShape,
    FineMatchingNonIntegerScale,
    FineMatchingLengthMismatch { label: TensorName, expected: i64 },
    FineMatchingPointsLayout { label: TensorName, last: i64 },
    FineMatchingVectorLayout { label: TensorName },
    WindowAreaNotPositive { window_area: i64 },
    WindowAreaNotSquare { window_area: i64 },
    FineMatchingScaleLayout,
    FinePreprocessNonPositiveShape,
    FinePreprocessNonPositiveStride,
    IndexLengthMismatch { b_count: i64, i_count: i64, j_count: i64 },
    WindowSizeNotPositiveOdd { window_size: i64 },
    IndexRank { label: TensorName },
    FineMapRank { label: TensorName },
    FineMapChannels { label: TensorName, expected: i64, got: i64 },
    CoarseSequenceRank { label: TensorName },
    UnfoldRank,
    UnfoldArea { window_area: i64 },
    UnfoldChannels { expected: i64, got: i64 },
    WindowsRank,
    SequenceRank,
    IndexTensorRank,
    CoarseMatchingRank,
    CoarseMatchingBatchChannel,
    CoarseMatchingGrid,
    CoarseMaskShape { label: TensorName, batch: i64, length: i64 },
    AttentionRank,
    AttentionBatch { queries: i64, keys: i64, values: i64 },
    AttentionKeyValue,
    AttentionHead,
    AttentionMask { batch: i64, length: i64 },
    EncoderLayerDims { d_model: i64, nhead: i64 },
    EncoderSourceMismatch,
    FeatureDim { d_model: i64 },
    PositionEncodingDModel { d_model: i64 },
    PositionEncodingShape { height: i64, width: i64 },
    BackboneDims { initial_dim: i64, block_dims: [i64; 3] },
    BackboneResolution { coarse: i64, fine: i64 },
}

/// Rejections of user-facing inputs.
#[derive(Debug, Clone, Copy, PartialEq, Eq, Structural)]
pub enum InputError {
    SequenceRank { label: TensorName },
    PositionEncodingRank,
    PositionEncodingDModel { expected: i64, got: i64 },
    BackboneInput,
    ImageLayout,
}

/// Errors of the library.
#[derive(Debug, Clone, PartialEq, Eq)]
pub enum LoftrError {
    InvalidConfig(ConfigError),
    InvalidInput(InputError),
}

} // verus!
