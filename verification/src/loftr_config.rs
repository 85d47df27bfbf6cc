use vstd::prelude::*;

verus! {

/// Backbone variants supported by this crate.
#[derive(Debug, Clone, Copy, PartialEq, Eq, Structural)]
pub enum BackboneType {
    /// The `ResNetFPN` backbone used by the reference `LoFTR` models.
    ResNetFpn,
}

/// Backbone parameters for the `ResNetFPN` encoder used by `LoFTR`.
#[derive(Debug, Clone, Copy, PartialEq, Eq)]
pub struct ResNetFpnConfig {
    /// Channel count produced by the initial stem convolution.
    pub initial_dim: i64,
    /// Output channel counts for the three residual stages.
    pub block_dims: [i64; 3],
}

/// Attention implementations supported by the `LoFTR` transformers.
#[derive(Debug, Clone, Copy, PartialEq, Eq, Structural)]
pub enum AttentionType {
    /// Linear attention used by the default `LoFTR` presets.
    Linear,
    /// Full attention supported by the internal transformer implementation.
    Full,
}

/// Transformer layer ordering used by `LoFTR` encoder stacks.
#[derive(Debug, Clone, Copy, PartialEq, Eq, Structural)]
pub enum TransformerLayer {
    /// Attend within the same feature stream.
    SelfAttention,
    /// Attend across the left and right feature streams.
    CrossAttention,
}

/// Transformer parameters shared by `LoFTR` coarse and fine stages.
#[derive(Debug, PartialEq, Eq)]
pub struct TransformerConfig {
    /// Token embedding width.
    pub d_model: i64,
    /// Feed-forward hidden width inside each encoder layer.
    pub d_ffn: i64,
    /// Number of attention heads.
    pub nhead: i64,
    /// Ordered encoder stage pattern, usually alternating self and cross attention.
    pub layers: Vec<TransformerLayer>,
    /// Attention implementation used by each encoder layer.
    pub attention: AttentionType,
    /// Whether to use Kornia's temperature bug-fix behavior in positional encoding.
    pub temp_bug_fix: bool,
}

/// Coarse matcher implementations supported by this crate.
#[derive(Debug, Clone, Copy, PartialEq, Eq, Structural)]
pub enum MatchType {
    /// Dual-softmax matching from the reference `LoFTR` models.
    DualSoftmax,
}

/// An exact decimal number, `mantissa * 10^(-scale)`.
///
/// Real-valued parameters of the configuration are held in this form; they
/// become floating-point numbers only where a tensor computation uses them.
#[derive(Debug, Clone, Copy, PartialEq, Eq, Structural)]
pub struct Decimal {
    pub mantissa: i64,
    pub scale: u32,
}

/// Matching parameters for the coarse `LoFTR` correspondence stage.
#[derive(Debug, Clone, Copy, PartialEq, Eq, Structural)]
pub struct MatchCoarseConfig {
    /// Confidence threshold applied before mutual-nearest filtering.
    pub thr: Decimal,
    /// Number of border cells to suppress on each coarse feature map edge.
    pub border_rm: i64,
    /// Coarse matcher implementation to use.
    pub match_type: MatchType,
    /// Dual-softmax temperature scaling factor.
    pub dsmax_temperature: Decimal,
    /// Sinkhorn iteration count from the reference config.
    pub skh_iters: i64,
    /// Initial Sinkhorn bin score from the reference config.
    pub skh_init_bin_score: Decimal,
    /// Whether Sinkhorn prefiltering is enabled in the reference config.
    pub skh_prefilter: bool,
    /// Training-time coarse supervision percentage from the reference config.
    pub train_coarse_percent: Decimal,
    /// Minimum padding count for training-time coarse supervision.
    pub train_pad_num_gt_min: i64,
}

/// Transformer parameters for the fine matching refinement stage.
#[derive(Debug, PartialEq, Eq)]
pub struct FineConfig {
    /// Token embedding width.
    pub d_model: i64,
    /// Feed-forward hidden width inside each encoder layer.
    pub d_ffn: i64,
    /// Number of attention heads.
    pub nhead: i64,
    /// Ordered encoder stage pattern for the fine transformer.
    pub layers: Vec<TransformerLayer>,
    /// Attention implementation used by each encoder layer.
    pub attention: AttentionType,
}

/// High-level `LoFTR` model configuration.
///
/// Most users should start from [`LoftrConfig::outdoor`] and only override
/// fields when matching a known reference setup.
#[derive(Debug, PartialEq, Eq)]
pub struct LoftrConfig {
    /// Backbone implementation to use.
    pub backbone_type: BackboneType,
    /// Output stride pair `(coarse_stride, fine_stride)`.
    pub resolution: (i64, i64),
    /// Fine-stage local window size in feature-grid cells.
    pub fine_window_size: i64,
    /// Whether fine matching concatenates coarse token features before projection.
    pub fine_concat_coarse_feat: bool,
    /// ResNet-FPN backbone parameters.
    pub resnetfpn: ResNetFpnConfig,
    /// Coarse transformer parameters.
    pub coarse: TransformerConfig,
    /// Coarse matching parameters.
    pub match_coarse: MatchCoarseConfig,
    /// Fine transformer parameters.
    pub fine: FineConfig,
}

/// The content of a [`TransformerConfig`].
#[verifier::ext_equal]
pub struct TransformerConfigView {
    pub d_model: i64,
    pub d_ffn: i64,
    pub nhead: i64,
    pub layers: Seq<TransformerLayer>,
    pub attention: AttentionType,
    pub temp_bug_fix: bool,
}

/// The content of a [`FineConfig`].
#[verifier::ext_equal]
pub struct FineConfigView {
    pub d_model: i64,
    pub d_ffn: i64,
    pub nhead: i64,
    pub layers: Seq<TransformerLayer>,
    pub attention: AttentionType,
}

/// The content of a [`LoftrConfig`].
#[verifier::ext_equal]
pub struct LoftrConfigView {
    pub backbone_type: BackboneType,
    pub resolution: (i64, i64),
    pub fine_window_size: i64,
    pub fine_concat_coarse_feat: bool,
    pub initial_dim: i64,
    pub block_dims: Seq<i64>,
    pub coarse: TransformerConfigView,
    pub match_coarse: MatchCoarseConfig,
    pub fine: FineConfigView,
}

impl View for TransformerConfig {
    type V = TransformerConfigView;

    open spec fn view(&self) -> TransformerConfigView {
        TransformerConfigView {
            d_model: self.d_model,
            d_ffn: self.d_ffn,
            nhead: self.nhead,
            layers: self.layers@,
            attention: self.attention,
            temp_bug_fix: self.temp_bug_fix,
        }
    }
}

impl View for FineConfig {
    type V = FineConfigView;

    open spec fn view(&self) -> FineConfigView {
        FineConfigView {
            d_model: self.d_model,
            d_ffn: self.d_ffn,
            nhead: self.nhead,
            layers: self.layers@,
            attention: self.attention,
        }
    }
}

impl View for LoftrConfig {
    type V = LoftrConfigView;

    open spec fn view(&self) -> LoftrConfigView {
        LoftrConfigView {
            backbone_type: self.backbone_type,
            resolution: self.resolution,
            fine_window_size: self.fine_window_size,
            fine_concat_coarse_feat: self.fine_concat_coarse_feat,
            initial_dim: self.resnetfpn.initial_dim,
            block_dims: self.resnetfpn.block_dims@,
            coarse: self.coarse@,
            match_coarse: self.match_coarse,
            fine: self.fine@,
        }
    }
}

/// `count` layers that alternate self and cross attention, starting with self attention.
pub open spec fn alternating_layers(count: nat) -> Seq<TransformerLayer> {
    Seq::new(
        count,
        |i: int|
            if i % 2 == 0 {
                TransformerLayer::SelfAttention
            } else {
                TransformerLayer::CrossAttention
            },
    )
}

/// The outdoor preset.
pub open spec fn outdoor_view() -> LoftrConfigView {
    LoftrConfigView {
        backbone_type: BackboneType::ResNetFpn,
        resolution: (8, 2),
        fine_window_size: 5,
        fine_concat_coarse_feat: true,
        initial_dim: 128,
        block_dims: seq![128, 196, 256],
        coarse: TransformerConfigView {
            d_model: 256,
            d_ffn: 256,
            nhead: 8,
            layers: alternating_layers(8),
            attention: AttentionType::Linear,
            temp_bug_fix: false,
        },
        match_coarse: MatchCoarseConfig {
            thr: Decimal { mantissa: 2, scale: 1 },
            border_rm: 2,
            match_type: MatchType::DualSoftmax,
            dsmax_temperature: Decimal { mantissa: 1, scale: 1 },
            skh_iters: 3,
            skh_init_bin_score: Decimal { mantissa: 1, scale: 0 },
            skh_prefilter: true,
            train_coarse_percent: Decimal { mantissa: 4, scale: 1 },
            train_pad_num_gt_min: 200,
        },
        fine: FineConfigView {
            d_model: 128,
            d_ffn: 128,
            nhead: 8,
            layers: alternating_layers(2),
            attention: AttentionType::Linear,
        },
    }
}

/// The indoor preset with the temperature fix: the outdoor preset with
/// `coarse.temp_bug_fix` set, and nothing else changed.
pub open spec fn indoor_new_view() -> LoftrConfigView {
    let base = outdoor_view();
    LoftrConfigView {
        coarse: TransformerConfigView { temp_bug_fix: true, ..base.coarse },
        ..base
    }
}

fn alternating_layer_vec(count: usize) -> (layers: Vec<TransformerLayer>)
    ensures
        layers@ == alternating_layers(count as nat),
{
    let mut layers: Vec<TransformerLayer> = Vec::new();
    let mut index: usize = 0;
    while index < count
        invariant
            index <= count,
            layers@ == alternating_layers(index as nat),
        decreases count - index,
    {
        if index % 2 == 0 {
            layers.push(TransformerLayer::SelfAttention);
        } else {
            layers.push(TransformerLayer::CrossAttention);
        }
        index = index + 1;
        assert(layers@ =~= alternating_layers(index as nat));
    }
    layers
}

impl LoftrConfig {
    /// Returns the default outdoor `LoFTR` preset used by this crate.
    ///
    /// This is also the [`Default`] configuration.
    pub fn outdoor() -> (config: Self)
        ensures
            config@ == outdoor_view(),
    {
        let config = Self {
            backbone_type: BackboneType::ResNetFpn,
            resolution: (8, 2),
            fine_window_size: 5,
            fine_concat_coarse_feat: true,
            resnetfpn: ResNetFpnConfig { initial_dim: 128, block_dims: [128, 196, 256] },
            coarse: TransformerConfig {
                d_model: 256,
                d_ffn: 256,
                nhead: 8,
                layers: alternating_layer_vec(8),
                attention: AttentionType::Linear,
                temp_bug_fix: false,
            },
            match_coarse: MatchCoarseConfig {
                thr: Decimal { mantissa: 2, scale: 1 },
                border_rm: 2,
                match_type: MatchType::DualSoftmax,
                dsmax_temperature: Decimal { mantissa: 1, scale: 1 },
                skh_iters: 3,
                skh_init_bin_score: Decimal { mantissa: 1, scale: 0 },
                skh_prefilter: true,
                train_coarse_percent: Decimal { mantissa: 4, scale: 1 },
                train_pad_num_gt_min: 200,
            },
            fine: FineConfig {
                d_model: 128,
                d_ffn: 128,
                nhead: 8,
                layers: alternating_layer_vec(2),
                attention: AttentionType::Linear,
            },
        };
        assert(config.resnetfpn.block_dims@ =~= seq![128i64, 196, 256]);
        config
    }

    /// Returns the legacy indoor `LoFTR` preset used by Kornia's shared fixtures,
    /// which is the outdoor preset.
    pub fn indoor() -> (config: Self)
        ensures
            config@ == outdoor_view(),
    {
        Self::outdoor()
    }

    /// Returns the indoor `LoFTR` preset with Kornia's temperature fix enabled.
    pub fn indoor_new() -> (config: Self)
        ensures
            config@ == indoor_new_view(),
    {
        let mut config = Self::indoor();
        config.coarse.temp_bug_fix = true;
        config
    }
}

/// A copy of a layer pattern.
pub fn copy_layers(layers: &Vec<TransformerLayer>) -> (copy: Vec<TransformerLayer>)
    ensures
        copy@ == layers@,
{
    let mut copy: Vec<TransformerLayer> = Vec::new();
    let mut index: usize = 0;
    while index < layers.len()
        invariant
            index <= layers.len(),
            copy@ == layers@.take(index as int),
        decreases layers.len() - index,
    {
        copy.push(layers[index]);
        index = index + 1;
        assert(copy@ =~= layers@.take(index as int));
    }
    assert(layers@.take(layers.len() as int) =~= layers@);
    copy
}

impl Clone for TransformerConfig {
    fn clone(&self) -> (copy: Self)
        ensures
            copy@ == self@,
    {
        TransformerConfig {
            d_model: self.d_model,
            d_ffn: self.d_ffn,
            nhead: self.nhead,
            layers: copy_layers(&self.layers),
            attention: self.attention,
            temp_bug_fix: self.temp_bug_fix,
        }
    }
}

impl Clone for FineConfig {
    fn clone(&self) -> (copy: Self)
        ensures
            copy@ == self@,
    {
        FineConfig {
            d_model: self.d_model,
            d_ffn: self.d_ffn,
            nhead: self.nhead,
            layers: copy_layers(&self.layers),
            attention: self.attention,
        }
    }
}

impl Clone for LoftrConfig {
    fn clone(&self) -> (copy: Self)
        ensures
            copy@ == self@,
    {
        LoftrConfig {
            backbone_type: self.backbone_type,
            resolution: self.resolution,
            fine_window_size: self.fine_window_size,
            fine_concat_coarse_feat: self.fine_concat_coarse_feat,
            resnetfpn: ResNetFpnConfig {
                initial_dim: self.resnetfpn.initial_dim,
                block_dims: self.resnetfpn.block_dims,
            },
            coarse: self.coarse.clone(),
            match_coarse: self.match_coarse,
            fine: self.fine.clone(),
        }
    }
}

impl Default for LoftrConfig {
    fn default() -> (config: Self)
        ensures
            config@ == outdoor_view(),
    {
        Self::outdoor()
    }
}

/// The indoor-with-fix preset differs from the outdoor (and indoor) preset in
/// `coarse.temp_bug_fix` alone: it is set there and clear in the outdoor one.
pub proof fn lemma_indoor_new_only_flips_temp_bug_fix()
    ensures
        indoor_new_view().coarse.temp_bug_fix,
        !outdoor_view().coarse.temp_bug_fix,
        indoor_new_view() == (LoftrConfigView {
            coarse: TransformerConfigView {
                temp_bug_fix: indoor_new_view().coarse.temp_bug_fix,
                ..outdoor_view().coarse
            },
            ..outdoor_view()
        }),
        indoor_new_view().fine == outdoor_view().fine,
        indoor_new_view().match_coarse == outdoor_view().match_coarse,
        indoor_new_view().backbone_type == outdoor_view().backbone_type,
{
}

} // verus!
