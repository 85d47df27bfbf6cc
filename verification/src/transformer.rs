use vstd::prelude::*;

use crate::error::{ConfigError, InputError, LoftrError, TensorName};
use crate::loftr_config::{TransformerConfig, TransformerLayer};

verus! {

/// The head width of an encoder layer of width `d_model` with `nhead`
/// heads, or why there is none.
pub open spec fn head_dim_of(d_model: i64, nhead: i64) -> Result<i64, LoftrError> {
    if d_model <= 0 || nhead <= 0 || d_model % nhead != 0 {
        Err(LoftrError::InvalidConfig(ConfigError::EncoderLayerDims { d_model, nhead }))
    } else {
        Ok((d_model / nhead) as i64)
    }
}

/// The head width `d_model / nhead` of an encoder layer: both must be
/// positive and `nhead` must divide `d_model`.
pub fn encoder_head_dim(d_model: i64, nhead: i64) -> (r: Result<i64, LoftrError>)
    ensures
        r == head_dim_of(d_model, nhead),
        r matches Ok(dim) ==> dim * nhead == d_model,
{
    if d_model <= 0 || nhead <= 0 || d_model % nhead != 0 {
        return Err(LoftrError::InvalidConfig(ConfigError::EncoderLayerDims { d_model, nhead }));
    }
    let dim = d_model / nhead;
    proof {
        vstd::arithmetic::div_mod::lemma_fundamental_div_mod(d_model as int, nhead as int);
        assert(dim * nhead == nhead * dim) by (nonlinear_arith);
    }
    Ok(dim)
}

/// Check of a token sequence `[N, L, C]` handed to a transformer.
pub open spec fn sequence_check(dims: Seq<i64>, label: TensorName) -> Result<(), LoftrError> {
    if dims.len() != 3 {
        Err(LoftrError::InvalidInput(InputError::SequenceRank { label }))
    } else {
        Ok(())
    }
}

/// Checks that a token sequence has rank 3.
pub fn validate_sequence_tensor(dims: &Vec<i64>, label: TensorName) -> (r: Result<(), LoftrError>)
    ensures
        r == sequence_check(dims@, label),
{
    if dims.len() != 3 {
        return Err(LoftrError::InvalidInput(InputError::SequenceRank { label }));
    }
    Ok(())
}

/// The checks of an encoder layer on its query sequence `x` and the
/// sequence `source` it attends to.
pub open spec fn encoder_inputs_check(x: Seq<i64>, source: Seq<i64>) -> Result<(), LoftrError> {
    if sequence_check(x, TensorName::X) is Err {
        sequence_check(x, TensorName::X)
    } else if sequence_check(source, TensorName::Source) is Err {
        sequence_check(source, TensorName::Source)
    } else if x[0] != source[0] || x[2] != source[2] {
        Err(LoftrError::InvalidConfig(ConfigError::EncoderSourceMismatch))
    } else {
        Ok(())
    }
}

/// Checks the sequences handed to an encoder layer: both of rank 3, with
/// one batch extent and one feature width.
pub fn validate_encoder_inputs(x: &Vec<i64>, source: &Vec<i64>) -> (r: Result<(), LoftrError>)
    ensures
        r == encoder_inputs_check(x@, source@),
{
    validate_sequence_tensor(x, TensorName::X)?;
    validate_sequence_tensor(source, TensorName::Source)?;
    if x[0] != source[0] || x[2] != source[2] {
        return Err(LoftrError::InvalidConfig(ConfigError::EncoderSourceMismatch));
    }
    Ok(())
}

/// The checks of a feature transformer of width `d_model` on its two sequences.
pub open spec fn transformer_inputs_check(feat0: Seq<i64>, feat1: Seq<i64>, d_model: i64) -> Result<
    (),
    LoftrError,
> {
    if sequence_check(feat0, TensorName::Feat0) is Err {
        sequence_check(feat0, TensorName::Feat0)
    } else if sequence_check(feat1, TensorName::Feat1) is Err {
        sequence_check(feat1, TensorName::Feat1)
    } else if feat0[2] != d_model || feat1[2] != d_model {
        Err(LoftrError::InvalidConfig(ConfigError::FeatureDim { d_model }))
    } else {
        Ok(())
    }
}

/// Checks the sequences handed to a feature transformer: both of rank 3
/// with `d_model` features.
pub fn validate_transformer_inputs(feat0: &Vec<i64>, feat1: &Vec<i64>, d_model: i64) -> (r: Result<
    (),
    LoftrError,
>)
    ensures
        r == transformer_inputs_check(feat0@, feat1@, d_model),
{
    validate_sequence_tensor(feat0, TensorName::Feat0)?;
    validate_sequence_tensor(feat1, TensorName::Feat1)?;
    if feat0[2] != d_model || feat1[2] != d_model {
        return Err(LoftrError::InvalidConfig(ConfigError::FeatureDim { d_model }));
    }
    Ok(())
}

/// The check made when a feature transformer is built: each of its layers
/// checks the widths, so a transformer without layers checks nothing.
pub open spec fn transformer_config_check(config: TransformerConfig) -> Result<(), LoftrError> {
    if config.layers@.len() == 0 {
        Ok(())
    } else {
        match head_dim_of(config.d_model, config.nhead) {
            Err(e) => Err(e),
            Ok(_) => Ok(()),
        }
    }
}

/// Checks a transformer configuration the way building its layers does.
pub fn validate_transformer_config(config: &TransformerConfig) -> (r: Result<(), LoftrError>)
    ensures
        r == transformer_config_check(*config),
{
    if config.layers.len() == 0 {
        return Ok(());
    }
    encoder_head_dim(config.d_model, config.nhead)?;
    Ok(())
}

/// One of the two feature streams of a transformer.
#[derive(Debug, Clone, Copy, PartialEq, Eq, Structural)]
pub enum Stream {
    Left,
    Right,
}

/// One update: layer `layer` replaces stream `target` by its output for
/// queries from `target` and keys and values from `source`, each taken as
/// the steps before left them, with the masks of those streams.
#[derive(Debug, Clone, Copy, PartialEq, Eq, Structural)]
pub struct AttentionStep {
    pub layer: usize,
    pub target: Stream,
    pub source: Stream,
}

/// The two updates of a layer: a self-attention layer updates each stream
/// from itself; a cross-attention layer updates the left stream from the
/// right one, then the right stream from the updated left one.
pub open spec fn layer_steps(index: int, kind: TransformerLayer) -> Seq<AttentionStep> {
    match kind {
        TransformerLayer::SelfAttention => seq![
            AttentionStep { layer: index as usize, target: Stream::Left, source: Stream::Left },
            AttentionStep { layer: index as usize, target: Stream::Right, source: Stream::Right },
        ],
        TransformerLayer::CrossAttention => seq![
            AttentionStep { layer: index as usize, target: Stream::Left, source: Stream::Right },
            AttentionStep { layer: index as usize, target: Stream::Right, source: Stream::Left },
        ],
    }
}

/// The updates made by the layers `layers[0..count]`, in order.
pub open spec fn schedule(layers: Seq<TransformerLayer>, count: nat) -> Seq<AttentionStep>
    decreases count,
{
    if count == 0 {
        Seq::empty()
    } else {
        schedule(layers, (count - 1) as nat) + layer_steps(count - 1, layers[count - 1])
    }
}

/// The updates a feature transformer with layers `layers` makes, in order.
pub fn attention_schedule(layers: &Vec<TransformerLayer>) -> (steps: Vec<AttentionStep>)
    ensures
        steps@ == schedule(layers@, layers@.len()),
{
    let mut steps: Vec<AttentionStep> = Vec::new();
    let mut index: usize = 0;
    while index < layers.len()
        invariant
            index <= layers@.len(),
            steps@ == schedule(layers@, index as nat),
        decreases layers@.len() - index,
    {
        match layers[index] {
            TransformerLayer::SelfAttention => {
                steps.push(AttentionStep { layer: index, target: Stream::Left, source: Stream::Left });
                steps.push(AttentionStep { layer: index, target: Stream::Right, source: Stream::Right });
            },
            TransformerLayer::CrossAttention => {
                steps.push(AttentionStep { layer: index, target: Stream::Left, source: Stream::Right });
                steps.push(AttentionStep { layer: index, target: Stream::Right, source: Stream::Left });
            },
        }
        index = index + 1;
        assert(steps@ =~= schedule(layers@, index as nat));
    }
    steps
}

/// Each layer makes exactly two updates, one per stream, left first: update
/// `2 * i` is layer `i` on the left stream and update `2 * i + 1` is layer
/// `i` on the right stream; the source is the target itself in a
/// self-attention layer and the other stream in a cross-attention layer.
pub proof fn lemma_schedule_shape(layers: Seq<TransformerLayer>, count: nat, i: int)
    requires
        count <= layers.len(),
        0 <= i < count,
    ensures
        schedule(layers, count).len() == 2 * count,
        schedule(layers, count)[2 * i] == (AttentionStep {
            layer: i as usize,
            target: Stream::Left,
            source: if layers[i] == TransformerLayer::SelfAttention {
                Stream::Left
            } else {
                Stream::Right
            },
        }),
        schedule(layers, count)[2 * i + 1] == (AttentionStep {
            layer: i as usize,
            target: Stream::Right,
            source: if layers[i] == TransformerLayer::SelfAttention {
                Stream::Right
            } else {
                Stream::Left
            },
        }),
    decreases count,
{
    lemma_schedule_len(layers, count);
    if i < count - 1 {
        lemma_schedule_shape(layers, (count - 1) as nat, i);
        lemma_schedule_len(layers, (count - 1) as nat);
    } else {
        lemma_schedule_len(layers, (count - 1) as nat);
    }
}

/// The schedule of `count` layers has two updates per layer.
pub proof fn lemma_schedule_len(layers: Seq<TransformerLayer>, count: nat)
    ensures
        schedule(layers, count).len() == 2 * count,
    decreases count,
{
    if count > 0 {
        lemma_schedule_len(layers, (count - 1) as nat);
    }
}

} // verus!
