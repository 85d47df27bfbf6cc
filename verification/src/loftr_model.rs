use vstd::prelude::*;

use crate::backbone::{backbone_for, select_backbone};
use crate::error::LoftrError;
use crate::fine_preprocess::{fine_window_settings, fine_window_settings_of};
use crate::loftr_config::{
    copy_layers, indoor_new_view, outdoor_view, LoftrConfig, TransformerConfig, TransformerConfigView,
};
use crate::position_encoding::{encoding_params_check, validate_position_encoding, INITIAL_MAX_SHAPE};
use crate::transformer::{head_dim_of, transformer_config_check, validate_transformer_config};

verus! {

/// The transformer configuration of the fine stage: the widths, heads,
/// layers and attention of `config.fine`, without the temperature fix,
/// which only the positional encoding of the coarse stage reads.
pub fn fine_transformer_config(config: &LoftrConfig) -> (fine: TransformerConfig)
    ensures
        fine@ == (TransformerConfigView {
            d_model: config.fine.d_model,
            d_ffn: config.fine.d_ffn,
            nhead: config.fine.nhead,
            layers: config.fine.layers@,
            attention: config.fine.attention,
            temp_bug_fix: false,
        }),
{
    TransformerConfig {
        d_model: config.fine.d_model,
        d_ffn: config.fine.d_ffn,
        nhead: config.fine.nhead,
        layers: copy_layers(&config.fine.layers),
        attention: config.fine.attention,
        temp_bug_fix: false,
    }
}

/// The checks made while a model is built from `config`, in the order in
/// which its parts are built: backbone, positional encoding, coarse
/// transformer, fine preprocessing, fine transformer. The coarse matcher
/// accepts every configuration.
pub open spec fn model_config_check(config: LoftrConfig) -> Result<(), LoftrError> {
    if backbone_for(config) is Err {
        Err(backbone_for(config)->Err_0)
    } else if encoding_params_check(config.coarse.d_model, INITIAL_MAX_SHAPE) is Err {
        encoding_params_check(config.coarse.d_model, INITIAL_MAX_SHAPE)
    } else if transformer_config_check(config.coarse) is Err {
        transformer_config_check(config.coarse)
    } else if fine_window_settings_of(config) is Err {
        Err(fine_window_settings_of(config)->Err_0)
    } else if config.fine.layers@.len() != 0 && head_dim_of(config.fine.d_model, config.fine.nhead) is Err {
        Err(head_dim_of(config.fine.d_model, config.fine.nhead)->Err_0)
    } else {
        Ok(())
    }
}

/// Makes the checks that building a model from `config` makes, in order.
pub fn validate_model_config(config: &LoftrConfig) -> (r: Result<(), LoftrError>)
    ensures
        r == model_config_check(*config),
{
    select_backbone(config)?;
    validate_position_encoding(config.coarse.d_model, INITIAL_MAX_SHAPE)?;
    validate_transformer_config(&config.coarse)?;
    fine_window_settings(config)?;
    let fine = fine_transformer_config(config);
    validate_transformer_config(&fine)?;
    Ok(())
}

/// The presets build: they pass every check made while a model is built,
/// and the backbone writes the widths that the transformers read (the coarse
/// output has the coarse width, the fine output the fine width).
pub proof fn lemma_presets_build(config: LoftrConfig)
    requires
        config@ == outdoor_view() || config@ == indoor_new_view(),
    ensures
        model_config_check(config) is Ok,
        config.resnetfpn.block_dims[2] == config.coarse.d_model,
        config.resnetfpn.block_dims[0] == config.fine.d_model,
{
    assert(config.resnetfpn.block_dims@ == seq![128i64, 196, 256]);
    assert(config.resnetfpn.block_dims[0] == 128);
    assert(config.resnetfpn.block_dims[1] == 196);
    assert(config.resnetfpn.block_dims[2] == 256);
    assert(config.coarse.layers@.len() == 8);
    assert(config.fine.layers@.len() == 2);
}

} // verus!
