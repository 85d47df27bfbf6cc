use loftr::loftr_config::{AttentionType, BackboneType, Decimal, LoftrConfig, MatchType, TransformerLayer};
use loftr::loftr_model::fine_transformer_config;

#[test]
fn outdoor_config_matches_kornia_defaults() {
    let config = LoftrConfig::outdoor();
    assert_eq!(config.backbone_type, BackboneType::ResNetFpn);
    assert_eq!(config.resolution, (8, 2));
    assert_eq!(config.fine_window_size, 5);
    assert!(config.fine_concat_coarse_feat);
    assert_eq!(config.resnetfpn.block_dims, [128, 196, 256]);
    assert_eq!(config.coarse.layers.len(), 8);
    assert_eq!(config.coarse.attention, AttentionType::Linear);
    assert_eq!(config.match_coarse.match_type, MatchType::DualSoftmax);
    assert_eq!(
        config.fine.layers,
        vec![
            TransformerLayer::SelfAttention,
            TransformerLayer::CrossAttention
        ]
    );
    assert!(!config.coarse.temp_bug_fix);
}

#[test]
fn indoor_matches_outdoor_defaults() {
    let outdoor = LoftrConfig::outdoor();
    let indoor = LoftrConfig::indoor();
    assert_eq!(indoor, outdoor);
}

#[test]
fn indoor_new_only_flips_temp_bug_fix() {
    let indoor = LoftrConfig::indoor();
    let indoor_new = LoftrConfig::indoor_new();
    assert!(indoor_new.coarse.temp_bug_fix);
    assert_eq!(indoor_new.backbone_type, indoor.backbone_type);
    assert_eq!(indoor_new.match_coarse.thr, indoor.match_coarse.thr);
    assert_eq!(indoor_new.fine, indoor.fine);
}

#[test]
fn default_config_is_outdoor() {
    assert_eq!(LoftrConfig::default(), LoftrConfig::outdoor());
}

#[test]
fn indoor_new_differs_from_indoor_in_temp_bug_fix_alone() {
    let mut indoor_new = LoftrConfig::indoor_new();
    assert_ne!(indoor_new, LoftrConfig::indoor());
    indoor_new.coarse.temp_bug_fix = false;
    assert_eq!(indoor_new, LoftrConfig::indoor());
}

#[test]
fn outdoor_coarse_layers_alternate_self_and_cross() {
    let config = LoftrConfig::outdoor();
    for (index, layer) in config.coarse.layers.iter().enumerate() {
        if index % 2 == 0 {
            assert_eq!(*layer, TransformerLayer::SelfAttention);
        } else {
            assert_eq!(*layer, TransformerLayer::CrossAttention);
        }
    }
    assert_eq!(config.coarse.d_model, 256);
    assert_eq!(config.coarse.d_ffn, 256);
    assert_eq!(config.coarse.nhead, 8);
    assert_eq!(config.resnetfpn.initial_dim, 128);
    assert_eq!(config.fine.d_model, 128);
}

#[test]
fn outdoor_match_parameters_are_exact_decimals() {
    let config = LoftrConfig::outdoor();
    assert_eq!(config.match_coarse.thr, Decimal { mantissa: 2, scale: 1 });
    assert_eq!(config.match_coarse.border_rm, 2);
    assert_eq!(config.match_coarse.dsmax_temperature, Decimal { mantissa: 1, scale: 1 });
    assert_eq!(config.match_coarse.skh_iters, 3);
    assert_eq!(config.match_coarse.skh_init_bin_score, Decimal { mantissa: 1, scale: 0 });
    assert!(config.match_coarse.skh_prefilter);
    assert_eq!(config.match_coarse.train_coarse_percent, Decimal { mantissa: 4, scale: 1 });
    assert_eq!(config.match_coarse.train_pad_num_gt_min, 200);
}

#[test]
fn cloned_config_equals_its_source() {
    let config = LoftrConfig::indoor_new();
    assert_eq!(config.clone(), config);
}

#[test]
fn fine_transformer_config_copies_fine_stage_without_temp_fix() {
    let config = LoftrConfig::indoor_new();
    let fine = fine_transformer_config(&config);
    assert_eq!(fine.d_model, 128);
    assert_eq!(fine.d_ffn, 128);
    assert_eq!(fine.nhead, 8);
    assert_eq!(fine.layers, config.fine.layers);
    assert_eq!(fine.attention, AttentionType::Linear);
    assert!(!fine.temp_bug_fix);
}
