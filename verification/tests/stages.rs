use loftr::backbone::{
    resnet_fpn_plan, select_backbone, validate_backbone_input, validate_resnet_fpn_config, BackboneKind,
    HeadSpec, LateralSpec, StageSpec,
};
use loftr::loftr_model::validate_model_config;
use loftr::error::{ConfigError, InputError, LoftrError, TensorName};
use loftr::linear_attention::{validate_attention_mask, validate_attention_tensors};
use loftr::loftr::{image_layout, ImageForm, ImageLayout};
use loftr::loftr_config::{LoftrConfig, ResNetFpnConfig, TransformerConfig, TransformerLayer};
use loftr::position_encoding::{position_encoding_resize, validate_position_encoding, INITIAL_MAX_SHAPE};
use loftr::transformer::{
    attention_schedule, encoder_head_dim, validate_encoder_inputs, validate_sequence_tensor,
    validate_transformer_config, validate_transformer_inputs, AttentionStep, Stream,
};

#[test]
fn select_backbone_rejects_unsupported_resolution() {
    let mut config = LoftrConfig::outdoor();
    assert_eq!(select_backbone(&config), Ok(BackboneKind::ResNetFpn8_2));
    config.resolution = (16, 4);
    assert_eq!(
        select_backbone(&config),
        Err(LoftrError::InvalidConfig(ConfigError::BackboneResolution { coarse: 16, fine: 4 }))
    );
}

#[test]
fn backbone_widths_must_be_positive() {
    let config = ResNetFpnConfig { initial_dim: 128, block_dims: [128, 0, 256] };
    assert_eq!(
        validate_resnet_fpn_config(&config),
        Err(LoftrError::InvalidConfig(ConfigError::BackboneDims {
            initial_dim: 128,
            block_dims: [128, 0, 256]
        }))
    );
    let mut full = LoftrConfig::outdoor();
    full.resnetfpn.initial_dim = -1;
    assert!(matches!(
        select_backbone(&full),
        Err(LoftrError::InvalidConfig(ConfigError::BackboneDims { initial_dim: -1, .. }))
    ));
    assert_eq!(validate_backbone_input(&vec![2, 1, 240, 320]), Ok(()));
    assert_eq!(
        validate_backbone_input(&vec![2, 3, 240, 320]),
        Err(LoftrError::InvalidInput(InputError::BackboneInput))
    );
}

#[test]
fn image_layouts_become_grayscale_batches() {
    let cases: Vec<(Vec<i64>, ImageForm, i64, i64, i64)> = vec![
        (vec![4, 5], ImageForm::Plane, 1, 4, 5),
        (vec![1, 4, 5], ImageForm::Gray, 1, 4, 5),
        (vec![3, 2, 2], ImageForm::Rgb, 1, 2, 2),
        (vec![2, 1, 4, 5], ImageForm::BatchedGray, 2, 4, 5),
        (vec![2, 3, 4, 5], ImageForm::BatchedRgb, 2, 4, 5),
    ];
    for (dims, form, batch, height, width) in cases {
        let layout = image_layout(&dims).expect("layout");
        assert_eq!(layout, ImageLayout { form, batch, height, width });
        assert_eq!(layout.output_shape(), vec![batch, 1, height, width]);
    }
}

#[test]
fn image_layout_rejects_invalid_rank() {
    for dims in [vec![2, 2, 2, 2, 2], vec![5], vec![2, 4, 4], vec![0, 4], vec![1, 2, 0, 3]] {
        assert_eq!(image_layout(&dims), Err(LoftrError::InvalidInput(InputError::ImageLayout)));
    }
}

#[test]
fn position_encoding_parameters_are_checked() {
    assert_eq!(validate_position_encoding(256, INITIAL_MAX_SHAPE), Ok(()));
    assert_eq!(
        validate_position_encoding(254, (8, 8)),
        Err(LoftrError::InvalidConfig(ConfigError::PositionEncodingDModel { d_model: 254 }))
    );
    assert_eq!(
        validate_position_encoding(256, (0, 8)),
        Err(LoftrError::InvalidConfig(ConfigError::PositionEncodingShape { height: 0, width: 8 }))
    );
}

#[test]
fn position_encoding_expands_when_input_is_larger() {
    assert_eq!(position_encoding_resize(256, (8, 8), &vec![1, 256, 16, 12]), Ok(Some((16, 12))));
    assert_eq!(position_encoding_resize(256, (8, 20), &vec![1, 256, 16, 12]), Ok(Some((16, 20))));
    assert_eq!(position_encoding_resize(256, (16, 12), &vec![1, 256, 16, 12]), Ok(None));
    assert_eq!(position_encoding_resize(256, (32, 48), &vec![1, 256, 16, 12]), Ok(None));
}

#[test]
fn position_encoding_rejects_wrong_channel_count() {
    assert_eq!(
        position_encoding_resize(256, (8, 8), &vec![1, 128, 8, 8]),
        Err(LoftrError::InvalidInput(InputError::PositionEncodingDModel { expected: 256, got: 128 }))
    );
    assert_eq!(
        position_encoding_resize(256, (8, 8), &vec![256, 8, 8]),
        Err(LoftrError::InvalidInput(InputError::PositionEncodingRank))
    );
}

#[test]
fn encoder_layers_need_divisible_widths() {
    assert_eq!(encoder_head_dim(256, 8), Ok(32));
    assert_eq!(
        encoder_head_dim(256, 6),
        Err(LoftrError::InvalidConfig(ConfigError::EncoderLayerDims { d_model: 256, nhead: 6 }))
    );
    assert!(encoder_head_dim(0, 8).is_err());
    assert!(encoder_head_dim(8, 0).is_err());
    let mut config = LoftrConfig::outdoor().coarse;
    assert_eq!(validate_transformer_config(&config), Ok(()));
    config.nhead = 7;
    assert!(validate_transformer_config(&config).is_err());
    let empty = TransformerConfig { layers: Vec::new(), ..config };
    assert_eq!(validate_transformer_config(&empty), Ok(()));
}

#[test]
fn transformer_rejects_wrong_feature_dim() {
    assert_eq!(validate_transformer_inputs(&vec![1, 24, 256], &vec![1, 30, 256], 256), Ok(()));
    assert_eq!(
        validate_transformer_inputs(&vec![1, 12, 64], &vec![1, 12, 128], 128),
        Err(LoftrError::InvalidConfig(ConfigError::FeatureDim { d_model: 128 }))
    );
    assert_eq!(
        validate_transformer_inputs(&vec![1, 12], &vec![1, 12, 128], 128),
        Err(LoftrError::InvalidInput(InputError::SequenceRank { label: TensorName::Feat0 }))
    );
    assert_eq!(
        validate_sequence_tensor(&vec![1, 2, 3, 4], TensorName::Feat1),
        Err(LoftrError::InvalidInput(InputError::SequenceRank { label: TensorName::Feat1 }))
    );
}

#[test]
fn encoder_inputs_share_batch_and_width() {
    assert_eq!(validate_encoder_inputs(&vec![2, 12, 256], &vec![2, 15, 256]), Ok(()));
    assert_eq!(
        validate_encoder_inputs(&vec![2, 12, 256], &vec![1, 15, 256]),
        Err(LoftrError::InvalidConfig(ConfigError::EncoderSourceMismatch))
    );
    assert_eq!(
        validate_encoder_inputs(&vec![2, 12, 256], &vec![15, 256]),
        Err(LoftrError::InvalidInput(InputError::SequenceRank { label: TensorName::Source }))
    );
}

#[test]
fn attention_schedule_updates_both_streams_per_layer() {
    let layers = vec![TransformerLayer::SelfAttention, TransformerLayer::CrossAttention];
    let steps = attention_schedule(&layers);
    assert_eq!(
        steps,
        vec![
            AttentionStep { layer: 0, target: Stream::Left, source: Stream::Left },
            AttentionStep { layer: 0, target: Stream::Right, source: Stream::Right },
            AttentionStep { layer: 1, target: Stream::Left, source: Stream::Right },
            AttentionStep { layer: 1, target: Stream::Right, source: Stream::Left },
        ]
    );
    assert_eq!(attention_schedule(&LoftrConfig::outdoor().coarse.layers).len(), 16);
}

#[test]
fn attention_shapes_are_checked() {
    let q = vec![2, 5, 4, 8];
    let kv = vec![2, 7, 4, 8];
    assert_eq!(validate_attention_tensors(&q, &kv, &kv), Ok(()));
    assert_eq!(
        validate_attention_tensors(&vec![2, 5, 4], &kv, &kv),
        Err(LoftrError::InvalidConfig(ConfigError::AttentionRank))
    );
    assert_eq!(
        validate_attention_tensors(&q, &vec![1, 7, 4, 8], &kv),
        Err(LoftrError::InvalidConfig(ConfigError::AttentionBatch { queries: 2, keys: 1, values: 2 }))
    );
    assert_eq!(
        validate_attention_tensors(&q, &kv, &vec![2, 6, 4, 8]),
        Err(LoftrError::InvalidConfig(ConfigError::AttentionKeyValue))
    );
    assert_eq!(
        validate_attention_tensors(&vec![2, 5, 4, 16], &kv, &kv),
        Err(LoftrError::InvalidConfig(ConfigError::AttentionHead))
    );
    assert_eq!(validate_attention_mask(&vec![2, 5], &q), Ok(()));
    assert_eq!(
        validate_attention_mask(&vec![2, 7], &q),
        Err(LoftrError::InvalidConfig(ConfigError::AttentionMask { batch: 2, length: 5 }))
    );
}

#[test]
fn resnet_plan_chains_widths() {
    let plan = resnet_fpn_plan(&LoftrConfig::outdoor().resnetfpn).expect("plan");
    assert_eq!(plan.stem_planes, 128);
    assert_eq!(plan.layer1, StageSpec { in_planes: 128, planes: 128, stride: 1 });
    assert_eq!(plan.layer2, StageSpec { in_planes: 128, planes: 196, stride: 2 });
    assert_eq!(plan.layer3, StageSpec { in_planes: 196, planes: 256, stride: 2 });
    assert_eq!(plan.layer3_outconv, LateralSpec { in_planes: 256, out_planes: 256 });
    assert_eq!(plan.layer2_outconv, LateralSpec { in_planes: 196, out_planes: 256 });
    assert_eq!(plan.layer1_outconv, LateralSpec { in_planes: 128, out_planes: 196 });
    assert_eq!(plan.layer2_head, HeadSpec { in_planes: 256, hidden: 256, out_planes: 196 });
    assert_eq!(plan.layer1_head, HeadSpec { in_planes: 196, hidden: 196, out_planes: 128 });
    let bad = ResNetFpnConfig { initial_dim: 0, block_dims: [1, 2, 3] };
    assert!(resnet_fpn_plan(&bad).is_err());
}

#[test]
fn presets_pass_model_construction_checks() {
    assert_eq!(validate_model_config(&LoftrConfig::outdoor()), Ok(()));
    assert_eq!(validate_model_config(&LoftrConfig::indoor()), Ok(()));
    assert_eq!(validate_model_config(&LoftrConfig::indoor_new()), Ok(()));
}

#[test]
fn model_construction_checks_run_in_build_order() {
    let mut config = LoftrConfig::outdoor();
    config.resolution = (16, 4);
    config.coarse.d_model = 250;
    assert_eq!(
        validate_model_config(&config),
        Err(LoftrError::InvalidConfig(ConfigError::BackboneResolution { coarse: 16, fine: 4 }))
    );
    config.resolution = (8, 2);
    assert_eq!(
        validate_model_config(&config),
        Err(LoftrError::InvalidConfig(ConfigError::PositionEncodingDModel { d_model: 250 }))
    );
    config.coarse.d_model = 252;
    assert_eq!(
        validate_model_config(&config),
        Err(LoftrError::InvalidConfig(ConfigError::EncoderLayerDims { d_model: 252, nhead: 8 }))
    );
    config.coarse.d_model = 256;
    config.fine_window_size = 4;
    config.fine.nhead = 3;
    assert_eq!(
        validate_model_config(&config),
        Err(LoftrError::InvalidConfig(ConfigError::WindowSizeNotPositiveOdd { window_size: 4 }))
    );
    config.fine_window_size = 5;
    assert_eq!(
        validate_model_config(&config),
        Err(LoftrError::InvalidConfig(ConfigError::EncoderLayerDims { d_model: 128, nhead: 3 }))
    );
    config.fine.layers.clear();
    assert_eq!(validate_model_config(&config), Ok(()));
}
