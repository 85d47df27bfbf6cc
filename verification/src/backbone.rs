use vstd::prelude::*;

use crate::error::{ConfigError, InputError, LoftrError};
use crate::loftr_config::{BackboneType, LoftrConfig, ResNetFpnConfig};

verus! {

/// The backbones this crate can build.
#[derive(Debug, Clone, Copy, PartialEq, Eq, Structural)]
pub enum BackboneKind {
    /// ResNet-FPN with coarse stride 8 and fine stride 2.
    ResNetFpn8_2,
}

/// The check of a ResNet-FPN configuration: every width positive.
pub open spec fn resnet_fpn_check(config: ResNetFpnConfig) -> Result<(), LoftrError> {
    if config.initial_dim <= 0 || config.block_dims[0] <= 0 || config.block_dims[1] <= 0
        || config.block_dims[2] <= 0 {
        Err(
            LoftrError::InvalidConfig(
                ConfigError::BackboneDims {
                    initial_dim: config.initial_dim,
                    block_dims: config.block_dims,
                },
            ),
        )
    } else {
        Ok(())
    }
}

/// Checks that the stem width and the three stage widths are positive.
pub fn validate_resnet_fpn_config(config: &ResNetFpnConfig) -> (r: Result<(), LoftrError>)
    ensures
        r == resnet_fpn_check(*config),
{
    let block_dims = config.block_dims;
    if config.initial_dim <= 0 || block_dims[0] <= 0 || block_dims[1] <= 0 || block_dims[2] <= 0 {
        return Err(
            LoftrError::InvalidConfig(
                ConfigError::BackboneDims { initial_dim: config.initial_dim, block_dims },
            ),
        );
    }
    Ok(())
}

/// Checks that a backbone input is a grayscale batch `[N, 1, H, W]`.
pub fn validate_backbone_input(dims: &Vec<i64>) -> (r: Result<(), LoftrError>)
    ensures
        r == (if dims@.len() != 4 || dims@[1] != 1 {
            Err(LoftrError::InvalidInput(InputError::BackboneInput))
        } else {
            Ok::<(), LoftrError>(())
        }),
{
    if dims.len() != 4 || dims[1] != 1 {
        return Err(LoftrError::InvalidInput(InputError::BackboneInput));
    }
    Ok(())
}

/// The backbone a configuration asks for, or why it cannot be built.
pub open spec fn backbone_for(config: LoftrConfig) -> Result<BackboneKind, LoftrError> {
    if config.resolution != (8i64, 2i64) {
        Err(
            LoftrError::InvalidConfig(
                ConfigError::BackboneResolution {
                    coarse: config.resolution.0,
                    fine: config.resolution.1,
                },
            ),
        )
    } else {
        match resnet_fpn_check(config.resnetfpn) {
            Err(e) => Err(e),
            Ok(_) => Ok(BackboneKind::ResNetFpn8_2),
        }
    }
}

/// Chooses the backbone for a configuration: a ResNet-FPN, for the
/// resolution `(8, 2)` only, with positive widths.
pub fn select_backbone(config: &LoftrConfig) -> (r: Result<BackboneKind, LoftrError>)
    ensures
        r == backbone_for(*config),
{
    match config.backbone_type {
        BackboneType::ResNetFpn => {},
    }
    if config.resolution.0 != 8 || config.resolution.1 != 2 {
        return Err(
            LoftrError::InvalidConfig(
                ConfigError::BackboneResolution {
                    coarse: config.resolution.0,
                    fine: config.resolution.1,
                },
            ),
        );
    }
    validate_resnet_fpn_config(&config.resnetfpn)?;
    Ok(BackboneKind::ResNetFpn8_2)
}

/// A residual stage: two basic blocks, the first from `in_planes` to
/// `planes` with stride `stride` (and a strided projection of the shortcut
/// when `stride != 1`), the second from `planes` to `planes` with stride 1.
#[derive(Debug, Clone, Copy, PartialEq, Eq, Structural)]
pub struct StageSpec {
    pub in_planes: i64,
    pub planes: i64,
    pub stride: i64,
}

/// A feature-pyramid head: a 3x3 convolution from `in_planes` to `hidden`,
/// batch norm, leaky ReLU, then a 3x3 convolution from `hidden` to `out_planes`.
#[derive(Debug, Clone, Copy, PartialEq, Eq, Structural)]
pub struct HeadSpec {
    pub in_planes: i64,
    pub hidden: i64,
    pub out_planes: i64,
}

/// A 1x1 lateral convolution from `in_planes` to `out_planes`.
#[derive(Debug, Clone, Copy, PartialEq, Eq, Structural)]
pub struct LateralSpec {
    pub in_planes: i64,
    pub out_planes: i64,
}

/// The widths and strides of the ResNet-FPN (8, 2) network.
#[derive(Debug, Clone, Copy, PartialEq, Eq, Structural)]
pub struct ResNetFpnPlan {
    /// Width of the stride-2 7x7 stem convolution from the single input channel.
    pub stem_planes: i64,
    pub layer1: StageSpec,
    pub layer2: StageSpec,
    pub layer3: StageSpec,
    pub layer3_outconv: LateralSpec,
    pub layer2_outconv: LateralSpec,
    pub layer1_outconv: LateralSpec,
    pub layer2_head: HeadSpec,
    pub layer1_head: HeadSpec,
}

/// The plan of a ResNet-FPN (8, 2) with the widths of `config`.
pub open spec fn resnet_fpn_plan_of(config: ResNetFpnConfig) -> ResNetFpnPlan {
    let b = config.block_dims;
    ResNetFpnPlan {
        stem_planes: config.initial_dim,
        layer1: StageSpec { in_planes: config.initial_dim, planes: b[0], stride: 1 },
        layer2: StageSpec { in_planes: b[0], planes: b[1], stride: 2 },
        layer3: StageSpec { in_planes: b[1], planes: b[2], stride: 2 },
        layer3_outconv: LateralSpec { in_planes: b[2], out_planes: b[2] },
        layer2_outconv: LateralSpec { in_planes: b[1], out_planes: b[2] },
        layer1_outconv: LateralSpec { in_planes: b[0], out_planes: b[1] },
        layer2_head: HeadSpec { in_planes: b[2], hidden: b[2], out_planes: b[1] },
        layer1_head: HeadSpec { in_planes: b[1], hidden: b[1], out_planes: b[0] },
    }
}

/// The widths and strides of the ResNet-FPN (8, 2) network for `config`,
/// once its widths are checked positive.
pub fn resnet_fpn_plan(config: &ResNetFpnConfig) -> (r: Result<ResNetFpnPlan, LoftrError>)
    ensures
        match resnet_fpn_check(*config) {
            Err(e) => r == Err::<ResNetFpnPlan, LoftrError>(e),
            Ok(_) => r == Ok::<ResNetFpnPlan, LoftrError>(resnet_fpn_plan_of(*config)),
        },
{
    validate_resnet_fpn_config(config)?;
    let b = config.block_dims;
    Ok(
        ResNetFpnPlan {
            stem_planes: config.initial_dim,
            layer1: StageSpec { in_planes: config.initial_dim, planes: b[0], stride: 1 },
            layer2: StageSpec { in_planes: b[0], planes: b[1], stride: 2 },
            layer3: StageSpec { in_planes: b[1], planes: b[2], stride: 2 },
            layer3_outconv: LateralSpec { in_planes: b[2], out_planes: b[2] },
            layer2_outconv: LateralSpec { in_planes: b[1], out_planes: b[2] },
            layer1_outconv: LateralSpec { in_planes: b[0], out_planes: b[1] },
            layer2_head: HeadSpec { in_planes: b[2], hidden: b[2], out_planes: b[1] },
            layer1_head: HeadSpec { in_planes: b[1], hidden: b[1], out_planes: b[0] },
        },
    )
}

/// The widths chain: each stage reads what the one before writes, each
/// lateral convolution reads its stage's output, the two operands of each
/// top-down sum have one width, the coarse output has the width of the last
/// stage and the fine output that of the first stage.
pub proof fn lemma_plan_widths_chain(config: ResNetFpnConfig)
    ensures
        ({
            let plan = resnet_fpn_plan_of(config);
            &&& plan.layer1.in_planes == plan.stem_planes
            &&& plan.layer2.in_planes == plan.layer1.planes
            &&& plan.layer3.in_planes == plan.layer2.planes
            &&& plan.layer3_outconv.in_planes == plan.layer3.planes
            &&& plan.layer2_outconv.in_planes == plan.layer2.planes
            &&& plan.layer1_outconv.in_planes == plan.layer1.planes
            &&& plan.layer2_outconv.out_planes == plan.layer3_outconv.out_planes
            &&& plan.layer2_head.in_planes == plan.layer2_outconv.out_planes
            &&& plan.layer1_outconv.out_planes == plan.layer2_head.out_planes
            &&& plan.layer1_head.in_planes == plan.layer1_outconv.out_planes
            &&& plan.layer3_outconv.out_planes == config.block_dims[2]
            &&& plan.layer1_head.out_planes == config.block_dims[0]
            &&& plan.layer1.stride * plan.layer2.stride * plan.layer3.stride * 2 == 8
        }),
{
}

} // verus!
