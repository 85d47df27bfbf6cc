//! Shape, index and configuration logic of `LoFTR` feature matching.

use vstd::prelude::*;

pub mod backbone;
pub mod coarse_matching;
pub mod error;
pub mod fine_matching;
pub mod fine_preprocess;
pub mod index_tensor;
pub mod linear_attention;
pub mod loftr;
pub mod loftr_config;
pub mod loftr_model;
pub mod numeric;
pub mod position_encoding;
pub mod shape;
pub mod transformer;

pub use crate::error::{ConfigError, InputError, LoftrError, TensorName};
pub use crate::fine_matching::FineMatching;
pub use crate::loftr_config::{
    AttentionType, BackboneType, Decimal, FineConfig, LoftrConfig, MatchCoarseConfig, MatchType,
    ResNetFpnConfig, TransformerConfig, TransformerLayer,
};
pub use crate::numeric::perfect_square_root;

verus! {

} // verus!
