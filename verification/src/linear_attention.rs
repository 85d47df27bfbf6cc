use vstd::prelude::*;

use crate::error::{ConfigError, LoftrError};

verus! {

/// The checks on queries `[N, L, H, D]`, keys `[N, S, H, D]` and values
/// `[N, S, H, D]`, in the order in which they are made.
pub open spec fn attention_inputs_check(queries: Seq<i64>, keys: Seq<i64>, values: Seq<i64>) -> Result<
    (),
    LoftrError,
> {
    if queries.len() != 4 || keys.len() != 4 || values.len() != 4 {
        Err(LoftrError::InvalidConfig(ConfigError::AttentionRank))
    } else if queries[0] != keys[0] || queries[0] != values[0] {
        Err(
            LoftrError::InvalidConfig(
                ConfigError::AttentionBatch { queries: queries[0], keys: keys[0], values: values[0] },
            ),
        )
    } else if keys[1] != values[1] || keys[2] != values[2] || keys[3] != values[3] {
        Err(LoftrError::InvalidConfig(ConfigError::AttentionKeyValue))
    } else if queries[2] != keys[2] || queries[3] != keys[3] {
        Err(LoftrError::InvalidConfig(ConfigError::AttentionHead))
    } else {
        Ok(())
    }
}

/// Checks the shapes handed to an attention: rank 4 each, one batch extent,
/// keys and values of one shape, and queries with the keys' heads and head width.
pub fn validate_attention_tensors(queries: &Vec<i64>, keys: &Vec<i64>, values: &Vec<i64>) -> (r: Result<
    (),
    LoftrError,
>)
    ensures
        r == attention_inputs_check(queries@, keys@, values@),
{
    if queries.len() != 4 || keys.len() != 4 || values.len() != 4 {
        return Err(LoftrError::InvalidConfig(ConfigError::AttentionRank));
    }
    if queries[0] != keys[0] || queries[0] != values[0] {
        return Err(
            LoftrError::InvalidConfig(
                ConfigError::AttentionBatch { queries: queries[0], keys: keys[0], values: values[0] },
            ),
        );
    }
    if keys[1] != values[1] || keys[2] != values[2] || keys[3] != values[3] {
        return Err(LoftrError::InvalidConfig(ConfigError::AttentionKeyValue));
    }
    if queries[2] != keys[2] || queries[3] != keys[3] {
        return Err(LoftrError::InvalidConfig(ConfigError::AttentionHead));
    }
    Ok(())
}

/// Checks that an attention mask has the shape `[N, L]` of the first two
/// axes of the tensor `like` that it masks.
pub fn validate_attention_mask(mask: &Vec<i64>, like: &Vec<i64>) -> (r: Result<(), LoftrError>)
    requires
        like@.len() >= 2,
    ensures
        r == (if mask@ == seq![like@[0], like@[1]] {
            Ok::<(), LoftrError>(())
        } else {
            Err(LoftrError::InvalidConfig(ConfigError::AttentionMask { batch: like@[0], length: like@[1] }))
        }),
{
    if mask.len() == 2 && mask[0] == like[0] && mask[1] == like[1] {
        assert(mask@ =~= seq![like@[0], like@[1]]);
        Ok(())
    } else {
        Err(LoftrError::InvalidConfig(ConfigError::AttentionMask { batch: like[0], length: like[1] }))
    }
}

} // verus!
