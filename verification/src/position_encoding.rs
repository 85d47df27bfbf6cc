use vstd::prelude::*;

use crate::error::{ConfigError, InputError, LoftrError};

verus! {

/// The extents `(height, width)` for which a new positional encoding is built.
pub const INITIAL_MAX_SHAPE: (i64, i64) = (256, 256);

/// The checks made when an encoding of width `d_model` is built for maps up
/// to `max_shape`: `d_model` positive and a multiple of 4, both extents positive.
pub open spec fn encoding_params_check(d_model: i64, max_shape: (i64, i64)) -> Result<(), LoftrError> {
    if d_model <= 0 || d_model % 4 != 0 {
        Err(LoftrError::InvalidConfig(ConfigError::PositionEncodingDModel { d_model }))
    } else if max_shape.0 <= 0 || max_shape.1 <= 0 {
        Err(
            LoftrError::InvalidConfig(
                ConfigError::PositionEncodingShape { height: max_shape.0, width: max_shape.1 },
            ),
        )
    } else {
        Ok(())
    }
}

/// Checks the parameters of a sine positional encoding.
pub fn validate_position_encoding(d_model: i64, max_shape: (i64, i64)) -> (r: Result<(), LoftrError>)
    ensures
        r == encoding_params_check(d_model, max_shape),
{
    if d_model <= 0 || d_model % 4 != 0 {
        return Err(LoftrError::InvalidConfig(ConfigError::PositionEncodingDModel { d_model }));
    }
    if max_shape.0 <= 0 || max_shape.1 <= 0 {
        return Err(
            LoftrError::InvalidConfig(
                ConfigError::PositionEncodingShape { height: max_shape.0, width: max_shape.1 },
            ),
        );
    }
    Ok(())
}

/// The larger of two extents.
pub open spec fn larger(a: i64, b: i64) -> i64 {
    if a >= b {
        a
    } else {
        b
    }
}

/// What adding an encoding of width `d_model`, built for maps up to
/// `pe_shape`, to a map of shape `dims` requires: the map must be `[N, C, H, W]`
/// with `C == d_model`; when it is larger than the encoding along an axis,
/// the encoding is rebuilt for the larger of the two extents on each axis.
pub open spec fn encoding_resize(d_model: i64, pe_shape: (i64, i64), dims: Seq<i64>) -> Result<
    Option<(i64, i64)>,
    LoftrError,
> {
    if dims.len() != 4 {
        Err(LoftrError::InvalidInput(InputError::PositionEncodingRank))
    } else if dims[1] != d_model {
        Err(LoftrError::InvalidInput(InputError::PositionEncodingDModel { expected: d_model, got: dims[1] }))
    } else if dims[2] > pe_shape.0 || dims[3] > pe_shape.1 {
        Ok(Some((larger(dims[2], pe_shape.0), larger(dims[3], pe_shape.1))))
    } else {
        Ok(None)
    }
}

/// Checks a map handed to the positional encoding and says for which extents
/// the encoding must be rebuilt first, if any.
pub fn position_encoding_resize(d_model: i64, pe_shape: (i64, i64), dims: &Vec<i64>) -> (r: Result<
    Option<(i64, i64)>,
    LoftrError,
>)
    ensures
        r == encoding_resize(d_model, pe_shape, dims@),
{
    if dims.len() != 4 {
        return Err(LoftrError::InvalidInput(InputError::PositionEncodingRank));
    }
    if dims[1] != d_model {
        return Err(
            LoftrError::InvalidInput(InputError::PositionEncodingDModel { expected: d_model, got: dims[1] }),
        );
    }
    if dims[2] > pe_shape.0 || dims[3] > pe_shape.1 {
        let height = if dims[2] >= pe_shape.0 {
            dims[2]
        } else {
            pe_shape.0
        };
        let width = if dims[3] >= pe_shape.1 {
            dims[3]
        } else {
            pe_shape.1
        };
        return Ok(Some((height, width)));
    }
    Ok(None)
}

/// A rebuilt encoding covers both the map and the old encoding, so building
/// it passes the parameter checks, and the same map then needs no rebuild.
pub proof fn lemma_resize_covers_input(d_model: i64, pe_shape: (i64, i64), dims: Seq<i64>)
    requires
        encoding_params_check(d_model, pe_shape) is Ok,
        encoding_resize(d_model, pe_shape, dims) matches Ok(Some(_)),
    ensures
        ({
            let new_shape = encoding_resize(d_model, pe_shape, dims)->Ok_0->Some_0;
            &&& new_shape.0 >= dims[2] && new_shape.0 >= pe_shape.0
            &&& new_shape.1 >= dims[3] && new_shape.1 >= pe_shape.1
            &&& encoding_params_check(d_model, new_shape) is Ok
            &&& encoding_resize(d_model, new_shape, dims) == Ok::<Option<(i64, i64)>, LoftrError>(None)
        }),
{
}

/// The number of entries of `start..end` taken with step `step`.
pub open spec fn stepped_count(start: int, end: int, step: int) -> int {
    if end <= start {
        0
    } else {
        (end - start + step - 1) / step
    }
}

/// For a valid width, the frequency terms `0..d_model/2` taken every 2 and
/// each of the four channel groups `c..d_model` taken every 4 (`c < 4`) have
/// the same number `d_model / 4` of entries, so each group receives one term
/// per channel.
pub proof fn lemma_channel_groups_match_frequencies(d_model: int, c: int)
    requires
        d_model > 0,
        d_model % 4 == 0,
        0 <= c < 4,
    ensures
        stepped_count(0, d_model / 2, 2) == d_model / 4,
        stepped_count(c, d_model, 4) == d_model / 4,
{
    let q = d_model / 4;
    assert(d_model == 4 * q);
    assert(d_model / 2 == 2 * q);
    assert((2 * q + 1) / 2 == q);
    assert(4 * q - c + 3 == 4 * (q - 1) + (7 - c));
    vstd::arithmetic::div_mod::lemma_fundamental_div_mod_converse(4 * q - c + 3, 4, q, 3 - c);
}

/// After acting on the decision the encoding covers the map: the extents
/// in use afterwards (the new ones, or the old ones when nothing is rebuilt)
/// are at least the map's height and width; nothing is rebuilt when the
/// encoding already covers both, and a rebuild takes, on each axis, the
/// larger of the map's and the encoding's extent, so it never shrinks.
pub proof fn lemma_resize_decision_covers_map(d_model: i64, pe_shape: (i64, i64), dims: Seq<i64>)
    requires
        dims.len() == 4,
        dims[1] == d_model,
    ensures
        encoding_resize(d_model, pe_shape, dims) is Ok,
        ({
            let decision = encoding_resize(d_model, pe_shape, dims)->Ok_0;
            let used = match decision {
                Some(shape) => shape,
                None => pe_shape,
            };
            &&& used.0 >= dims[2] && used.1 >= dims[3]
            &&& used.0 >= pe_shape.0 && used.1 >= pe_shape.1
            &&& (decision is None <==> (dims[2] <= pe_shape.0 && dims[3] <= pe_shape.1))
            &&& (used.0 == dims[2] || used.0 == pe_shape.0)
            &&& (used.1 == dims[3] || used.1 == pe_shape.1)
        }),
{
}

/// A map that is not rank 4 is refused for its rank; a rank-4 map whose
/// channel extent is not `d_model` is refused with both extents named.
pub proof fn lemma_resize_rejects_wrong_maps(d_model: i64, pe_shape: (i64, i64), dims: Seq<i64>)
    ensures
        dims.len() != 4 ==> encoding_resize(d_model, pe_shape, dims) == Err::<Option<(i64, i64)>, LoftrError>(
            LoftrError::InvalidInput(InputError::PositionEncodingRank),
        ),
        dims.len() == 4 && dims[1] != d_model ==> encoding_resize(d_model, pe_shape, dims) == Err::<
            Option<(i64, i64)>,
            LoftrError,
        >(LoftrError::InvalidInput(InputError::PositionEncodingDModel { expected: d_model, got: dims[1] })),
{
}

} // verus!
