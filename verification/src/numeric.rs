use vstd::prelude::*;

use crate::error::{ConfigError, LoftrError};

verus! {

/// `root` is a positive square root of `value`.
pub open spec fn is_positive_square_root(value: int, root: int) -> bool {
    root > 0 && root * root == value
}

/// The square of `k`.
pub open spec fn square(k: int) -> int {
    k * k
}

/// `value` has a positive integer square root.
pub open spec fn is_perfect_square(value: int) -> bool {
    exists|root: int| #[trigger] is_positive_square_root(value, root)
}

/// Squares of positive integers grow with the integer.
pub proof fn lemma_square_monotonic(a: int, b: int)
    requires
        0 <= a <= b,
    ensures
        a * a <= b * b,
{
    assert(a * a <= a * b) by (nonlinear_arith)
        requires
            0 <= a <= b,
    ;
    assert(a * b <= b * b) by (nonlinear_arith)
        requires
            0 <= a <= b,
    ;
}

/// A positive integer has at most one positive square root.
pub proof fn lemma_positive_square_root_unique(value: int, a: int, b: int)
    requires
        is_positive_square_root(value, a),
        is_positive_square_root(value, b),
    ensures
        a == b,
{
    if a < b {
        assert(a * a < b * b) by (nonlinear_arith)
            requires
                0 < a < b,
        ;
    } else if b < a {
        assert(b * b < a * a) by (nonlinear_arith)
            requires
                0 < b < a,
        ;
    }
}

/// Returns the positive integer square root of `value`.
///
/// Fails with `NotPositive` when `value <= 0`, and with `NotPerfectSquare`
/// when `value` is positive but not the square of an integer; both errors
/// carry `label` and `value`.
pub fn perfect_square_root(value: i64, label: &str) -> (r: Result<i64, LoftrError>)
    ensures
        match r {
            Ok(root) => value > 0 && is_positive_square_root(value as int, root as int),
            Err(LoftrError::InvalidConfig(ConfigError::NotPositive { label: l, value: v })) => {
                value <= 0 && l@ == label@ && v == value
            },
            Err(LoftrError::InvalidConfig(ConfigError::NotPerfectSquare { label: l, value: v })) => {
                value > 0 && !is_perfect_square(value as int) && l@ == label@ && v == value
            },
            _ => false,
        },
{
    if value <= 0 {
        return Err(LoftrError::InvalidConfig(ConfigError::NotPositive { label: label.to_owned(), value }));
    }
    let mut candidate: i64 = 1;
    loop
        invariant
            0 < value,
            1 <= candidate <= value,
            forall|k: int| 0 < k < candidate ==> #[trigger] square(k) < value,
        ensures
            1 <= candidate <= value,
            forall|k: int| 0 < k < candidate ==> #[trigger] square(k) < value,
            candidate * candidate >= value,
        decreases value - candidate,
    {
        match candidate.checked_mul(candidate) {
            Some(square) => {
                if square < value {
                    proof {
                        assert(candidate < value) by (nonlinear_arith)
                            requires
                                1 <= candidate,
                                candidate * candidate < value,
                        ;
                    }
                    candidate = candidate + 1;
                } else {
                    break;
                }
            },
            None => {
                break;
            },
        }
    }
    let found = match candidate.checked_mul(candidate) {
        Some(square) => square == value,
        None => false,
    };
    if found {
        Ok(candidate)
    } else {
        proof {
            // Every k below `candidate` squares to less than `value`, every
            // k from `candidate` on squares to more.
            assert(candidate * candidate > value);
            assert forall|k: int| #[trigger] is_positive_square_root(value as int, k) implies false by {
                if k < candidate {
                    assert(square(k) < value);
                } else {
                    lemma_square_monotonic(candidate as int, k);
                }
            }
        }
        Err(LoftrError::InvalidConfig(ConfigError::NotPerfectSquare { label: label.to_owned(), value }))
    }
}

} // verus!
