use vstd::prelude::*;

verus! {

/// The first extent of a shape, or 0 for a shape of rank 0.
pub open spec fn first_or_zero(dims: Seq<i64>) -> i64 {
    if dims.len() == 0 {
        0
    } else {
        dims[0]
    }
}

/// Whether two shapes are equal, extent by extent.
pub fn dims_equal(left: &Vec<i64>, right: &Vec<i64>) -> (equal: bool)
    ensures
        equal == (left@ == right@),
{
    if left.len() != right.len() {
        return false;
    }
    let mut index: usize = 0;
    while index < left.len()
        invariant
            left.len() == right.len(),
            index <= left.len(),
            forall|k: int| 0 <= k < index ==> left@[k] == right@[k],
        decreases left.len() - index,
    {
        if left[index] != right[index] {
            return false;
        }
        index = index + 1;
    }
    assert(left@ =~= right@);
    true
}

/// The first extent of a shape, or 0 for a shape of rank 0.
pub fn first_dim_or_zero(dims: &Vec<i64>) -> (first: i64)
    ensures
        first == first_or_zero(dims@),
{
    if dims.len() == 0 {
        0
    } else {
        dims[0]
    }
}

} // verus!
