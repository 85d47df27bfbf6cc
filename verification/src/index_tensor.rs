use vstd::prelude::*;

verus! {

/// An integer tensor as the index arithmetic reads it: its shape and, for a
/// rank-1 tensor, its entries in order.
///
/// Its invariant: a rank-1 tensor holds as many entries as its extent.
pub struct IndexTensor {
    shape: Vec<i64>,
    values: Vec<i64>,
}

impl IndexTensor {
    #[verifier::type_invariant]
    spec fn consistent(self) -> bool {
        self.shape@.len() == 1 ==> self.values@.len() == self.shape@[0]
    }

    /// The shape.
    pub closed spec fn shape_view(&self) -> Seq<i64> {
        self.shape@
    }

    /// The entries, in row-major order.
    pub closed spec fn values_view(&self) -> Seq<i64> {
        self.values@
    }

    /// A tensor of the given shape and entries; `None` when the shape has
    /// rank 1 and its extent is not the number of entries.
    pub fn new(shape: Vec<i64>, values: Vec<i64>) -> (r: Option<IndexTensor>)
        ensures
            r is Some <==> (shape@.len() == 1 ==> values@.len() == shape@[0]),
            r matches Some(t) ==> t.shape_view() == shape@ && t.values_view() == values@,
    {
        if shape.len() == 1 && values.len() as i128 != shape[0] as i128 {
            None
        } else {
            Some(IndexTensor { shape, values })
        }
    }

    /// The rank-1 tensor holding `values`.
    pub fn from_values(values: Vec<i64>) -> (t: IndexTensor)
        requires
            values@.len() <= i64::MAX,
        ensures
            t.shape_view() == seq![values@.len() as i64],
            t.values_view() == values@,
    {
        let extent = values.len() as i64;
        let mut shape: Vec<i64> = Vec::new();
        shape.push(extent);
        IndexTensor { shape, values }
    }

    /// The shape.
    pub fn shape(&self) -> (shape: &Vec<i64>)
        ensures
            shape@ == self.shape_view(),
            shape@.len() == 1 ==> self.values_view().len() == shape@[0],
    {
        proof {
            use_type_invariant(self);
        }
        &self.shape
    }

    /// The entries, in row-major order.
    pub fn values(&self) -> (values: &Vec<i64>)
        ensures
            values@ == self.values_view(),
            self.shape_view().len() == 1 ==> values@.len() == self.shape_view()[0],
    {
        proof {
            use_type_invariant(self);
        }
        &self.values
    }
}

/// The length of the elementwise combination of two rank-1 index vectors,
/// where a vector of one entry stands for that entry repeated.
pub open spec fn broadcast_len(left: Seq<i64>, right: Seq<i64>) -> int {
    if left.len() == 1 {
        right.len() as int
    } else {
        left.len() as int
    }
}

/// Two rank-1 index vectors that can be combined elementwise.
pub open spec fn broadcastable(left: Seq<i64>, right: Seq<i64>) -> bool {
    left.len() == right.len() || left.len() == 1 || right.len() == 1
}

/// Entry `k` of a vector taking part in an elementwise combination.
pub open spec fn broadcast_at(values: Seq<i64>, k: int) -> i64 {
    if values.len() == 1 {
        values[0]
    } else {
        values[k]
    }
}

/// The row of entry `token` of batch `batch` once the batch and token axes,
/// of which the token axis has `per_batch` entries, are flattened into one.
pub open spec fn linear_id(batch: int, token: int, per_batch: int) -> int {
    batch * per_batch + token
}

/// Flattened row indexes `batch_ids[k] * per_batch + token_ids[k]`, with a
/// one-entry vector repeated against the other.
pub fn flattened_ids(batch_ids: &Vec<i64>, token_ids: &Vec<i64>, per_batch: i64) -> (ids: Vec<i64>)
    requires
        broadcastable(batch_ids@, token_ids@),
        forall|k: int|
            0 <= k < broadcast_len(batch_ids@, token_ids@) ==> i64::MIN <= #[trigger] linear_id(
                broadcast_at(batch_ids@, k) as int,
                broadcast_at(token_ids@, k) as int,
                per_batch as int,
            ) <= i64::MAX,
    ensures
        ids@.len() == broadcast_len(batch_ids@, token_ids@),
        forall|k: int|
            0 <= k < ids@.len() ==> ids@[k] == linear_id(
                broadcast_at(batch_ids@, k) as int,
                broadcast_at(token_ids@, k) as int,
                per_batch as int,
            ),
{
    let count = if batch_ids.len() == 1 {
        token_ids.len()
    } else {
        batch_ids.len()
    };
    let mut ids: Vec<i64> = Vec::new();
    let mut k: usize = 0;
    while k < count
        invariant
            count == broadcast_len(batch_ids@, token_ids@),
            broadcastable(batch_ids@, token_ids@),
            k <= count,
            ids@.len() == k,
            forall|j: int|
                0 <= j < broadcast_len(batch_ids@, token_ids@) ==> i64::MIN <= #[trigger] linear_id(
                    broadcast_at(batch_ids@, j) as int,
                    broadcast_at(token_ids@, j) as int,
                    per_batch as int,
                ) <= i64::MAX,
            forall|j: int|
                0 <= j < k ==> ids@[j] == linear_id(
                    broadcast_at(batch_ids@, j) as int,
                    broadcast_at(token_ids@, j) as int,
                    per_batch as int,
                ),
        decreases count - k,
    {
        let batch = if batch_ids.len() == 1 {
            batch_ids[0]
        } else {
            batch_ids[k]
        };
        let token = if token_ids.len() == 1 {
            token_ids[0]
        } else {
            token_ids[k]
        };
        assert(linear_id(batch as int, token as int, per_batch as int) == linear_id(
            broadcast_at(batch_ids@, k as int) as int,
            broadcast_at(token_ids@, k as int) as int,
            per_batch as int,
        ));
        let product: i128 = (batch as i128) * (per_batch as i128);
        let id: i128 = product + token as i128;
        ids.push(id as i64);
        k = k + 1;
    }
    ids
}

/// A flattened row index, read back, gives the batch and the token: for
/// `0 <= token < per_batch`, `id / per_batch == batch` and `id % per_batch == token`.
pub proof fn lemma_linear_id_decomposes(batch: int, token: int, per_batch: int)
    requires
        per_batch > 0,
        0 <= token < per_batch,
    ensures
        linear_id(batch, token, per_batch) / per_batch == batch,
        linear_id(batch, token, per_batch) % per_batch == token,
{
    vstd::arithmetic::div_mod::lemma_fundamental_div_mod_converse(
        batch * per_batch + token,
        per_batch,
        batch,
        token,
    );
}

/// Distinct (batch, token) pairs with tokens in range get distinct rows.
pub proof fn lemma_linear_id_injective(b1: int, t1: int, b2: int, t2: int, per_batch: int)
    requires
        per_batch > 0,
        0 <= t1 < per_batch,
        0 <= t2 < per_batch,
        linear_id(b1, t1, per_batch) == linear_id(b2, t2, per_batch),
    ensures
        b1 == b2,
        t1 == t2,
{
    lemma_linear_id_decomposes(b1, t1, per_batch);
    lemma_linear_id_decomposes(b2, t2, per_batch);
}

} // verus!
