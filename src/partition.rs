use vstd::arithmetic::div_mod::{lemma_div_is_ordered, lemma_fundamental_div_mod, lemma_fundamental_div_mod_converse};
use vstd::arithmetic::mul::lemma_mul_inequality;
use vstd::prelude::*;

verus! {

/// Number of point IDs that one uploaded patch holds at most.
pub const PATCH_STEP_SIZE: u64 = 100000;

/// An inclusive range of point IDs, `min..=max`.
#[derive(Debug, Clone, Copy, PartialEq, Eq, Structural)]
pub struct IdRange {
    pub min: u64,
    pub max: u64,
}

/// Number of patches of width `step` that cover `[id_min, id_max]`.
pub open spec fn patch_count(id_min: int, id_max: int, step: int) -> int {
    (id_max - id_min) / step + 1
}

/// First ID of patch `i`.
pub open spec fn patch_min(id_min: int, step: int, i: int) -> int {
    id_min + i * step
}

/// Index of the patch that holds `id`.
pub open spec fn patch_index(id_min: int, step: int, id: int) -> int {
    (id - id_min) / step
}

/// Last ID of patch `i`: the end of its full width, or `id_max` for a shorter last patch.
pub open spec fn patch_max(id_min: int, id_max: int, step: int, i: int) -> int {
    if id_min + (i + 1) * step - 1 <= id_max {
        id_min + (i + 1) * step - 1
    } else {
        id_max
    }
}

/// The patches of width `step_size` that partition `[id_min, id_max]`, in ascending order.
pub fn patch_id_ranges(id_min: u64, id_max: u64, step_size: u64) -> (r: Vec<IdRange>)
    requires
        id_min <= id_max,
        step_size > 0,
    ensures
        r@.len() == patch_count(id_min as int, id_max as int, step_size as int),
        forall|i: int|
            0 <= i < r@.len() ==> {
                &&& (#[trigger] r@[i]).min == patch_min(id_min as int, step_size as int, i)
                &&& r@[i].max == patch_max(id_min as int, id_max as int, step_size as int, i)
            },
{
    let mut out: Vec<IdRange> = Vec::new();
    let mut current: u64 = id_min;
    assert(id_min + out@.len() * step_size == id_min) by (nonlinear_arith)
        requires
            out@.len() == 0,
    ;
    loop
        invariant_except_break
            current == id_min + out@.len() * step_size,
        invariant
            id_min <= current <= id_max,
            step_size > 0,
            forall|i: int|
                0 <= i < out@.len() ==> {
                    &&& (#[trigger] out@[i]).min == patch_min(id_min as int, step_size as int, i)
                    &&& out@[i].max == patch_max(
                        id_min as int,
                        id_max as int,
                        step_size as int,
                        i,
                    )
                },
        ensures
            out@.len() == patch_count(id_min as int, id_max as int, step_size as int),
            forall|i: int|
                0 <= i < out@.len() ==> {
                    &&& (#[trigger] out@[i]).min == patch_min(id_min as int, step_size as int, i)
                    &&& out@[i].max == patch_max(
                        id_min as int,
                        id_max as int,
                        step_size as int,
                        i,
                    )
                },
        decreases id_max - current,
    {
        let ghost k = out@.len() as int;
        assert(id_min + (k + 1) * step_size == current + step_size) by (nonlinear_arith)
            requires
                current == id_min + k * step_size,
        ;
        let remaining: u64 = id_max - current;
        let last = remaining < step_size;
        let upper: u64 = if last {
            id_max
        } else {
            current + (step_size - 1)
        };
        out.push(IdRange { min: current, max: upper });
        assert(out@[k].max == patch_max(id_min as int, id_max as int, step_size as int, k));
        if last {
            proof {
                lemma_fundamental_div_mod_converse(
                    (id_max - id_min) as int,
                    step_size as int,
                    k,
                    remaining as int,
                );
            }
            break ;
        }
        current = current + step_size;
    }
    out
}

/// Total size of the first `n` point clouds.
pub open spec fn size_before(sizes: Seq<u64>, n: int) -> int
    decreases n,
{
    if n <= 0 {
        0
    } else {
        size_before(sizes, n - 1) + sizes[n - 1]
    }
}

proof fn lemma_size_before_monotonic(sizes: Seq<u64>, m: int, n: int)
    requires
        0 <= m <= n <= sizes.len(),
    ensures
        size_before(sizes, m) <= size_before(sizes, n),
    decreases n - m,
{
    if m < n {
        lemma_size_before_monotonic(sizes, m, n - 1);
    }
}

/// First point ID of each of a sequence of point clouds, so that IDs run on from one
/// cloud to the next: cloud `k` numbers its points from the total size of the clouds
/// before it.
pub fn sequential_id_offsets(sizes: &Vec<u64>) -> (r: Vec<u64>)
    requires
        size_before(sizes@, sizes@.len() as int) <= u64::MAX,
    ensures
        r@.len() == sizes@.len(),
        forall|k: int| 0 <= k < r@.len() ==> #[trigger] r@[k] == size_before(sizes@, k),
        forall|k: int|
            0 <= k < r@.len() - 1 ==> #[trigger] r@[k + 1] == r@[k] + sizes@[k],
{
    let mut r: Vec<u64> = Vec::new();
    let mut total: u64 = 0;
    let mut i: usize = 0;
    while i < sizes.len()
        invariant
            i <= sizes@.len(),
            size_before(sizes@, sizes@.len() as int) <= u64::MAX,
            total == size_before(sizes@, i as int),
            r@.len() == i,
            forall|k: int| 0 <= k < i ==> #[trigger] r@[k] == size_before(sizes@, k),
        decreases sizes@.len() - i,
    {
        r.push(total);
        proof {
            lemma_size_before_monotonic(sizes@, i + 1, sizes@.len() as int);
        }
        total = total + sizes[i];
        i = i + 1;
    }
    r
}

/// Patching the point IDs `[0, n)` with width `s` covers every ID exactly once: the
/// patches start at 0, end at `n - 1`, each begins right after the previous one ends,
/// each but the last is `s` IDs wide, and the last holds between 1 and `s` IDs.
pub proof fn lemma_patches_partition_ids(n: int, s: int)
    requires
        n >= 1,
        s > 0,
    ensures
        patch_min(0, s, 0) == 0,
        patch_max(0, n - 1, s, patch_count(0, n - 1, s) - 1) == n - 1,
        forall|i: int|
            0 <= i < patch_count(0, n - 1, s) - 1 ==> patch_max(0, n - 1, s, i) + 1
                == #[trigger] patch_min(0, s, i + 1),
        forall|i: int|
            0 <= i < patch_count(0, n - 1, s) - 1 ==> #[trigger] patch_max(0, n - 1, s, i)
                - patch_min(0, s, i) + 1 == s,
        1 <= patch_max(0, n - 1, s, patch_count(0, n - 1, s) - 1) - patch_min(
            0,
            s,
            patch_count(0, n - 1, s) - 1,
        ) + 1 <= s,
        forall|id: int|
            0 <= id < n ==> {
                &&& 0 <= #[trigger] patch_index(0, s, id) < patch_count(0, n - 1, s)
                &&& patch_min(0, s, patch_index(0, s, id)) <= id
                &&& id <= patch_max(0, n - 1, s, patch_index(0, s, id))
            },
        forall|i: int, j: int|
            0 <= i < j < patch_count(0, n - 1, s) ==> #[trigger] patch_max(0, n - 1, s, i)
                < #[trigger] patch_min(0, s, j),
{
    let q = (n - 1) / s;
    lemma_fundamental_div_mod(n - 1, s);
    assert(0 <= (n - 1) % s < s);
    assert(q * s <= n - 1 < q * s + s) by (nonlinear_arith)
        requires
            n - 1 == s * q + (n - 1) % s,
            0 <= (n - 1) % s < s,
    ;
    assert(q >= 0) by (nonlinear_arith)
        requires
            q * s <= n - 1 < q * s + s,
            s > 0,
            n >= 1,
    ;
    assert(patch_max(0, n - 1, s, q) == n - 1) by (nonlinear_arith)
        requires
            q * s <= n - 1 < q * s + s,
    ;
    assert forall|i: int| 0 <= i < q implies #[trigger] patch_max(0, n - 1, s, i) == (i + 1) * s
        - 1 by {
        lemma_mul_inequality(i + 1, q, s);
    }
    assert forall|i: int| 0 <= i < q implies #[trigger] patch_max(0, n - 1, s, i) - patch_min(
        0,
        s,
        i,
    ) + 1 == s by {
        assert((i + 1) * s == i * s + s) by (nonlinear_arith);
    }
    assert forall|i: int| 0 <= i < q implies patch_max(0, n - 1, s, i) + 1 == #[trigger] patch_min(
        0,
        s,
        i + 1,
    ) by {}
    assert forall|id: int| 0 <= id < n implies {
        &&& 0 <= #[trigger] patch_index(0, s, id) < patch_count(0, n - 1, s)
        &&& patch_min(0, s, patch_index(0, s, id)) <= id
        &&& id <= patch_max(0, n - 1, s, patch_index(0, s, id))
    } by {
        let i = patch_index(0, s, id);
        lemma_fundamental_div_mod(id, s);
        lemma_div_is_ordered(id, n - 1, s);
        assert(0 <= id % s < s);
        assert(i * s <= id < i * s + s) by (nonlinear_arith)
            requires
                id == s * i + id % s,
                0 <= id % s < s,
        ;
        assert(i >= 0) by (nonlinear_arith)
            requires
                i * s <= id < i * s + s,
                s > 0,
                id >= 0,
        ;
        assert((i + 1) * s == i * s + s) by (nonlinear_arith);
        assert(patch_min(0, s, i) <= id <= patch_max(0, n - 1, s, i));
    }
    assert forall|i: int, j: int|
        0 <= i < j < patch_count(0, n - 1, s) implies #[trigger] patch_max(0, n - 1, s, i)
        < #[trigger] patch_min(0, s, j) by {
        lemma_mul_inequality(i + 1, j, s);
    }
}

} // verus!
