//! Stable ordering by a key, largest first (what `sort_by` with
//! `b.key.cmp(&a.key)` gives).
use vstd::prelude::*;

verus! {

/// Whether index `x` comes before index `y`: a larger key first, and the
/// earlier index first among equal keys.
pub open spec fn comes_before(keys: Seq<i32>, x: int, y: int) -> bool {
    keys[x] > keys[y] || (keys[x] == keys[y] && x < y)
}

/// `order` lists every index of `keys` once, largest key first, equal keys
/// in their original order.
pub open spec fn stable_desc_order(keys: Seq<i32>, order: Seq<usize>) -> bool {
    &&& order.len() == keys.len()
    &&& forall|k: int| 0 <= k < order.len() ==> #[trigger] order[k] < keys.len()
    &&& forall|a: int, b: int|
        0 <= a < order.len() && 0 <= b < order.len() && a != b ==> order[a] != order[b]
    &&& forall|a: int, b: int|
        0 <= a < b < order.len() ==> comes_before(keys, #[trigger] order[a] as int, #[trigger] order[b] as int)
}

/// The indices of `keys`, largest key first, equal keys in their order.
pub fn stable_order_desc(keys: &Vec<i32>) -> (order: Vec<usize>)
    ensures
        stable_desc_order(keys@, order@),
{
    let n = keys.len();
    let mut order: Vec<usize> = Vec::new();
    let mut j: usize = 0;
    while j < n
        invariant
            n == keys@.len(),
            j <= n,
            order@.len() == j,
            forall|k: int| 0 <= k < order@.len() ==> #[trigger] order@[k] < j,
            forall|a: int, b: int|
                0 <= a < order@.len() && 0 <= b < order@.len() && a != b ==> order@[a] != order@[b],
            forall|a: int, b: int|
                0 <= a < b < order@.len() ==> comes_before(
                    keys@,
                    #[trigger] order@[a] as int,
                    #[trigger] order@[b] as int,
                ),
        decreases n - j,
    {
        let kj = keys[j];
        let mut p: usize = 0;
        while p < order.len() && keys[order[p]] >= kj
            invariant
                n == keys@.len(),
                j < n,
                p <= order@.len(),
                forall|k: int| 0 <= k < order@.len() ==> #[trigger] order@[k] < j,
                forall|a: int| 0 <= a < p ==> keys@[#[trigger] order@[a] as int] >= kj,
            decreases order@.len() - p,
        {
            p += 1;
        }
        let ghost old_order = order@;
        order.insert(p, j);
        proof {
            assert forall|a: int, b: int|
                0 <= a < b < order@.len() implies comes_before(
                keys@,
                #[trigger] order@[a] as int,
                #[trigger] order@[b] as int,
            ) by {
                if b < p {
                    assert(order@[a] == old_order[a] && order@[b] == old_order[b]);
                } else if b == p {
                    assert(order@[a] == old_order[a]);
                    assert(keys@[old_order[a] as int] >= kj);
                } else if a == p {
                    assert(order@[b] == old_order[b - 1]);
                    assert(keys@[old_order[p as int] as int] < kj);
                    if b - 1 > p {
                        assert(comes_before(keys@, old_order[p as int] as int, old_order[b - 1] as int));
                    }
                } else if a < p {
                    assert(order@[a] == old_order[a] && order@[b] == old_order[b - 1]);
                } else {
                    assert(order@[a] == old_order[a - 1] && order@[b] == old_order[b - 1]);
                }
            }
            assert forall|a: int, b: int|
                0 <= a < order@.len() && 0 <= b < order@.len() && a != b implies order@[a]
                != order@[b] by {
                let a2 = if a < p { a } else { a - 1 };
                let b2 = if b < p { b } else { b - 1 };
                if a != p as int && b != p as int {
                    assert(order@[a] == old_order[a2] && order@[b] == old_order[b2]);
                } else if a == p as int {
                    assert(order@[b] == old_order[b2]);
                } else {
                    assert(order@[a] == old_order[a2]);
                }
            }
            assert forall|k: int| 0 <= k < order@.len() implies #[trigger] order@[k] < j + 1 by {
                if k < p {
                    assert(order@[k] == old_order[k]);
                } else if k > p {
                    assert(order@[k] == old_order[k - 1]);
                }
            }
        }
        j += 1;
    }
    order
}

} // verus!
