//! The draw order: every primitive handle once, ascending by depth, with
//! primitives of equal depth kept in the order in which they were inserted.

use vstd::prelude::*;

verus! {

/// Primitive `a` is drawn before primitive `b`: it lies deeper, or it lies
/// at the same depth and was inserted earlier.
pub open spec fn drawn_before(depths: Seq<i32>, a: int, b: int) -> bool {
    depths[a] < depths[b] || (depths[a] == depths[b] && a < b)
}

/// `order` is the draw order of primitives whose depths, by handle, are
/// `depths`: each handle stands in it exactly once, and it is a stable sort of
/// the handles by depth.
pub open spec fn is_draw_order(depths: Seq<i32>, order: Seq<usize>) -> bool {
    &&& order.len() == depths.len()
    &&& forall|k: int| 0 <= k < order.len() ==> (#[trigger] order[k]) < depths.len()
    &&& forall|h: usize| (h as int) < depths.len() ==> #[trigger] order.contains(h)
    &&& forall|k1: int, k2: int|
        0 <= k1 < k2 < order.len() ==> drawn_before(depths, #[trigger] order[k1] as int, #[trigger] order[k2] as int)
}

/// Puts handle `n` into `order`, the draw order of the handles below `n`, so
/// that it becomes the draw order of the handles up to `n`.
pub fn insert_handle(order: &mut Vec<usize>, depths: &Vec<i32>, n: usize)
    requires
        n < depths.len(),
        is_draw_order(depths@.subrange(0, n as int), old(order)@),
    ensures
        is_draw_order(depths@.subrange(0, n + 1), final(order)@),
{
    let ghost before = depths@.subrange(0, n as int);
    let ghost after = depths@.subrange(0, n + 1);
    let depth = depths[n];
    let mut p: usize = 0;
    while p < order.len() && depths[order[p]] <= depth
        invariant
            p <= order.len(),
            n < depths.len(),
            is_draw_order(before, order@),
            before == depths@.subrange(0, n as int),
            forall|k: int| 0 <= k < p ==> depths@[#[trigger] order@[k] as int] <= depth,
        decreases order.len() - p,
    {
        p += 1;
    }
    let ghost old_order = order@;
    proof {
        assert forall|k: int| p <= k < old_order.len() implies depths@[#[trigger] old_order[k] as int] > depth by {
            assert(drawn_before(before, old_order[p as int] as int, old_order[k] as int) || k == p);
        }
    }
    order.insert(p, n);
    proof {
        let new_order = order@;
        assert(new_order =~= old_order.insert(p as int, n));
        assert forall|k: int| 0 <= k < new_order.len() implies (#[trigger] new_order[k]) < after.len() by {
            if k > p {
                assert(new_order[k] == old_order[k - 1]);
            }
        }
        assert forall|h: usize| (h as int) < after.len() implies #[trigger] new_order.contains(h) by {
            if h == n {
                assert(new_order[p as int] == n);
            } else {
                assert(old_order.contains(h));
                let k = choose|k: int| 0 <= k < old_order.len() && old_order[k] == h;
                if k < p {
                    assert(new_order[k] == h);
                } else {
                    assert(new_order[k + 1] == h);
                }
            }
        }
        assert forall|k1: int, k2: int| 0 <= k1 < k2 < new_order.len() implies drawn_before(
            after,
            #[trigger] new_order[k1] as int,
            #[trigger] new_order[k2] as int,
        ) by {
            if k1 < p && k2 < p {
                assert(drawn_before(before, old_order[k1] as int, old_order[k2] as int));
            } else if k1 < p && k2 == p {
                assert(depths@[old_order[k1] as int] <= depth);
            } else if k1 < p {
                assert(drawn_before(before, old_order[k1] as int, old_order[k2 - 1] as int));
            } else if k1 == p {
                assert(depths@[old_order[k2 - 1] as int] > depth);
            } else {
                assert(drawn_before(before, old_order[k1 - 1] as int, old_order[k2 - 1] as int));
            }
        }
    }
}

/// The draw order of primitives whose depths, by handle, are `depths`.
pub fn draw_order_of(depths: &Vec<i32>) -> (order: Vec<usize>)
    ensures
        is_draw_order(depths@, order@),
{
    let mut order: Vec<usize> = Vec::new();
    let mut n: usize = 0;
    proof {
        assert(depths@.subrange(0, 0) =~= Seq::<i32>::empty());
    }
    while n < depths.len()
        invariant
            n <= depths.len(),
            is_draw_order(depths@.subrange(0, n as int), order@),
        decreases depths.len() - n,
    {
        insert_handle(&mut order, depths, n);
        n += 1;
    }
    proof {
        assert(depths@.subrange(0, n as int) =~= depths@);
    }
    order
}

/// Of two primitives at the same depth, the one inserted first (the lower
/// handle) is drawn first.
pub proof fn lemma_equal_depths_keep_insertion_order(depths: Seq<i32>, order: Seq<usize>, k1: int, k2: int)
    requires
        is_draw_order(depths, order),
        0 <= k1 < order.len(),
        0 <= k2 < order.len(),
        depths[order[k1] as int] == depths[order[k2] as int],
        order[k1] < order[k2],
    ensures
        k1 < k2,
{
    if k2 < k1 {
        assert(drawn_before(depths, order[k2] as int, order[k1] as int));
    }
}

/// Each element of `s` is drawn before every later one.
spec fn strictly_drawn_in_order(depths: Seq<i32>, s: Seq<usize>) -> bool {
    forall|k1: int, k2: int| 0 <= k1 < k2 < s.len() ==> drawn_before(depths, #[trigger] s[k1] as int, #[trigger] s[k2] as int)
}

proof fn lemma_strictly_ordered_sequences_agree(depths: Seq<i32>, a: Seq<usize>, b: Seq<usize>)
    requires
        strictly_drawn_in_order(depths, a),
        strictly_drawn_in_order(depths, b),
        a.len() == b.len(),
        forall|x: usize| #[trigger] a.contains(x) <==> b.contains(x),
    ensures
        a == b,
    decreases a.len(),
{
    if a.len() > 0 {
        if a[0] != b[0] {
            assert(a.contains(a[0]));
            assert(b.contains(a[0]));
            let j = choose|j: int| 0 <= j < b.len() && b[j] == a[0];
            assert(drawn_before(depths, b[0] as int, b[j] as int));
            assert(b.contains(b[0]));
            assert(a.contains(b[0]));
            let i = choose|i: int| 0 <= i < a.len() && a[i] == b[0];
            assert(drawn_before(depths, a[0] as int, a[i] as int));
        }
        let ta = a.subrange(1, a.len() as int);
        let tb = b.subrange(1, b.len() as int);
        assert forall|x: usize| #[trigger] ta.contains(x) implies tb.contains(x) by {
            let i = choose|i: int| 0 <= i < ta.len() && ta[i] == x;
            assert(drawn_before(depths, a[0] as int, a[i + 1] as int));
            assert(a[i + 1] == x);
            assert(a.contains(x));
            assert(b.contains(x));
            let j = choose|j: int| 0 <= j < b.len() && b[j] == x;
            assert(tb[j - 1] == x);
        }
        assert forall|x: usize| #[trigger] tb.contains(x) implies ta.contains(x) by {
            let j = choose|j: int| 0 <= j < tb.len() && tb[j] == x;
            assert(drawn_before(depths, b[0] as int, b[j + 1] as int));
            assert(b[j + 1] == x);
            assert(b.contains(x));
            assert(a.contains(x));
            let i = choose|i: int| 0 <= i < a.len() && a[i] == x;
            assert(ta[i - 1] == x);
        }
        assert(strictly_drawn_in_order(depths, ta)) by {
            assert forall|k1: int, k2: int| 0 <= k1 < k2 < ta.len() implies drawn_before(
                depths,
                #[trigger] ta[k1] as int,
                #[trigger] ta[k2] as int,
            ) by {
                assert(drawn_before(depths, a[k1 + 1] as int, a[k2 + 1] as int));
            }
        }
        assert(strictly_drawn_in_order(depths, tb)) by {
            assert forall|k1: int, k2: int| 0 <= k1 < k2 < tb.len() implies drawn_before(
                depths,
                #[trigger] tb[k1] as int,
                #[trigger] tb[k2] as int,
            ) by {
                assert(drawn_before(depths, b[k1 + 1] as int, b[k2 + 1] as int));
            }
        }
        lemma_strictly_ordered_sequences_agree(depths, ta, tb);
        assert(a =~= seq![a[0]] + ta);
        assert(b =~= seq![b[0]] + tb);
    }
}

/// The depths decide the draw order: there is only one, so however it was
/// reached (by insertions one at a time, or computed afresh) it is the same.
pub proof fn lemma_draw_order_unique(depths: Seq<i32>, a: Seq<usize>, b: Seq<usize>)
    requires
        is_draw_order(depths, a),
        is_draw_order(depths, b),
    ensures
        a == b,
{
    assert forall|x: usize| #[trigger] a.contains(x) implies b.contains(x) by {
        let i = choose|i: int| 0 <= i < a.len() && a[i] == x;
        assert(a[i] < depths.len());
    }
    assert forall|x: usize| #[trigger] b.contains(x) implies a.contains(x) by {
        let j = choose|j: int| 0 <= j < b.len() && b[j] == x;
        assert(b[j] < depths.len());
    }
    lemma_strictly_ordered_sequences_agree(depths, a, b);
}

} // verus!
