use vstd::prelude::*;

use crate::entity::Entity;

verus! {

/// A camera of the frame and its draw order.
#[derive(Clone, Copy, Debug, PartialEq, Eq, Structural)]
pub struct SortedCamera {
    pub entity: Entity,
    pub order: isize,
}

/// The frame's cameras in draw order.
#[derive(Debug)]
pub struct SortedCameras(pub Vec<SortedCamera>);

/// `p` lists the positions of `s` in stable ascending order: each position once, by
/// ascending draw order, equal orders keeping their relative order in `s`.
pub open spec fn is_stable_order(s: Seq<SortedCamera>, p: Seq<int>) -> bool {
    &&& p.len() == s.len()
    &&& forall|k: int| 0 <= k < p.len() ==> 0 <= #[trigger] p[k] < s.len()
    &&& forall|k: int, l: int| 0 <= k < l < p.len() ==> p[k] != p[l]
    &&& forall|k: int, l: int|
        0 <= k < l < p.len() ==> (s[p[k]].order < s[p[l]].order || (s[p[k]].order
            == s[p[l]].order && p[k] < p[l]))
}

/// Draw order `o` is held by two cameras that are next to each other in `sorted`.
pub open spec fn is_ambiguous(sorted: Seq<SortedCamera>, o: isize) -> bool {
    exists|k: int| 1 <= k < sorted.len() && sorted[k - 1].order == o && (#[trigger] sorted[k]).order == o
}

/// Puts `cameras` in stable ascending draw order into `sorted_cameras`, and returns, in
/// ascending order and each once, the draw orders that two or more cameras share.
pub fn sort_cameras(sorted_cameras: &mut SortedCameras, cameras: &Vec<SortedCamera>) -> (r: Vec<
    isize,
>)
    ensures
        exists|p: Seq<int>|
            is_stable_order(cameras@, p) && forall|k: int|
                0 <= k < p.len() ==> (#[trigger] final(sorted_cameras).0@[k]) == cameras@[p[k]],
        final(sorted_cameras).0@.len() == cameras@.len(),
        forall|k: int, l: int| 0 <= k < l < r@.len() ==> r@[k] < r@[l],
        forall|o: isize| r@.contains(o) <==> is_ambiguous(final(sorted_cameras).0@, o),
{
    let mut sorted: Vec<SortedCamera> = Vec::new();
    let ghost mut p: Seq<int> = Seq::empty();
    let n = cameras.len();
    let mut i: usize = 0;
    while i < n
        invariant
            0 <= i <= n,
            n == cameras@.len(),
            sorted@.len() == i,
            p.len() == i,
            forall|k: int| 0 <= k < p.len() ==> 0 <= #[trigger] p[k] < i,
            forall|k: int, l: int| 0 <= k < l < p.len() ==> p[k] != p[l],
            forall|k: int| 0 <= k < i ==> (#[trigger] sorted@[k]) == cameras@[p[k]],
            forall|k: int, l: int|
                0 <= k < l < p.len() ==> (cameras@[p[k]].order < cameras@[p[l]].order || (
                cameras@[p[k]].order == cameras@[p[l]].order && p[k] < p[l])),
        decreases n - i,
    {
        let x = cameras[i];
        let mut pos: usize = 0;
        while pos < sorted.len() && sorted[pos].order <= x.order
            invariant
                0 <= pos <= sorted@.len(),
                forall|k: int| 0 <= k < pos ==> (#[trigger] sorted@[k]).order <= x.order,
            decreases sorted@.len() - pos,
        {
            pos = pos + 1;
        }
        proof {
            if pos < sorted@.len() {
                assert forall|k: int| pos <= k < sorted@.len() implies (#[trigger] sorted@[k]).order
                    > x.order by {
                    if k > pos {
                        assert(cameras@[p[pos as int]].order <= cameras@[p[k]].order);
                    }
                }
            }
        }
        let ghost old_sorted = sorted@;
        let ghost old_p = p;
        sorted.insert(pos, x);
        proof {
            p = p.insert(pos as int, i as int);
            assert forall|k: int| 0 <= k < i + 1 implies (#[trigger] sorted@[k]) == cameras@[p[k]] by {
                if k < pos {
                    assert(sorted@[k] == old_sorted[k]);
                } else if k > pos {
                    assert(sorted@[k] == old_sorted[k - 1]);
                }
            }
            assert forall|k: int, l: int| 0 <= k < l < p.len() implies p[k] != p[l] by {
                if k < pos && l > pos {
                    assert(p[l] == old_p[l - 1]);
                } else if k > pos {
                    assert(p[l] == old_p[l - 1]);
                }
            }
            assert forall|k: int, l: int| 0 <= k < l < p.len() implies (cameras@[p[k]].order
                < cameras@[p[l]].order || (cameras@[p[k]].order == cameras@[p[l]].order && p[k]
                < p[l])) by {
                if l == pos {
                    assert(old_sorted[k].order <= x.order);
                    assert(old_sorted[k] == cameras@[old_p[k]]);
                } else if k == pos {
                    assert(old_sorted[l - 1].order > x.order);
                    assert(old_sorted[l - 1] == cameras@[old_p[l - 1]]);
                } else if l < pos {
                } else if k < pos {
                    assert(p[l] == old_p[l - 1]);
                } else {
                    assert(p[l] == old_p[l - 1]);
                    assert(p[k] == old_p[k - 1]);
                }
            }
        }
        i = i + 1;
    }
    proof {
        assert(is_stable_order(cameras@, p));
        assert forall|k: int, l: int| 0 <= k < l < sorted@.len() implies sorted@[k].order
            <= sorted@[l].order by {
            assert(sorted@[k] == cameras@[p[k]]);
            assert(sorted@[l] == cameras@[p[l]]);
        }
    }
    let ambiguities = adjacent_duplicates(&sorted);
    sorted_cameras.0 = sorted;
    proof {
        assert(forall|k: int| 0 <= k < p.len() ==> (#[trigger] sorted_cameras.0@[k]) == cameras@[p[k]]);
    }
    ambiguities
}

/// The values shared by neighbours of a sequence in ascending order, ascending, each once.
fn adjacent_duplicates(sorted: &Vec<SortedCamera>) -> (r: Vec<isize>)
    requires
        forall|k: int, l: int| 0 <= k < l < sorted@.len() ==> sorted@[k].order <= sorted@[l].order,
    ensures
        forall|k: int, l: int| 0 <= k < l < r@.len() ==> r@[k] < r@[l],
        forall|o: isize| r@.contains(o) <==> is_ambiguous(sorted@, o),
{
    let mut r: Vec<isize> = Vec::new();
    let mut i: usize = 1;
    while i < sorted.len()
        invariant
            1 <= i <= sorted@.len() || sorted@.len() == 0,
            forall|k: int, l: int| 0 <= k < l < sorted@.len() ==> sorted@[k].order <= sorted@[l].order,
            forall|k: int, l: int| 0 <= k < l < r@.len() ==> r@[k] < r@[l],
            forall|k: int| 0 <= k < r@.len() && i <= sorted@.len() ==> r@[k] <= sorted@[i - 1].order,
            forall|o: isize|
                r@.contains(o) <==> exists|k: int|
                    1 <= k < i && k < sorted@.len() && sorted@[k - 1].order == o && (#[trigger] sorted@[k]).order == o,
        decreases sorted@.len() - i,
    {
        let o = sorted[i].order;
        let ghost before = r@;
        if sorted[i - 1].order == o {
            let fresh = r.len() == 0 || r[r.len() - 1] != o;
            if fresh {
                r.push(o);
            }
        }
        proof {
            assert forall|q: isize| (exists|k: int|
                1 <= k < i + 1 && k < sorted@.len() && sorted@[k - 1].order == q && (#[trigger] sorted@[k]).order == q) implies r@.contains(q) by {
                let k = choose|k: int|
                    1 <= k < i + 1 && k < sorted@.len() && sorted@[k - 1].order == q && (#[trigger] sorted@[k]).order == q;
                if k < i {
                    assert(sorted@[k - 1].order == q && sorted@[k].order == q);
                    assert(before.contains(q));
                    let j = choose|j: int| 0 <= j < before.len() && before[j] == q;
                    assert(r@[j] == q);
                } else if before.len() > 0 && before[before.len() - 1] == q {
                    assert(r@[before.len() - 1] == q);
                } else {
                    assert(r@[r@.len() - 1] == q);
                }
            }
            assert forall|q: isize| r@.contains(q) implies exists|k: int|
                1 <= k < i + 1 && k < sorted@.len() && sorted@[k - 1].order == q && (#[trigger] sorted@[k]).order == q by {
                let j = choose|j: int| 0 <= j < r@.len() && r@[j] == q;
                if j < before.len() {
                    assert(before[j] == q);
                    assert(before.contains(q));
                } else {
                    assert(sorted@[i as int].order == q);
                    assert(sorted@[i - 1].order == q);
                }
            }
            assert forall|k: int| 0 <= k < r@.len() && i + 1 <= sorted@.len() implies r@[k] <= sorted@[i as int].order by {
                if k < before.len() {
                    assert(sorted@[i - 1].order <= sorted@[i as int].order);
                }
            }
        }
        i = i + 1;
    }
    r
}

/// Two cameras of order zero and one of order one come out as the two order-zero cameras in
/// the order they were given in, then the order-one camera; zero is the one ambiguous order.
pub proof fn lemma_tie_keeps_relative_order(
    a: SortedCamera,
    b: SortedCamera,
    c: SortedCamera,
    p: Seq<int>,
    sorted: Seq<SortedCamera>,
)
    requires
        a.order == 0,
        b.order == 0,
        c.order == 1,
        is_stable_order(seq![a, b, c], p),
        sorted.len() == 3,
        forall|k: int| 0 <= k < 3 ==> #[trigger] sorted[k] == seq![a, b, c][p[k]],
    ensures
        sorted == seq![a, b, c],
        forall|o: isize| is_ambiguous(sorted, o) <==> o == 0,
{
    let s = seq![a, b, c];
    assert(p[0] < 3 && p[1] < 3 && p[2] < 3);
    assert(s[p[0]].order <= s[p[1]].order);
    assert(s[p[1]].order <= s[p[2]].order);
    assert(p[2] == 2);
    assert(p[0] == 0);
    assert(p[1] == 1);
    assert(sorted =~= s);
    assert forall|o: isize| is_ambiguous(sorted, o) <==> o == 0 by {
        if o == 0 {
            assert(sorted[0].order == 0 && sorted[1].order == 0);
        }
    }
}

} // verus!
