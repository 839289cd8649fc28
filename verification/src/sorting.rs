//! The order in which the comments of a video are stored: by id, keeping the
//! order in which the API sent comments that share an id.
use crate::data::Comment;
use vstd::prelude::*;

verus! {

/// Whether the comments come by nondecreasing id.
pub open spec fn sorted_by_id(s: Seq<Comment>) -> bool {
    forall|i: int, j: int| 0 <= i <= j < s.len() ==> #[trigger] s[i].id <= #[trigger] s[j].id
}

/// Whether a comment has the id `id`.
pub open spec fn has_id(id: i32) -> spec_fn(Comment) -> bool {
    |c: Comment| c.id == id
}

/// The comments with the id `id`, in their order.
pub open spec fn with_id(s: Seq<Comment>, id: i32) -> Seq<Comment> {
    s.filter(has_id(id))
}

/// Whether `r` is `s` sorted by id, where comments with the same id keep the
/// order they have in `s`.
pub open spec fn is_stable_sort_by_id(r: Seq<Comment>, s: Seq<Comment>) -> bool {
    &&& r.len() == s.len()
    &&& sorted_by_id(r)
    &&& forall|id: i32| #[trigger] with_id(r, id) == with_id(s, id)
}

proof fn lemma_with_id_none(s: Seq<Comment>, id: i32)
    requires
        forall|k: int| 0 <= k < s.len() ==> (#[trigger] s[k]).id != id,
    ensures
        with_id(s, id) == Seq::<Comment>::empty(),
    decreases s.len(),
{
    reveal(Seq::filter);
    if s.len() > 0 {
        lemma_with_id_none(s.drop_last(), id);
        assert(s.last() == s[s.len() - 1]);
    }
}

proof fn lemma_with_id_single(c: Comment, id: i32)
    ensures
        with_id(seq![c], id) == (if c.id == id {
            seq![c]
        } else {
            Seq::<Comment>::empty()
        }),
{
    reveal_with_fuel(Seq::filter, 2);
    assert(seq![c].drop_last() =~= Seq::<Comment>::empty());
}

proof fn lemma_with_id_append(a: Seq<Comment>, c: Comment, id: i32)
    ensures
        with_id(a.push(c), id) == with_id(a, id) + with_id(seq![c], id),
{
    assert(a.push(c) =~= a + seq![c]);
    Seq::filter_distributes_over_add(a, seq![c], has_id(id));
}

/// Inserting `c` after the comments whose id is at most its own and before
/// those whose id is greater appends `c` to the comments that share its id.
proof fn lemma_insert_step(out: Seq<Comment>, j: int, c: Comment, id: i32)
    requires
        0 <= j <= out.len(),
        forall|k: int| 0 <= k < j ==> (#[trigger] out[k]).id <= c.id,
        forall|k: int| j <= k < out.len() ==> (#[trigger] out[k]).id > c.id,
    ensures
        with_id(out.insert(j, c), id) == with_id(out, id) + with_id(seq![c], id),
{
    let a = out.take(j);
    let b = out.skip(j);
    assert(out =~= a + b);
    assert(out.insert(j, c) =~= a + seq![c] + b);
    Seq::filter_distributes_over_add(a, b, has_id(id));
    Seq::filter_distributes_over_add(a + seq![c], b, has_id(id));
    Seq::filter_distributes_over_add(a, seq![c], has_id(id));
    lemma_with_id_single(c, id);
    if c.id == id {
        assert forall|k: int| 0 <= k < b.len() implies (#[trigger] b[k]).id != id by {
            assert(b[k] == out[j + k]);
        }
        lemma_with_id_none(b, id);
        assert(with_id(b, id) =~= Seq::<Comment>::empty());
    }
    assert(with_id(out.insert(j, c), id) =~= with_id(out, id) + with_id(seq![c], id));
}

proof fn lemma_with_id_witness(r: Seq<Comment>, id: i32)
    requires
        with_id(r, id).len() > 0,
    ensures
        exists|k: int| 0 <= k < r.len() && (#[trigger] r[k]).id == id,
    decreases r.len(),
{
    reveal(Seq::filter);
    if r.len() > 0 {
        if r.last().id != id {
            lemma_with_id_witness(r.drop_last(), id);
            let k: int = choose|k: int| 0 <= k < r.drop_last().len() && (#[trigger] r.drop_last()[k]).id == id;
            assert(r[k] == r.drop_last()[k]);
        } else {
            assert(r[r.len() - 1].id == id);
        }
    }
}

proof fn lemma_sorted_determined(r1: Seq<Comment>, r2: Seq<Comment>)
    requires
        r1.len() == r2.len(),
        sorted_by_id(r1),
        sorted_by_id(r2),
        forall|id: i32| #[trigger] with_id(r1, id) == with_id(r2, id),
    ensures
        r1 == r2,
    decreases r1.len(),
{
    reveal(Seq::filter);
    if r1.len() == 0 {
        assert(r1 =~= r2);
    } else {
        let n: int = r1.len() as int;
        let a = r1.last();
        let b = r2.last();
        assert(with_id(r1, a.id) == with_id(r1.drop_last(), a.id).push(a));
        assert(with_id(r2, b.id) == with_id(r2.drop_last(), b.id).push(b));
        lemma_with_id_witness(r2, a.id);
        let k2: int = choose|k: int| 0 <= k < r2.len() && (#[trigger] r2[k]).id == a.id;
        assert(r2[k2].id <= r2[n - 1].id);
        lemma_with_id_witness(r1, b.id);
        let k1: int = choose|k: int| 0 <= k < r1.len() && (#[trigger] r1[k]).id == b.id;
        assert(r1[k1].id <= r1[n - 1].id);
        let m: i32 = a.id;
        assert(b.id == m);
        assert(with_id(r1, m) == with_id(r2, m));
        assert(with_id(r1, m).last() == a);
        assert(with_id(r2, m).last() == b);
        assert(a == b);
        assert forall|id: i32| #[trigger] with_id(r1.drop_last(), id) == with_id(r2.drop_last(), id) by {
            if id == m {
                assert(with_id(r1.drop_last(), id) == with_id(r1, id).drop_last());
                assert(with_id(r2.drop_last(), id) == with_id(r2, id).drop_last());
            } else {
                assert(with_id(r1, id) == with_id(r1.drop_last(), id));
                assert(with_id(r2, id) == with_id(r2.drop_last(), id));
            }
        }
        lemma_sorted_determined(r1.drop_last(), r2.drop_last());
        assert(r1 =~= r2.drop_last().push(b));
        assert(r2 =~= r2.drop_last().push(b));
    }
}

/// Sorting comments by id, keeping the order of those that share an id, has
/// one result only.
pub proof fn law_stable_sort_unique(r1: Seq<Comment>, r2: Seq<Comment>, s: Seq<Comment>)
    requires
        is_stable_sort_by_id(r1, s),
        is_stable_sort_by_id(r2, s),
    ensures
        r1 == r2,
{
    lemma_sorted_determined(r1, r2);
}

/// Comments that already come by id are left as they are.
pub proof fn law_sorted_unchanged(r: Seq<Comment>, s: Seq<Comment>)
    requires
        sorted_by_id(s),
        is_stable_sort_by_id(r, s),
    ensures
        r == s,
{
    lemma_sorted_determined(r, s);
}

/// Sorts comments by id; comments that share an id keep their order.
pub fn sort_by_id(comments: &mut Vec<Comment>)
    ensures
        is_stable_sort_by_id(final(comments)@, old(comments)@),
        final(comments)@.to_multiset() == old(comments)@.to_multiset(),
{

    let mut rest: Vec<Comment> = Vec::new();
    std::mem::swap(&mut rest, comments);
    let ghost s = rest@;
    let ghost mut i: int = 0;
    let mut out: Vec<Comment> = Vec::new();
    assert(s.skip(0) =~= s);
    assert(s.take(0) =~= out@);
    while rest.len() > 0
        invariant
            0 <= i <= s.len(),
            rest@ == s.skip(i),
            out@.len() == i,
            sorted_by_id(out@),
            out@.to_multiset() == s.take(i).to_multiset(),
            forall|id: i32| #[trigger] with_id(out@, id) == with_id(s.take(i), id),
        decreases rest@.len(),
    {
        let c = rest.remove(0);
        assert(c == s[i]);
        let mut j: usize = out.len();
        while j > 0 && out[j - 1].id > c.id
            invariant
                j <= out@.len(),
                forall|k: int| j <= k < out@.len() ==> (#[trigger] out@[k]).id > c.id,
            decreases j,
        {
            j -= 1;
        }
        let ghost before = out@;
        proof {
            assert forall|k: int| 0 <= k < j implies (#[trigger] before[k]).id <= c.id by {
                assert(before[k].id <= before[j - 1].id);
            }
            assert forall|id: i32| #[trigger] with_id(before.insert(j as int, c), id) == with_id(
                s.take(i + 1),
                id,
            ) by {
                lemma_insert_step(before, j as int, c, id);
                assert(s.take(i + 1) =~= s.take(i).push(c));
                lemma_with_id_append(s.take(i), c, id);
            }
        }
        out.insert(j, c);
        proof {
            assert forall|p: int, q: int| 0 <= p <= q < out@.len() implies #[trigger] out@[p].id
                <= #[trigger] out@[q].id by {
                if p < j && q < j {
                    assert(out@[p] == before[p] && out@[q] == before[q]);
                } else if p < j && q == j {
                    assert(out@[p] == before[p]);
                } else if p < j {
                    assert(out@[p] == before[p] && out@[q] == before[q - 1]);
                } else if p == j && q > j {
                    assert(out@[q] == before[q - 1]);
                } else if p > j {
                    assert(out@[p] == before[p - 1] && out@[q] == before[q - 1]);
                }
            }
            assert(out@.remove(j as int) =~= before);
            assert(out@[j as int] == c);
            let m = out@.to_multiset();
            out@.to_multiset_ensures();
            s.take(i).to_multiset_ensures();
            assert(out@.contains(c));
            assert(m =~= before.to_multiset().insert(c)) by {
                assert forall|x: Comment| #[trigger] m.count(x) == before.to_multiset().insert(
                    c,
                ).count(x) by {
                    assert(before.to_multiset() == m.remove(c));
                }
            }
            assert(s.take(i + 1) =~= s.take(i).push(c));
            assert(s.skip(i).drop_first() =~= s.skip(i + 1));
            i = i + 1;
        }
    }
    assert(s.take(i) =~= s);
    *comments = out;
}

} // verus!
