//! The dispatch order: a stable sort of registrations by ascending
//! priority.
//!
//! A registration is a pair of a listener handle and an `i32` priority.
//! Dispatch runs listeners with lower priorities first; listeners that
//! share a priority keep their registration order. The order is specified
//! by [`sort_by_priority`], an insertion sort that places each later
//! registration after every already-placed one whose priority is less
//! than or equal to its own.
use vstd::prelude::*;

verus! {

broadcast use vstd::seq_lib::group_to_multiset_ensures;

/// The index of the first entry whose priority strictly exceeds `p`, or
/// the length of `s` if every entry's priority is at most `p`.
pub open spec fn first_exceeding<L>(s: Seq<(L, i32)>, p: i32) -> int
    decreases s.len(),
{
    if s.len() == 0 {
        0
    } else if s[0].1 > p {
        0
    } else {
        1 + first_exceeding(s.drop_first(), p)
    }
}

pub proof fn lemma_first_exceeding_props<L>(s: Seq<(L, i32)>, p: i32)
    ensures
        0 <= first_exceeding(s, p) <= s.len(),
        forall|i: int| 0 <= i < first_exceeding(s, p) ==> s[i].1 <= p,
        first_exceeding(s, p) < s.len() ==> s[first_exceeding(s, p)].1 > p,
    decreases s.len(),
{
    if s.len() == 0 {
    } else if s[0].1 > p {
    } else {
        lemma_first_exceeding_props(s.drop_first(), p);
        assert forall|i: int| 0 <= i < first_exceeding(s, p) implies s[i].1 <= p by {
            if i > 0 {
                assert(s.drop_first()[i - 1] == s[i]);
            }
        }
        if first_exceeding(s, p) < s.len() {
            assert(s.drop_first()[first_exceeding(s.drop_first(), p)] == s[first_exceeding(
                s,
                p,
            )]);
        }
    }
}

/// Where one registration lands among already-placed ones: after every
/// entry whose priority is less than or equal to its own, before the
/// first strictly greater one. A new registration therefore comes after
/// all earlier ones of equal priority.
pub open spec fn insert_by_priority<L>(x: (L, i32), s: Seq<(L, i32)>) -> Seq<(L, i32)> {
    s.insert(first_exceeding(s, x.1), x)
}

/// The order in which dispatch runs a registration list: a stable sort
/// by ascending priority. Registrations are placed left to right, so
/// ties keep their original registration order.
pub open spec fn sort_by_priority<L>(s: Seq<(L, i32)>) -> Seq<(L, i32)>
    decreases s.len(),
{
    if s.len() == 0 {
        Seq::empty()
    } else {
        insert_by_priority(s.last(), sort_by_priority(s.drop_last()))
    }
}

/// Priorities never decrease along the sequence.
pub open spec fn sorted_by_priority<L>(s: Seq<(L, i32)>) -> bool {
    forall|i: int, j: int| 0 <= i <= j < s.len() ==> s[i].1 <= s[j].1
}

/// The registrations whose priority is exactly `p`.
pub open spec fn has_priority<L>(p: i32) -> spec_fn((L, i32)) -> bool {
    |e: (L, i32)| e.1 == p
}

pub proof fn lemma_insert_by_priority_sorted<L>(x: (L, i32), s: Seq<(L, i32)>)
    requires
        sorted_by_priority(s),
    ensures
        sorted_by_priority(insert_by_priority(x, s)),
{
    lemma_first_exceeding_props(s, x.1);
    let j = first_exceeding(s, x.1);
    let r = insert_by_priority(x, s);
    s.insert_ensures(j, x);
    assert forall|a: int, b: int| 0 <= a <= b < r.len() implies r[a].1 <= r[b].1 by {
        if a < j {
            assert(r[a] == s[a]);
        }
        if b < j {
            assert(r[b] == s[b]);
        }
        if a > j {
            assert(r[a] == s[a - 1]);
            assert(s[j].1 > x.1 && s[j].1 <= s[a - 1].1);
        }
        if b > j {
            assert(r[b] == s[b - 1]);
            assert(s[j].1 > x.1 && s[j].1 <= s[b - 1].1);
        }
    }
}

/// The invocation order is sorted: lower priorities run earlier.
pub proof fn lemma_sort_by_priority_sorted<L>(s: Seq<(L, i32)>)
    ensures
        sorted_by_priority(sort_by_priority(s)),
    decreases s.len(),
{
    if s.len() > 0 {
        lemma_sort_by_priority_sorted(s.drop_last());
        lemma_insert_by_priority_sorted(s.last(), sort_by_priority(s.drop_last()));
    }
}

/// The invocation order is a permutation of the registration list: every
/// registration is run exactly once, none is dropped or duplicated.
pub proof fn lemma_sort_by_priority_permutes<L>(s: Seq<(L, i32)>)
    ensures
        sort_by_priority(s).to_multiset() == s.to_multiset(),
    decreases s.len(),
{
    if s.len() > 0 {
        let t = sort_by_priority(s.drop_last());
        lemma_sort_by_priority_permutes(s.drop_last());
        lemma_first_exceeding_props(t, s.last().1);
        assert(s.drop_last().push(s.last()) =~= s);
    }
}

/// A sequence none of whose entries satisfies the predicate filters to
/// the empty sequence.
proof fn lemma_filter_none<L>(s: Seq<(L, i32)>, pred: spec_fn((L, i32)) -> bool)
    requires
        forall|i: int| 0 <= i < s.len() ==> !pred(s[i]),
    ensures
        s.filter(pred) == Seq::<(L, i32)>::empty(),
    decreases s.len(),
{
    reveal(Seq::filter);
    if s.len() > 0 {
        lemma_filter_none(s.drop_last(), pred);
    }
}

proof fn lemma_insert_by_priority_filter<L>(x: (L, i32), s: Seq<(L, i32)>, p: i32)
    requires
        sorted_by_priority(s),
    ensures
        insert_by_priority(x, s).filter(has_priority(p)) == if x.1 == p {
            s.filter(has_priority(p)).push(x)
        } else {
            s.filter(has_priority(p))
        },
{
    reveal(Seq::filter);
    lemma_first_exceeding_props(s, x.1);
    let j = first_exceeding(s, x.1);
    let pred = has_priority::<L>(p);
    let front = s.subrange(0, j);
    let back = s.subrange(j, s.len() as int);
    assert(insert_by_priority(x, s) == front.push(x) + back);
    Seq::filter_distributes_over_add(front.push(x), back, pred);
    assert(front.push(x).drop_last() =~= front);
    assert(front + back =~= s);
    Seq::filter_distributes_over_add(front, back, pred);
    if x.1 == p {
        // everything at or past the insertion point has priority above
        // x.1, so nothing there matches p
        assert forall|i: int| 0 <= i < back.len() implies !pred(back[i]) by {
            if j < s.len() {
                assert(back[i] == s[j + i]);
                assert(s[j].1 <= s[j + i].1);
            }
        }
        lemma_filter_none(back, pred);
        assert(front.filter(pred).push(x) + Seq::<(L, i32)>::empty() =~= front.filter(
            pred,
        ).push(x));
        assert(front.filter(pred) + Seq::<(L, i32)>::empty() =~= front.filter(pred));
        assert(s.filter(pred) == front.filter(pred));
        assert(insert_by_priority(x, s).filter(pred) == front.filter(pred).push(x));
    } else {
        assert(insert_by_priority(x, s).filter(pred) == front.filter(pred) + back.filter(pred));
        assert(s.filter(pred) == front.filter(pred) + back.filter(pred));
    }
}

/// Stability: for every priority `p`, the registrations at priority `p`
/// appear in the invocation order exactly as they were registered. Two
/// listeners registered at equal priority therefore run in their
/// original registration order.
pub proof fn lemma_sort_by_priority_stable<L>(s: Seq<(L, i32)>, p: i32)
    ensures
        sort_by_priority(s).filter(has_priority(p)) == s.filter(has_priority(p)),
    decreases s.len(),
{
    reveal(Seq::filter);
    if s.len() > 0 {
        let t = sort_by_priority(s.drop_last());
        lemma_sort_by_priority_stable(s.drop_last(), p);
        lemma_sort_by_priority_sorted(s.drop_last());
        lemma_insert_by_priority_filter(s.last(), t, p);
    }
}

/// The index of the first entry whose priority equals `p`, or the
/// length of `s` if no entry's priority is `p`.
pub open spec fn first_at<L>(s: Seq<(L, i32)>, p: i32) -> int
    decreases s.len(),
{
    if s.len() == 0 {
        0
    } else if s[0].1 == p {
        0
    } else {
        1 + first_at(s.drop_first(), p)
    }
}

pub proof fn lemma_first_at_props<L>(s: Seq<(L, i32)>, p: i32)
    ensures
        0 <= first_at(s, p) <= s.len(),
        forall|i: int| 0 <= i < first_at(s, p) ==> s[i].1 != p,
        first_at(s, p) < s.len() ==> s[first_at(s, p)].1 == p,
    decreases s.len(),
{
    if s.len() == 0 {
    } else if s[0].1 == p {
    } else {
        lemma_first_at_props(s.drop_first(), p);
        assert forall|i: int| 0 <= i < first_at(s, p) implies s[i].1 != p by {
            if i > 0 {
                assert(s.drop_first()[i - 1] == s[i]);
            }
        }
        if first_at(s, p) < s.len() {
            assert(s.drop_first()[first_at(s.drop_first(), p)] == s[first_at(s, p)]);
        }
    }
}

/// A registration list with its first entry at priority `p` removed, or
/// the list unchanged where no entry has priority `p`.
pub open spec fn without_first_at<L>(s: Seq<(L, i32)>, p: i32) -> Seq<(L, i32)> {
    if first_at(s, p) < s.len() {
        s.remove(first_at(s, p))
    } else {
        s
    }
}

/// Removal removes exactly one matching entry where one exists — every
/// other entry, matching or not, keeps its relative order — and leaves
/// a list with no match unchanged.
pub proof fn lemma_without_first_at_removes_one<L>(s: Seq<(L, i32)>, p: i32)
    ensures
        (exists|i: int| 0 <= i < s.len() && s[i].1 == p) ==> {
            let j = first_at(s, p);
            &&& 0 <= j < s.len()
            &&& s[j].1 == p
            &&& without_first_at(s, p) == s.remove(j)
            &&& without_first_at(s, p).len() == s.len() - 1
        },
        (forall|i: int| 0 <= i < s.len() ==> s[i].1 != p) ==> without_first_at(s, p) == s,
{
    lemma_first_at_props(s, p);
    if exists|i: int| 0 <= i < s.len() && s[i].1 == p {
        let w = choose|i: int| 0 <= i < s.len() && s[i].1 == p;
        assert(first_at(s, p) < s.len()) by {
            if first_at(s, p) == s.len() {
                assert(s[w].1 != p);
            }
        }
    }
}

/// Builds the dispatch order for a registration list: an independent
/// copy, stably sorted by ascending priority.
pub(crate) fn sorted_copy<L: Copy>(list: &Vec<(L, i32)>) -> (r: Vec<(L, i32)>)
    ensures
        r@ == sort_by_priority(list@),
{
    let mut r: Vec<(L, i32)> = Vec::new();
    let mut k: usize = 0;
    while k < list.len()
        invariant
            k <= list.len(),
            r@ == sort_by_priority(list@.take(k as int)),
        decreases list.len() - k,
    {
        let x = list[k];
        insert_sorted(&mut r, x);
        proof {
            assert(list@.take(k + 1).drop_last() =~= list@.take(k as int));
            assert(list@.take(k + 1).last() == list@[k as int]);
        }
        k = k + 1;
    }
    proof {
        assert(list@.take(list@.len() as int) =~= list@);
    }
    r
}

/// Places one registration into an already-ordered list at the position
/// [`insert_by_priority`] specifies.
fn insert_sorted<L: Copy>(r: &mut Vec<(L, i32)>, x: (L, i32))
    ensures
        final(r)@ == insert_by_priority(x, old(r)@),
{
    let mut j: usize = 0;
    while j < r.len() && r[j].1 <= x.1
        invariant
            j <= r.len(),
            r == old(r),
            forall|i: int| 0 <= i < j ==> r@[i].1 <= x.1,
        decreases r.len() - j,
    {
        j = j + 1;
    }
    proof {
        lemma_first_exceeding_props(r@, x.1);
        let fe = first_exceeding(r@, x.1);
        assert(j == fe) by {
            if j < fe {
                assert(r@[j as int].1 <= x.1);
            }
            if fe < j {
                assert(r@[fe].1 <= x.1);
            }
        }
    }
    r.insert(j, x);
}

} // verus!
