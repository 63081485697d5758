//! Sorting that keeps equals in their order.

use vstd::prelude::*;

verus! {

/// A value with a rank by which a sequence of such values is ordered. Ranks compare position by
/// position.
pub trait Ranked: Sized {
    /// The rank.
    spec fn rank(&self) -> (int, int, int);

    /// Whether the rank of `self` is smaller than that of `other`.
    fn ranks_before(&self, other: &Self) -> (r: bool)
        ensures
            r == rank_lt(self.rank(), other.rank()),
    ;
}

/// Whether one rank is smaller than another.
pub open spec fn rank_lt(a: (int, int, int), b: (int, int, int)) -> bool {
    a.0 < b.0 || (a.0 == b.0 && (a.1 < b.1 || (a.1 == b.1 && a.2 < b.2)))
}

/// The values of one rank, in their order.
pub open spec fn with_rank<T: Ranked>(s: Seq<T>, k: (int, int, int)) -> Seq<T> {
    s.filter(|x: T| x.rank() == k)
}

/// Whether the ranks never fall from left to right.
pub open spec fn ascending<T: Ranked>(s: Seq<T>) -> bool {
    forall|i: int, j: int|
        0 <= i < j < s.len() ==> !rank_lt(#[trigger] s[j].rank(), #[trigger] s[i].rank())
}

/// Whether `out` holds the values of `input` by ascending rank, and those of one rank in the order
/// in which `input` has them.
pub open spec fn stably_sorted<T: Ranked>(input: Seq<T>, out: Seq<T>) -> bool {
    &&& ascending(out)
    &&& forall|k: (int, int, int)| #[trigger] with_rank(out, k) == with_rank(input, k)
}

proof fn lemma_none_with_rank<T: Ranked>(s: Seq<T>, k: (int, int, int))
    requires
        forall|i: int| 0 <= i < s.len() ==> (#[trigger] s[i]).rank() != k,
    ensures
        with_rank(s, k) == Seq::<T>::empty(),
    decreases s.len(),
{
    reveal(Seq::filter);
    if s.len() > 0 {
        let front = s.drop_last();
        assert(forall|i: int| 0 <= i < front.len() ==> front[i] == s[i]);
        lemma_none_with_rank(front, k);
        assert(s.last() == s[s.len() - 1]);
    }
}

proof fn lemma_with_rank_of_one<T: Ranked>(x: T, k: (int, int, int))
    ensures
        with_rank(seq![x], k) == if x.rank() == k {
            seq![x]
        } else {
            Seq::empty()
        },
{
    reveal(Seq::filter);
    reveal_with_fuel(Seq::filter, 2);
    assert(seq![x].drop_last() =~= Seq::<T>::empty());
    if x.rank() == k {
        assert(Seq::<T>::empty().push(x) =~= seq![x]);
    }
}

proof fn lemma_with_rank_add<T: Ranked>(a: Seq<T>, b: Seq<T>, k: (int, int, int))
    ensures
        with_rank(a + b, k) == with_rank(a, k) + with_rank(b, k),
{
    Seq::filter_distributes_over_add(a, b, |x: T| x.rank() == k);
}

proof fn lemma_insert_in_front<T: Ranked>(rest: Seq<T>, out: Seq<T>, x: T, p: int)
    requires
        0 <= p <= out.len(),
        stably_sorted(rest, out),
        forall|i: int| 0 <= i < p ==> rank_lt((#[trigger] out[i]).rank(), x.rank()),
        p < out.len() ==> !rank_lt(out[p].rank(), x.rank()),
    ensures
        stably_sorted(seq![x] + rest, out.insert(p, x)),
{
    let new = out.insert(p, x);
    let left = out.take(p);
    let right = out.skip(p);
    assert(new =~= left + seq![x] + right);
    assert(out =~= left + right);
    assert forall|k: (int, int, int)| #[trigger]
        with_rank(new, k) == with_rank(seq![x] + rest, k) by {
        lemma_with_rank_add(left + seq![x], right, k);
        lemma_with_rank_add(left, seq![x], k);
        lemma_with_rank_add(left, right, k);
        lemma_with_rank_add(seq![x], rest, k);
        lemma_with_rank_of_one(x, k);
        assert(with_rank(out, k) == with_rank(rest, k));
        if k == x.rank() {
            assert(forall|i: int| 0 <= i < left.len() ==> left[i] == out[i]);
            lemma_none_with_rank(left, k);
            assert(with_rank(new, k) =~= seq![x] + with_rank(right, k));
            assert(with_rank(out, k) =~= with_rank(right, k));
        } else {
            assert(with_rank(new, k) =~= with_rank(left, k) + with_rank(right, k));
            assert(with_rank(seq![x] + rest, k) =~= with_rank(rest, k));
        }
    }
    assert forall|i: int, j: int| 0 <= i < j < new.len() implies !rank_lt(
        #[trigger] new[j].rank(),
        #[trigger] new[i].rank(),
    ) by {
        let oi = if i < p {
            i
        } else {
            i - 1
        };
        let oj = if j < p {
            j
        } else {
            j - 1
        };
        if i == p {
            assert(new[j] == out[oj]);
            assert(!rank_lt(out[p].rank(), x.rank()));
            if oj > p {
                assert(!rank_lt(out[oj].rank(), out[p].rank()));
            }
        } else if j == p {
            assert(new[i] == out[oi]);
        } else {
            assert(new[i] == out[oi] && new[j] == out[oj]);
            assert(!rank_lt(out[oj].rank(), out[oi].rank()));
        }
    }
}

/// Sorts by ascending rank and keeps values of one rank in their order.
pub fn stable_sort<T: Ranked>(items: Vec<T>) -> (out: Vec<T>)
    ensures
        stably_sorted(items@, out@),
{
    let ghost all = items@;
    let mut items = items;
    let mut out: Vec<T> = Vec::new();
    proof {
        assert(all.skip(all.len() as int) =~= Seq::<T>::empty());
    }
    while items.len() > 0
        invariant
            items@ == all.take(items@.len() as int),
            items@.len() <= all.len(),
            stably_sorted(all.skip(items@.len() as int), out@),
        decreases items@.len(),
    {
        let ghost n = items@.len() as int;
        match items.pop() {
            None => {},
            Some(x) => {
                let mut p: usize = 0;
                while p < out.len() && out[p].ranks_before(&x)
                    invariant
                        p <= out@.len(),
                        forall|i: int| 0 <= i < p ==> rank_lt((#[trigger] out@[i]).rank(), x.rank()),
                    decreases out@.len() - p,
                {
                    p = p + 1;
                }
                proof {
                    lemma_insert_in_front(all.skip(n), out@, x, p as int);
                    assert(all.skip(n - 1) =~= seq![x] + all.skip(n));
                    assert(items@ =~= all.take(n - 1));
                }
                out.insert(p, x);
            },
        }
    }
    proof {
        assert(all.skip(0) =~= all);
    }
    out
}

proof fn lemma_count_with_rank<T: Ranked>(s: Seq<T>, x: T)
    ensures
        s.to_multiset().count(x) == with_rank(s, x.rank()).to_multiset().count(x),
    decreases s.len(),
{
    broadcast use vstd::seq_lib::group_to_multiset_ensures;

    reveal(Seq::filter);
    if s.len() > 0 {
        let front = s.drop_last();
        lemma_count_with_rank(front, x);
        assert(s =~= front.push(s.last()));
    } else {
        assert(with_rank(s, x.rank()) =~= s);
    }
}

/// Sorting neither adds nor drops a value.
pub proof fn law_sorting_keeps_the_values<T: Ranked>(input: Seq<T>, out: Seq<T>)
    requires
        stably_sorted(input, out),
    ensures
        input.to_multiset() == out.to_multiset(),
{
    assert forall|x: T| #[trigger] input.to_multiset().count(x) == out.to_multiset().count(x) by {
        lemma_count_with_rank(input, x);
        lemma_count_with_rank(out, x);
        assert(with_rank(out, x.rank()) == with_rank(input, x.rank()));
    }
    assert(input.to_multiset() =~= out.to_multiset());
}

} // verus!
