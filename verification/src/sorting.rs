//! An insertion sort for lists whose items carry a total preorder.
use vstd::prelude::*;
use vstd::multiset::Multiset;
use vstd::seq_lib::lemma_multiset_commutative;

verus! {

/// Items with a total preorder: `key_le` says `self` may come before `other`.
pub trait SortKey: Sized {
    spec fn key_le(self, other: Self) -> bool;

    proof fn lemma_key_total(a: Self, b: Self)
        ensures
            a.key_le(b) || b.key_le(a),
    ;

    proof fn lemma_key_transitive(a: Self, b: Self, c: Self)
        requires
            a.key_le(b),
            b.key_le(c),
        ensures
            a.key_le(c),
    ;

    fn key_le_exec(&self, other: &Self) -> (r: bool)
        ensures
            r == self.key_le(*other),
    ;
}

/// Every item may come before every later one.
pub open spec fn sorted_by_key<T: SortKey>(s: Seq<T>) -> bool {
    forall|i: int, j: int| 0 <= i < j < s.len() ==> #[trigger] s[i].key_le(#[trigger] s[j])
}

/// `r` is `v` rearranged by `perm`: `r[i]` is `v[perm[i]]`, and no position
/// of `v` is used twice.
pub open spec fn arranged_by<T>(v: Seq<T>, r: Seq<T>, perm: Seq<int>) -> bool {
    &&& perm.len() == r.len()
    &&& r.len() == v.len()
    &&& forall|i: int| 0 <= i < perm.len() ==> 0 <= #[trigger] perm[i] < v.len() && r[i] == v[perm[i]]
    &&& forall|i: int, j: int| 0 <= i < j < perm.len() ==> #[trigger] perm[i] != #[trigger] perm[j]
}

/// Items of `r` whose keys tie come in the order they had where `perm` took
/// them from.
pub open spec fn keeps_tie_order<T: SortKey>(r: Seq<T>, perm: Seq<int>) -> bool {
    forall|i: int, j: int|
        0 <= i < j < r.len() && #[trigger] r[i].key_le(#[trigger] r[j]) && r[j].key_le(r[i]) ==> perm[i]
            < perm[j]
}

/// `r` is `v` sorted by key, items whose keys tie keeping their order: what
/// a stable sort such as `slice::sort_by` gives.
pub open spec fn stable_sort_of<T: SortKey>(v: Seq<T>, r: Seq<T>) -> bool {
    &&& sorted_by_key(r)
    &&& exists|perm: Seq<int>| arranged_by(v, r, perm) && keeps_tie_order(r, perm)
}

/// The items of `v`, sorted by their key; items whose keys tie keep their order.
pub fn sort_by_key<T: SortKey>(v: Vec<T>) -> (r: Vec<T>)
    ensures
        r@.to_multiset() == v@.to_multiset(),
        stable_sort_of(v@, r@),
{
    broadcast use vstd::seq_lib::group_to_multiset_ensures, vstd::multiset::group_multiset_axioms;

    let ghost original = v@;
    proof {
        assert(Seq::<T>::empty().to_multiset() =~= Multiset::<T>::empty());
        assert(v@.to_multiset().add(Multiset::<T>::empty()) =~= v@.to_multiset());
    }
    let mut rest = v;
    let mut out: Vec<T> = Vec::new();
    let ghost mut perm: Seq<int> = Seq::empty();
    assert(rest@ == original.take(original.len() as int));
    while rest.len() > 0
        invariant
            sorted_by_key(out@),
            rest@.to_multiset().add(out@.to_multiset()) == original.to_multiset(),
            rest@ == original.take(rest@.len() as int),
            rest@.len() + out@.len() == original.len(),
            perm.len() == out@.len(),
            forall|i: int|
                0 <= i < perm.len() ==> rest@.len() <= #[trigger] perm[i] < original.len() && out@[i]
                    == original[perm[i]],
            forall|i: int, j: int| 0 <= i < j < perm.len() ==> #[trigger] perm[i] != #[trigger] perm[j],
            keeps_tie_order(out@, perm),
        decreases rest@.len(),
    {
        let ghost before_rest = rest@;
        let ghost before_out = out@;
        let ghost before_perm = perm;
        let x = rest.pop().unwrap();
        let ghost k: int = rest@.len() as int;
        proof {
            assert(rest@ =~= original.take(k));
            assert(x == original[k]);
        }
        proof {
            assert(before_rest =~= rest@.push(x));
            before_rest.to_multiset_ensures();
            rest@.to_multiset_ensures();
            assert(rest@.push(x).to_multiset() =~= rest@.to_multiset().insert(x));
        }
        let mut p: usize = 0;
        while p < out.len() && !x.key_le_exec(&out[p])
            invariant
                p <= out@.len(),
                out@ == before_out,
                forall|i: int| 0 <= i < p ==> !x.key_le(#[trigger] out@[i]),
            decreases out@.len() - p,
        {
            p = p + 1;
        }
        out.insert(p, x);
        proof {
            perm = before_perm.insert(p as int, k);
            let s = before_out;
            let n = out@;
            assert(n =~= s.subrange(0, p as int).push(x) + s.subrange(p as int, s.len() as int));
            assert(s =~= s.subrange(0, p as int) + s.subrange(p as int, s.len() as int));
            lemma_multiset_commutative(
                s.subrange(0, p as int).push(x),
                s.subrange(p as int, s.len() as int),
            );
            lemma_multiset_commutative(s.subrange(0, p as int), s.subrange(p as int, s.len() as int));
            s.subrange(0, p as int).to_multiset_ensures();
            assert(n.to_multiset() =~= s.to_multiset().insert(x));
            assert forall|i: int, j: int| 0 <= i < j < n.len() implies #[trigger] n[i].key_le(
                #[trigger] n[j],
            ) by {
                if j < p {
                    assert(n[i] == s[i] && n[j] == s[j]);
                } else if j == p {
                    assert(n[i] == s[i]);
                    assert(!x.key_le(s[i]));
                    T::lemma_key_total(x, s[i]);
                } else if i < p {
                    assert(n[i] == s[i] && n[j] == s[j - 1]);
                } else if i == p {
                    assert(n[j] == s[j - 1]);
                    assert(x.key_le(s[p as int]));
                    if j - 1 > p {
                        T::lemma_key_transitive(x, s[p as int], s[j - 1]);
                    }
                } else {
                    assert(n[i] == s[i - 1] && n[j] == s[j - 1]);
                }
            }
            assert forall|i: int|
                0 <= i < perm.len() implies rest@.len() <= #[trigger] perm[i] < original.len()
                && n[i] == original[perm[i]] by {
                if i < p {
                    assert(perm[i] == before_perm[i] && n[i] == s[i]);
                } else if i > p {
                    assert(perm[i] == before_perm[i - 1] && n[i] == s[i - 1]);
                }
            }
            assert forall|i: int, j: int|
                0 <= i < j < perm.len() implies #[trigger] perm[i] != #[trigger] perm[j] by {
                if i != p && j != p {
                    let bi = if i < p { i } else { i - 1 };
                    let bj = if j < p { j } else { j - 1 };
                    assert(perm[i] == before_perm[bi] && perm[j] == before_perm[bj]);
                } else if i == p {
                    assert(perm[j] == before_perm[j - 1]);
                } else {
                    assert(perm[i] == before_perm[i]);
                }
            }
            assert forall|i: int, j: int|
                0 <= i < j < n.len() && #[trigger] n[i].key_le(#[trigger] n[j]) && n[j].key_le(
                    n[i],
                ) implies perm[i] < perm[j] by {
                if i != p && j != p {
                    let bi = if i < p { i } else { i - 1 };
                    let bj = if j < p { j } else { j - 1 };
                    assert(perm[i] == before_perm[bi] && perm[j] == before_perm[bj]);
                    assert(n[i] == s[bi] && n[j] == s[bj]);
                } else if i == p {
                    assert(perm[j] == before_perm[j - 1]);
                } else {
                    assert(n[i] == s[i]);
                    assert(!x.key_le(s[i]));
                }
            }
        }
    }
    proof {
        assert(arranged_by(original, out@, perm));
        assert(rest@ =~= Seq::<T>::empty());
        assert(rest@.to_multiset() =~= Multiset::<T>::empty());
        assert(Multiset::<T>::empty().add(out@.to_multiset()) =~= out@.to_multiset());
        assert(out@.to_multiset() =~= original.to_multiset());
    }
    out
}

} // verus!
