//! Sets of texts kept as lists sorted by code point, each text once: the
//! order in which a `BTreeSet<String>` yields its texts.
use vstd::prelude::*;

use crate::strings::{
    lemma_text_order_antisymmetric, lemma_text_order_transitive, str_compare, str_eq, text_lt,
};

verus! {

/// The texts a list holds.
pub open spec fn text_set(v: Seq<String>) -> Set<Seq<char>> {
    Set::new(|t: Seq<char>| exists|i: int| 0 <= i < v.len() && #[trigger] v[i]@ == t)
}

/// Each text of the list is smaller than every later one: the list is sorted
/// and holds no text twice.
pub open spec fn sorted_unique(v: Seq<String>) -> bool {
    forall|i: int, j: int| 0 <= i < j < v.len() ==> text_lt(#[trigger] v[i]@, #[trigger] v[j]@)
}

/// Adds `item` to a sorted list of distinct texts, at its place; a text the
/// list holds already is not added again.
pub fn insert_text(out: &mut Vec<String>, item: String)
    requires
        sorted_unique(old(out)@),
    ensures
        sorted_unique(final(out)@),
        text_set(final(out)@) == text_set(old(out)@).insert(item@),
{
    let n: usize = out.len();
    let mut i: usize = 0;
    while i < n && str_compare(out[i].as_str(), item.as_str()) < 0
        invariant
            n == out@.len(),
            i <= n,
            forall|j: int| 0 <= j < i ==> text_lt(#[trigger] out@[j]@, item@),
        decreases n - i,
    {
        i = i + 1;
    }
    let ghost before = out@;
    if i < n && str_eq(out[i].as_str(), item.as_str()) {
        assert(text_set(before).insert(item@) =~= text_set(before));
        return;
    }
    proof {
        if i < n {
            lemma_text_order_antisymmetric(before[i as int]@, item@);
            assert(text_lt(item@, before[i as int]@));
        }
    }
    out.insert(i, item);
    proof {
        let after = out@;
        assert forall|a: int, b: int| 0 <= a < b < after.len() implies text_lt(
            #[trigger] after[a]@,
            #[trigger] after[b]@,
        ) by {
            if b == i {
                assert(after[a] == before[a]);
            } else if a == i {
                assert(after[b] == before[b - 1]);
                if b - 1 > i {
                    assert(text_lt(before[i as int]@, before[b - 1]@));
                    lemma_text_order_transitive(item@, before[i as int]@, before[b - 1]@);
                }
            } else if b < i {
                assert(after[a] == before[a] && after[b] == before[b]);
            } else if a < i {
                assert(after[a] == before[a] && after[b] == before[b - 1]);
                if b - 1 > i {
                    assert(text_lt(before[i as int]@, before[b - 1]@));
                    lemma_text_order_transitive(item@, before[i as int]@, before[b - 1]@);
                }
                lemma_text_order_transitive(before[a]@, item@, before[b - 1]@);
            } else {
                assert(after[a] == before[a - 1] && after[b] == before[b - 1]);
            }
        }
        assert forall|t: Seq<char>| #[trigger] text_set(after).contains(t) == text_set(
            before,
        ).insert(item@).contains(t) by {
            if text_set(before).contains(t) && t != item@ {
                let k = choose|k: int| 0 <= k < before.len() && #[trigger] before[k]@ == t;
                if k < i {
                    assert(after[k]@ == t);
                } else {
                    assert(after[k + 1]@ == t);
                }
            }
            if text_set(after).contains(t) {
                let k = choose|k: int| 0 <= k < after.len() && #[trigger] after[k]@ == t;
                if k < i {
                    assert(before[k]@ == t);
                } else if k > i {
                    assert(before[k - 1]@ == t);
                }
            }
            if t == item@ {
                assert(after[i as int]@ == t);
            }
        }
        assert(text_set(after) =~= text_set(before).insert(item@));
    }
}

/// Adds each text of `items` to a sorted list of distinct texts.
pub fn insert_texts(out: &mut Vec<String>, items: &Vec<String>)
    requires
        sorted_unique(old(out)@),
    ensures
        sorted_unique(final(out)@),
        text_set(final(out)@) == text_set(old(out)@).union(text_set(items@)),
{
    let ghost start = out@;
    let mut i: usize = 0;
    while i < items.len()
        invariant
            i <= items@.len(),
            sorted_unique(out@),
            text_set(out@) == text_set(start).union(text_set(items@.take(i as int))),
        decreases items@.len() - i,
    {
        insert_text(out, items[i].clone());
        proof {
            assert(text_set(items@.take(i as int + 1)) =~= text_set(items@.take(i as int)).insert(
                items@[i as int]@,
            )) by {
                assert forall|t: Seq<char>| #[trigger] text_set(items@.take(i as int + 1)).contains(
                    t,
                ) == text_set(items@.take(i as int)).insert(items@[i as int]@).contains(t) by {
                    if text_set(items@.take(i as int + 1)).contains(t) {
                        let k = choose|k: int|
                            0 <= k < i + 1 && #[trigger] items@.take(i as int + 1)[k]@ == t;
                        if k < i {
                            assert(items@.take(i as int)[k]@ == t);
                        }
                    }
                    if text_set(items@.take(i as int)).contains(t) {
                        let k = choose|k: int|
                            0 <= k < i && #[trigger] items@.take(i as int)[k]@ == t;
                        assert(items@.take(i as int + 1)[k]@ == t);
                    }
                    if t == items@[i as int]@ {
                        assert(items@.take(i as int + 1)[i as int]@ == t);
                    }
                }
            }
            assert(text_set(out@) =~= text_set(start).union(text_set(items@.take(i as int + 1))));
        }
        i = i + 1;
    }
    assert(items@.take(items@.len() as int) =~= items@);
}

/// Whether a list of texts holds `needle`.
pub fn texts_contain(v: &Vec<String>, needle: &str) -> (r: bool)
    ensures
        r == text_set(v@).contains(needle@),
{
    let mut i: usize = 0;
    while i < v.len()
        invariant
            i <= v@.len(),
            forall|j: int| 0 <= j < i ==> #[trigger] v@[j]@ != needle@,
        decreases v@.len() - i,
    {
        if str_eq(v[i].as_str(), needle) {
            assert(text_set(v@).contains(needle@));
            return true;
        }
        i = i + 1;
    }
    false
}

} // verus!
