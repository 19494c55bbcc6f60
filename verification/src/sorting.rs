//! Ordering lists by a text key, as `sort_by` with `String::cmp` orders them.

use crate::text::{lemma_lex_total, lemma_lex_transitive, lex_le, lex_le_chars};
use vstd::multiset::Multiset;
use vstd::prelude::*;
use vstd::seq_lib::to_multiset_insert;

verus! {

/// A value listed in order of a text key.
pub trait SortKey: Sized {
    /// The key's characters.
    spec fn sort_key(&self) -> Seq<char>;

    /// Computes the key's characters.
    fn sort_key_chars(&self) -> (r: Vec<char>)
        ensures
            r@ == self.sort_key(),
    ;
}

/// The keys of `s` never decrease.
pub open spec fn sorted_by_key<T: SortKey>(s: Seq<T>) -> bool {
    forall|i: int, j: int|
        0 <= i < j < s.len() ==> lex_le(#[trigger] s[i].sort_key(), #[trigger] s[j].sort_key())
}

/// Sorts `items` by key: the result holds the same items, keys never decreasing.
pub fn sort_by_key<T: SortKey>(items: Vec<T>) -> (r: Vec<T>)
    ensures
        r@.len() == items@.len(),
        r@.to_multiset() == items@.to_multiset(),
        sorted_by_key(r@),
{
    let ghost original = items@;
    let mut rest = items;
    let mut out: Vec<T> = Vec::new();
    proof {
        assert(out@.to_multiset() =~= Multiset::empty()) by {
            broadcast use vstd::seq_lib::group_to_multiset_ensures;

        }
        assert(Multiset::<T>::empty().add(rest@.to_multiset()) =~= rest@.to_multiset()) by {
            broadcast use vstd::multiset::group_multiset_axioms;

        }
    }
    while rest.len() > 0
        invariant
            out@.to_multiset().add(rest@.to_multiset()) == original.to_multiset(),
            out@.len() + rest@.len() == original.len(),
            sorted_by_key(out@),
        decreases rest@.len(),
    {
        let ghost before_rest = rest@;
        let x = rest.remove(0);
        proof {
            assert(before_rest =~= rest@.insert(0, x));
            to_multiset_insert(rest@, 0, x);
        }
        let key = x.sort_key_chars();
        let mut k: usize = 0;
        while k < out.len() && lex_le_chars(&out[k].sort_key_chars(), &key)
            invariant
                k <= out@.len(),
                key@ == x.sort_key(),
                forall|j: int| 0 <= j < k ==> lex_le(#[trigger] out@[j].sort_key(), x.sort_key()),
            decreases out@.len() - k,
        {
            k = k + 1;
        }
        let ghost before = out@;
        proof {
            if k < before.len() {
                lemma_lex_total(before[k as int].sort_key(), x.sort_key());
            }
        }
        out.insert(k, x);
        proof {
            to_multiset_insert(before, k as int, x);
            assert(out@.to_multiset().add(rest@.to_multiset()) =~= original.to_multiset()) by {
                broadcast use vstd::multiset::group_multiset_axioms;

            }
            assert forall|i: int, j: int| 0 <= i < j < out@.len() implies lex_le(
                #[trigger] out@[i].sort_key(),
                #[trigger] out@[j].sort_key(),
            ) by {
                if j < k {
                    assert(out@[i] == before[i]);
                    assert(out@[j] == before[j]);
                } else if j == k {
                    assert(out@[i] == before[i]);
                } else if i == k {
                    assert(out@[j] == before[j - 1]);
                    if j - 1 > k {
                        assert(lex_le(before[k as int].sort_key(), before[j - 1].sort_key()));
                        lemma_lex_transitive(
                            x.sort_key(),
                            before[k as int].sort_key(),
                            before[j - 1].sort_key(),
                        );
                    }
                } else if i < k {
                    assert(out@[i] == before[i]);
                    assert(out@[j] == before[j - 1]);
                } else {
                    assert(out@[i] == before[i - 1]);
                    assert(out@[j] == before[j - 1]);
                }
            }
        }
    }
    proof {
        assert(rest@.to_multiset() =~= Multiset::empty()) by {
            broadcast use vstd::seq_lib::group_to_multiset_ensures;

        }
        assert(out@.to_multiset().add(Multiset::empty()) =~= out@.to_multiset()) by {
            broadcast use vstd::multiset::group_multiset_axioms;

        }
    }
    out
}

} // verus!
