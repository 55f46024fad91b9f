//! Sets of strings kept as strictly ascending vectors (the order in which
//! a `BTreeSet<String>` iterates).
use vstd::prelude::*;
use crate::event::{lemma_lex_irreflexive, lemma_lex_transitive, lemma_lex_trichotomy, lex_lt, str_compare};
use crate::text::views;

verus! {

/// Strictly ascending in code point order, hence without repeats.
pub open spec fn strictly_sorted(s: Seq<Seq<char>>) -> bool {
    forall|i: int, j: int| 0 <= i < j < s.len() ==> lex_lt(#[trigger] s[i], #[trigger] s[j])
}

/// Adds `s` to a strictly ascending vector, keeping it so.
pub fn insert_sorted(v: &mut Vec<String>, s: String)
    requires
        strictly_sorted(views(old(v)@)),
    ensures
        strictly_sorted(views(final(v)@)),
        views(final(v)@).to_set() == views(old(v)@).to_set().insert(s@),
        views(old(v)@).contains(s@) ==> final(v)@ == old(v)@,
{
    let ghost v0 = views(v@);
    let mut i: usize = 0;
    while i < v.len()
        invariant
            i <= v.len(),
            v0 == views(v@),
            strictly_sorted(v0),
            forall|k: int| 0 <= k < i ==> lex_lt(#[trigger] v0[k], s@),
        ensures
            i <= v.len(),
            forall|k: int| 0 <= k < i ==> lex_lt(#[trigger] v0[k], s@),
            i < v.len() ==> lex_lt(s@, v0[i as int]),
        decreases v.len() - i,
    {
        let c = str_compare(v[i].as_str(), s.as_str());
        if c == 0 {
            proof {
                assert(v0[i as int] == s@);
                assert(v0.to_set().insert(s@) =~= v0.to_set());
                assert(v0.contains(s@));
            }
            return;
        }
        if c == 1 {
            break;
        }
        i += 1;
    }
    proof {
        assert(!v0.contains(s@)) by {
            if v0.contains(s@) {
                let k = choose|k: int| 0 <= k < v0.len() && v0[k] == s@;
                if k < i {
                    lemma_lex_irreflexive(s@);
                } else {
                    assert(lex_lt(s@, v0[i as int]));
                    if k > i {
                        assert(lex_lt(v0[i as int], v0[k]));
                        lemma_lex_transitive(s@, v0[i as int], s@);
                    }
                    lemma_lex_irreflexive(s@);
                }
            }
        }
    }
    v.insert(i, s);
    proof {
        let v1 = views(v@);
        assert(v1 =~= v0.insert(i as int, s@));
        assert forall|a: int, b: int| 0 <= a < b < v1.len() implies lex_lt(#[trigger] v1[a], #[trigger] v1[b]) by {
            if b < i {
                assert(v1[a] == v0[a] && v1[b] == v0[b]);
            } else if b == i {
                assert(v1[a] == v0[a]);
            } else if a == i {
                assert(v1[b] == v0[b - 1]);
                if b - 1 > i {
                    assert(lex_lt(v0[i as int], v0[b - 1]));
                    lemma_lex_transitive(s@, v0[i as int], v0[b - 1]);
                }
            } else if a < i {
                assert(v1[a] == v0[a] && v1[b] == v0[b - 1]);
                if a < b - 1 {
                } else {
                }
                assert(lex_lt(v0[a], s@));
                assert(lex_lt(s@, v0[i as int]));
                if b - 1 > i {
                    assert(lex_lt(v0[i as int], v0[b - 1]));
                    lemma_lex_transitive(s@, v0[i as int], v0[b - 1]);
                }
                lemma_lex_transitive(v0[a], s@, v0[b - 1]);
            } else {
                assert(v1[a] == v0[a - 1] && v1[b] == v0[b - 1]);
            }
        }
        assert(v1.to_set() =~= v0.to_set().insert(s@)) by {
            assert forall|x: Seq<char>| v1.to_set().contains(x) <==> v0.to_set().insert(s@).contains(x) by {
                if v1.contains(x) {
                    let k = choose|k: int| 0 <= k < v1.len() && v1[k] == x;
                    if k < i {
                        assert(v0[k] == x);
                    } else if k > i {
                        assert(v0[k - 1] == x);
                    }
                }
                if v0.contains(x) {
                    let k = choose|k: int| 0 <= k < v0.len() && v0[k] == x;
                    if k < i {
                        assert(v1[k] == x);
                    } else {
                        assert(v1[k + 1] == x);
                    }
                }
                if x == s@ {
                    assert(v1[i as int] == x);
                }
            }
        }
    }
}

} // verus!
