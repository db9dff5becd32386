//! The list of font families that is offered for choice.

use vstd::prelude::*;
use vstd::utf8::{encode_utf8, encode_utf8_decode_utf8};
use crate::text::{
    lemma_bytes_lt_asymmetric, lemma_bytes_lt_total, lemma_bytes_lt_transitive, text_less, text_lt,
};

verus! {

/// Whether each name of `names` comes before the one behind it, so that no
/// name stands twice.
pub open spec fn strictly_ascending(names: Seq<Seq<char>>) -> bool {
    forall|i: int, j: int| 0 <= i < j < names.len() ==> text_lt(names[i], names[j])
}

/// Whether `listed` holds the names of `names`, each once, in the order of
/// strings.
pub open spec fn lists(listed: Seq<Seq<char>>, names: Seq<Seq<char>>) -> bool {
    &&& strictly_ascending(listed)
    &&& forall|i: int| 0 <= i < listed.len() ==> names.contains(#[trigger] listed[i])
    &&& forall|i: int| 0 <= i < names.len() ==> listed.contains(#[trigger] names[i])
}

/// Of two different texts one comes first.
proof fn lemma_text_lt_total(a: Seq<char>, b: Seq<char>)
    ensures
        a == b || text_lt(a, b) || text_lt(b, a),
{
    lemma_bytes_lt_total(encode_utf8(a), encode_utf8(b));
    if encode_utf8(a) == encode_utf8(b) {
        encode_utf8_decode_utf8(a);
        encode_utf8_decode_utf8(b);
    }
}

/// Lists the font families: every name once, in the order of strings.
pub fn unique_sorted(names: Vec<String>) -> (listed: Vec<String>)
    ensures
        lists(listed.deep_view(), names.deep_view()),
{
    let mut listed: Vec<String> = Vec::new();
    let ghost all = names.deep_view();
    let ghost given = names@;
    proof {
        assert(listed.deep_view() =~= Seq::<Seq<char>>::empty());
    }
    for name in it: names
        invariant
            it.seq() == given,
            all.len() == given.len(),
            forall|k: int| 0 <= k < given.len() ==> all[k] == (#[trigger] given[k])@,
            lists(listed.deep_view(), all.take(it.index() as int)),
    {
        let ghost seen = all.take(it.index() as int);
        let ghost now = all.take(it.index() + 1);
        let ghost before = listed.deep_view();
        proof {
            assert(now == seen.push(name@));
            assert forall|k: int| 0 <= k < seen.len() implies now.contains(seen[k]) by {
                assert(now[k] == seen[k]);
            }
            assert(now[now.len() - 1] == name@);
        }
        let mut pos = listed.len();
        while pos > 0 && text_less(name.as_str(), listed[pos - 1].as_str())
            invariant
                pos <= listed.len(),
                before == listed.deep_view(),
                forall|k: int| pos <= k < before.len() ==> text_lt(name@, #[trigger] before[k]),
            decreases pos,
        {
            pos -= 1;
        }
        let known = pos > 0 && !text_less(listed[pos - 1].as_str(), name.as_str());
        if known {
            proof {
                lemma_text_lt_total(before[pos - 1], name@);
                assert(before[pos - 1] == name@);
                assert forall|k: int| 0 <= k < now.len() implies before.contains(
                    #[trigger] now[k],
                ) by {
                    if k < seen.len() {
                        assert(seen[k] == now[k]);
                    }
                }
                assert forall|k: int| 0 <= k < before.len() implies now.contains(
                    #[trigger] before[k],
                ) by {
                    let w = choose|w: int| 0 <= w < seen.len() && seen[w] == before[k];
                    assert(now[w] == before[k]);
                }
            }
        } else {
            listed.insert(pos, name);
            proof {
                let after = listed.deep_view();
                assert(after =~= before.insert(pos as int, name@));
                if pos > 0 {
                    lemma_text_lt_total(before[pos - 1], name@);
                }
                assert forall|i: int, j: int| 0 <= i < j < after.len() implies text_lt(
                    after[i],
                    after[j],
                ) by {
                    if j < pos {
                    } else if j == pos {
                        assert(text_lt(before[pos - 1], name@));
                        if i < pos - 1 {
                            assert(text_lt(before[i], before[pos - 1]));
                            lemma_bytes_lt_transitive(
                                encode_utf8(before[i]),
                                encode_utf8(before[pos - 1]),
                                encode_utf8(name@),
                            );
                        }
                    } else if i == pos {
                    } else if i < pos {
                        assert(after[i] == before[i]);
                        assert(after[j] == before[j - 1]);
                    } else {
                        assert(after[i] == before[i - 1]);
                        assert(after[j] == before[j - 1]);
                    }
                }
                assert forall|k: int| 0 <= k < after.len() implies now.contains(
                    #[trigger] after[k],
                ) by {
                    if k == pos {
                    } else {
                        let b = if k < pos {
                            k
                        } else {
                            k - 1
                        };
                        assert(after[k] == before[b]);
                        let w = choose|w: int| 0 <= w < seen.len() && seen[w] == before[b];
                        assert(now[w] == before[b]);
                    }
                }
                assert forall|k: int| 0 <= k < now.len() implies after.contains(
                    #[trigger] now[k],
                ) by {
                    if k < seen.len() {
                        assert(seen[k] == now[k]);
                        let w = choose|w: int| 0 <= w < before.len() && before[w] == seen[k];
                        if w < pos {
                            assert(after[w] == before[w]);
                        } else {
                            assert(after[w + 1] == before[w]);
                        }
                    } else {
                        assert(after[pos as int] == name@);
                    }
                }
            }
        }
    }
    proof {
        assert(all.take(all.len() as int) == all);
    }
    listed
}

} // verus!
