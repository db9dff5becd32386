//! Taking a text apart at a separator.

use vstd::prelude::*;

verus! {

/// Whether `sep` stands in `s` at position `i`.
pub open spec fn matches_at(s: Seq<char>, sep: Seq<char>, i: int) -> bool {
    0 <= i && i + sep.len() <= s.len() && s.subrange(i, i + sep.len()) == sep
}

/// The first position at which `sep` stands in `s`, if it stands anywhere.
pub open spec fn first_match(s: Seq<char>, sep: Seq<char>) -> Option<int>
    decreases s.len(),
{
    if s.len() == 0 || s.len() < sep.len() {
        None
    } else if matches_at(s, sep, 0) {
        Some(0)
    } else {
        match first_match(s.drop_first(), sep) {
            Some(i) => Some(i + 1),
            None => None,
        }
    }
}

/// The pieces of `s` between the places where `sep`, which is not empty,
/// stands: found from the left, each place taken once.
pub open spec fn pieces_between(s: Seq<char>, sep: Seq<char>) -> Seq<Seq<char>>
    recommends
        sep.len() > 0,
    decreases s.len(),
    when sep.len() > 0
{
    match first_match(s, sep) {
        Some(i) => if 0 <= i && i + sep.len() <= s.len() {
            seq![s.take(i)] + pieces_between(s.skip(i + sep.len()), sep)
        } else {
            seq![s]
        },
        None => seq![s],
    }
}

/// The characters of `s`, each a text of its own.
pub open spec fn letters(s: Seq<char>) -> Seq<Seq<char>> {
    Seq::new(s.len(), |i: int| seq![s[i]])
}

/// The pieces that `s` falls into at `sep`. A text without the separator is
/// one piece. The empty separator stands before and behind every character,
/// so that the pieces are the characters, with an empty piece at either end.
pub open spec fn pieces(s: Seq<char>, sep: Seq<char>) -> Seq<Seq<char>> {
    if sep.len() == 0 {
        seq![Seq::empty()] + letters(s) + seq![Seq::empty()]
    } else {
        pieces_between(s, sep)
    }
}

/// The first match is a match, and nothing before it is.
pub proof fn lemma_first_match(s: Seq<char>, sep: Seq<char>)
    requires
        sep.len() > 0,
    ensures
        first_match(s, sep) matches Some(i) ==> matches_at(s, sep, i) && forall|j: int|
            0 <= j < i ==> !matches_at(s, sep, j),
        first_match(s, sep) is None ==> forall|j: int| !matches_at(s, sep, j),
    decreases s.len(),
{
    if s.len() >= sep.len() && !matches_at(s, sep, 0) {
        let rest = s.drop_first();
        lemma_first_match(rest, sep);
        assert forall|j: int| matches_at(rest, sep, j) == matches_at(s, sep, j + 1) by {
            if 0 <= j && j + sep.len() <= rest.len() {
                assert(rest.subrange(j, j + sep.len()) == s.subrange(j + 1, j + 1 + sep.len()));
            }
        }
        match first_match(rest, sep) {
            Some(i) => {
                assert(matches_at(s, sep, i + 1));
                assert forall|j: int| 0 <= j < i + 1 implies !matches_at(s, sep, j) by {
                    if j > 0 {
                        assert(matches_at(rest, sep, j - 1) == matches_at(s, sep, j));
                    }
                }
            },
            None => {
                assert forall|j: int| !matches_at(s, sep, j) by {
                    if j > 0 {
                        assert(matches_at(rest, sep, j - 1) == matches_at(s, sep, j));
                    }
                }
            },
        }
    }
}

/// A position that matches, with none before it, is the first match.
pub proof fn lemma_first_match_is(s: Seq<char>, sep: Seq<char>, i: int)
    requires
        sep.len() > 0,
        matches_at(s, sep, i),
        forall|j: int| 0 <= j < i ==> !matches_at(s, sep, j),
    ensures
        first_match(s, sep) == Some(i),
{
    lemma_first_match(s, sep);
    match first_match(s, sep) {
        Some(k) => {
            if k < i {
                assert(!matches_at(s, sep, k));
            }
        },
        None => {},
    }
}

/// A text in which the separator stands nowhere has no first match.
pub proof fn lemma_no_match(s: Seq<char>, sep: Seq<char>)
    requires
        sep.len() > 0,
        forall|j: int| !matches_at(s, sep, j),
    ensures
        first_match(s, sep) is None,
{
    lemma_first_match(s, sep);
}

/// The characters of `s`.
pub fn chars_of(s: &str) -> (chars: Vec<char>)
    ensures
        chars@ == s@,
{
    let mut chars: Vec<char> = Vec::new();
    for c in it: s.chars()
        invariant
            it.seq() == s@,
            chars@ == s@.take(it.index() as int),
    {
        proof {
            assert(s@.take(it.index() + 1) == s@.take(it.index() as int).push(c));
        }
        chars.push(c);
    }
    proof {
        assert(s@.take(s@.len() as int) == s@);
    }
    chars
}

/// The text that the characters from `from` up to `to` make.
pub fn text_between(chars: &Vec<char>, from: usize, to: usize) -> (text: String)
    requires
        from <= to <= chars@.len(),
    ensures
        text@ == chars@.subrange(from as int, to as int),
{
    let mut text = String::new();
    let mut i = from;
    while i < to
        invariant
            from <= i <= to <= chars@.len(),
            text@ == chars@.subrange(from as int, i as int),
        decreases to - i,
    {
        proof {
            assert(chars@.subrange(from as int, i + 1) == chars@.subrange(
                from as int,
                i as int,
            ).push(chars@[i as int]));
        }
        text.push(chars[i]);
        i += 1;
    }
    text
}

fn stands_at(chars: &Vec<char>, sep: &Vec<char>, i: usize) -> (yes: bool)
    requires
        sep@.len() > 0,
        i <= chars@.len(),
    ensures
        yes == matches_at(chars@, sep@, i as int),
{
    if sep.len() > chars.len() - i {
        return false;
    }
    let mut k: usize = 0;
    while k < sep.len()
        invariant
            k <= sep@.len(),
            i + sep@.len() <= chars@.len() <= usize::MAX,
            chars@.subrange(i as int, i + k) == sep@.take(k as int),
        decreases sep@.len() - k,
    {
        if chars[i + k] != sep[k] {
            proof {
                if matches_at(chars@, sep@, i as int) {
                    assert(chars@.subrange(i as int, i + sep@.len())[k as int] == sep@[k as int]);
                }
            }
            return false;
        }
        proof {
            assert(chars@.subrange(i as int, i + k + 1) == chars@.subrange(i as int, i + k).push(
                chars@[i + k],
            ));
            assert(sep@.take(k + 1) == sep@.take(k as int).push(sep@[k as int]));
        }
        k += 1;
    }
    proof {
        assert(sep@.take(sep@.len() as int) == sep@);
    }
    true
}

/// Splits `s` at every character.
fn split_letters(chars: &Vec<char>) -> (parts: Vec<String>)
    ensures
        parts.deep_view() == seq![Seq::<char>::empty()] + letters(chars@) + seq![
            Seq::<char>::empty(),
        ],
{
    let mut parts: Vec<String> = Vec::new();
    parts.push(String::new());
    for i in 0..chars.len()
        invariant
            parts.deep_view() == seq![Seq::<char>::empty()] + letters(chars@.take(i as int)),
    {
        let ghost before = parts.deep_view();
        let piece = text_between(chars, i, i + 1);
        parts.push(piece);
        proof {
            assert(piece@ =~= seq![chars@[i as int]]);
            assert(letters(chars@.take(i + 1)) =~= letters(chars@.take(i as int)).push(piece@));
            assert(parts.deep_view() =~= before.push(piece@));
        }
    }
    let ghost before = parts.deep_view();
    parts.push(String::new());
    proof {
        assert(chars@.take(chars.len() as int) == chars@);
        assert(parts.deep_view() =~= before + seq![Seq::<char>::empty()]);
    }
    parts
}

/// Splits `s` at every place where `separator` stands.
pub fn split(s: &str, separator: &str) -> (parts: Vec<String>)
    ensures
        parts.deep_view() == pieces(s@, separator@),
{
    let chars = chars_of(s);
    let sep = chars_of(separator);
    if sep.len() == 0 {
        return split_letters(&chars);
    }
    let mut parts: Vec<String> = Vec::new();
    let mut start: usize = 0;
    let mut i: usize = 0;
    proof {
        assert(chars@.skip(0) == chars@);
        assert(parts.deep_view() =~= Seq::<Seq<char>>::empty());
    }
    while i < chars.len()
        invariant
            sep@.len() > 0,
            start <= i <= chars@.len(),
            pieces_between(chars@, sep@) == parts.deep_view() + pieces_between(
                chars@.skip(start as int),
                sep@,
            ),
            forall|j: int| 0 <= j < i - start ==> !matches_at(chars@.skip(start as int), sep@, j),
        decreases chars@.len() - i,
    {
        let ghost rest = chars@.skip(start as int);
        proof {
            if i + sep@.len() <= chars@.len() {
                assert(rest.subrange(i - start, i - start + sep@.len()) == chars@.subrange(
                    i as int,
                    i + sep@.len(),
                ));
            }
            assert(matches_at(rest, sep@, i - start) == matches_at(chars@, sep@, i as int));
        }
        if stands_at(&chars, &sep, i) {
            proof {
                lemma_first_match_is(rest, sep@, i - start);
                assert(rest.take(i - start) == chars@.subrange(start as int, i as int));
                assert(rest.skip(i - start + sep@.len()) == chars@.skip(i + sep@.len()));
            }
            let ghost before = parts.deep_view();
            let piece = text_between(&chars, start, i);
            parts.push(piece);
            proof {
                assert(parts.deep_view() =~= before.push(piece@));
                assert(before + (seq![piece@] + pieces_between(chars@.skip(i + sep@.len()), sep@))
                    =~= before.push(piece@) + pieces_between(chars@.skip(i + sep@.len()), sep@));
            }
            i = i + sep.len();
            start = i;
        } else {
            i += 1;
        }
    }
    let ghost rest = chars@.skip(start as int);
    proof {
        assert forall|j: int| !matches_at(rest, sep@, j) by {
            if 0 <= j && j + sep@.len() <= rest.len() {
                assert(j < i - start);
            }
        }
        lemma_no_match(rest, sep@);
        assert(rest == chars@.subrange(start as int, chars@.len() as int));
    }
    let ghost before = parts.deep_view();
    let piece = text_between(&chars, start, chars.len());
    parts.push(piece);
    proof {
        assert(parts.deep_view() =~= before.push(piece@));
        assert(before + seq![piece@] =~= before.push(piece@));
    }
    parts
}

} // verus!
