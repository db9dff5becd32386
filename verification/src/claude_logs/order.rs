//! Newest first: the order in which sessions and projects are listed.

use vstd::prelude::*;
use crate::text::{lemma_bytes_lt_asymmetric, text_less, text_lt};
use vstd::utf8::encode_utf8;

verus! {

/// The order of time stamps: a missing stamp comes before every stamp, and
/// stamps are ordered as strings.
pub open spec fn stamp_lt(a: Option<Seq<char>>, b: Option<Seq<char>>) -> bool {
    match (a, b) {
        (None, Some(_)) => true,
        (Some(x), Some(y)) => text_lt(x, y),
        _ => false,
    }
}

/// Whether stamp `a` comes before stamp `b`.
pub fn stamp_less(a: &Option<String>, b: &Option<String>) -> (less: bool)
    ensures
        less == stamp_lt(a.deep_view(), b.deep_view()),
{
    match (a, b) {
        (None, Some(_)) => true,
        (Some(x), Some(y)) => text_less(x.as_str(), y.as_str()),
        _ => false,
    }
}

/// Something that has the time stamp it is listed by.
pub trait Stamp {
    spec fn stamp(&self) -> Option<Seq<char>>;
}

/// Something that carries its time stamp with it.
pub trait Stamped: Stamp {
    fn stamp_ref(&self) -> (s: &Option<String>)
        ensures
            s.deep_view() == self.stamp(),
    ;
}

/// Where `x` goes in a list that is ordered newest first: behind the last
/// item that is not older than `x`.
pub open spec fn place_of<T: Stamp>(sorted: Seq<T>, x: T) -> int
    decreases sorted.len(),
{
    if sorted.len() == 0 {
        0
    } else if stamp_lt(sorted.last().stamp(), x.stamp()) {
        place_of(sorted.drop_last(), x)
    } else {
        sorted.len() as int
    }
}

/// `items` ordered newest first, items of one stamp in the order they came.
pub open spec fn newest_first<T: Stamp>(items: Seq<T>) -> Seq<T>
    decreases items.len(),
{
    if items.len() == 0 {
        Seq::empty()
    } else {
        let sorted = newest_first(items.drop_last());
        sorted.insert(place_of(sorted, items.last()), items.last())
    }
}

/// Whether no item of `items` is older than the one behind it.
pub open spec fn is_newest_first<T: Stamp>(items: Seq<T>) -> bool {
    forall|i: int| 0 <= i < items.len() - 1 ==> !stamp_lt(
        (#[trigger] items[i]).stamp(),
        items[i + 1].stamp(),
    )
}

pub proof fn lemma_place_in_range<T: Stamp>(sorted: Seq<T>, x: T)
    ensures
        0 <= place_of(sorted, x) <= sorted.len(),
        place_of(sorted, x) > 0 ==> !stamp_lt(sorted[place_of(sorted, x) - 1].stamp(), x.stamp()),
        place_of(sorted, x) < sorted.len() ==> stamp_lt(
            sorted[place_of(sorted, x)].stamp(),
            x.stamp(),
        ),
    decreases sorted.len(),
{
    if sorted.len() > 0 && stamp_lt(sorted.last().stamp(), x.stamp()) {
        lemma_place_in_range(sorted.drop_last(), x);
    }
}

/// Of two stamps at most one comes before the other.
pub proof fn lemma_stamp_lt_asymmetric(a: Option<Seq<char>>, b: Option<Seq<char>>)
    ensures
        !(stamp_lt(a, b) && stamp_lt(b, a)),
{
    if let (Some(x), Some(y)) = (a, b) {
        lemma_bytes_lt_asymmetric(encode_utf8(x), encode_utf8(y));
    }
}

/// The listing order is an ordering indeed: it holds the items it was given,
/// each as often as it came, and none of them is older than the one behind it.
pub proof fn law_newest_first_orders<T: Stamp>(items: Seq<T>)
    ensures
        newest_first(items).to_multiset() == items.to_multiset(),
        newest_first(items).len() == items.len(),
        is_newest_first(newest_first(items)),
    decreases items.len(),
{
    broadcast use vstd::seq_lib::group_to_multiset_ensures;

    if items.len() == 0 {
    } else {
        let before = items.drop_last();
        let x = items.last();
        let sorted = newest_first(before);
        let p = place_of(sorted, x);
        let out = sorted.insert(p, x);
        law_newest_first_orders(before);
        lemma_place_in_range(sorted, x);
        assert(items == before.push(x));
        assert(out.to_multiset() == sorted.to_multiset().insert(x)) by {
            vstd::seq_lib::to_multiset_insert(sorted, p, x);
        }
        assert forall|i: int| 0 <= i < out.len() - 1 implies !stamp_lt(
            (#[trigger] out[i]).stamp(),
            out[i + 1].stamp(),
        ) by {
            if i + 1 < p {
                assert(out[i] == sorted[i]);
                assert(out[i + 1] == sorted[i + 1]);
            } else if i + 1 == p {
                assert(out[i] == sorted[i]);
            } else if i == p {
                assert(out[i + 1] == sorted[p]);
                lemma_stamp_lt_asymmetric(sorted[p].stamp(), x.stamp());
            } else {
                assert(out[i] == sorted[i - 1]);
                assert(out[i + 1] == sorted[i]);
            }
        }
    }
}

/// The items of `items` that carry the stamp `stamp`, in their order.
pub open spec fn stamped_with<T: Stamp>(items: Seq<T>, stamp: Option<Seq<char>>) -> Seq<T>
    decreases items.len(),
{
    if items.len() == 0 {
        Seq::empty()
    } else if items.last().stamp() == stamp {
        stamped_with(items.drop_last(), stamp).push(items.last())
    } else {
        stamped_with(items.drop_last(), stamp)
    }
}

/// Everything behind the place of `x` is older than `x`.
proof fn lemma_older_behind_place<T: Stamp>(sorted: Seq<T>, x: T)
    ensures
        forall|j: int|
            place_of(sorted, x) <= j < sorted.len() ==> stamp_lt(
                (#[trigger] sorted[j]).stamp(),
                x.stamp(),
            ),
    decreases sorted.len(),
{
    if sorted.len() > 0 && stamp_lt(sorted.last().stamp(), x.stamp()) {
        lemma_older_behind_place(sorted.drop_last(), x);
        lemma_place_in_range(sorted.drop_last(), x);
        assert forall|j: int| place_of(sorted, x) <= j < sorted.len() implies stamp_lt(
            (#[trigger] sorted[j]).stamp(),
            x.stamp(),
        ) by {
            if j < sorted.len() - 1 {
                assert(sorted.drop_last()[j] == sorted[j]);
            }
        }
    }
}

/// Putting `x` in at `p` changes the items of a stamp only by `x`, and where
/// everything from `p` on is of another stamp, `x` comes last among them.
proof fn lemma_stamped_with_insert<T: Stamp>(
    sorted: Seq<T>,
    p: int,
    x: T,
    stamp: Option<Seq<char>>,
)
    requires
        0 <= p <= sorted.len(),
        forall|j: int| p <= j < sorted.len() ==> (#[trigger] sorted[j]).stamp() != x.stamp(),
    ensures
        stamped_with(sorted.insert(p, x), stamp) == if x.stamp() == stamp {
            stamped_with(sorted, stamp).push(x)
        } else {
            stamped_with(sorted, stamp)
        },
    decreases sorted.len() - p,
{
    let out = sorted.insert(p, x);
    if p == sorted.len() {
        assert(out == sorted.push(x));
        assert(out.drop_last() == sorted);
    } else {
        let last = sorted.last();
        assert(out.last() == last);
        assert(out.drop_last() == sorted.drop_last().insert(p, x));
        assert(last == sorted[sorted.len() - 1]);
        assert forall|j: int| p <= j < sorted.drop_last().len() implies (
        #[trigger] sorted.drop_last()[j]).stamp() != x.stamp() by {
            assert(sorted.drop_last()[j] == sorted[j]);
        }
        lemma_stamped_with_insert(sorted.drop_last(), p, x, stamp);
        if x.stamp() == stamp {
            assert(last.stamp() != stamp);
        }
    }
}

/// The listing order keeps what came first in front: the items of one stamp
/// stand in the order in which they were given.
pub proof fn law_newest_first_is_stable<T: Stamp>(items: Seq<T>, stamp: Option<Seq<char>>)
    ensures
        stamped_with(newest_first(items), stamp) == stamped_with(items, stamp),
    decreases items.len(),
{
    if items.len() > 0 {
        let before = items.drop_last();
        let x = items.last();
        let sorted = newest_first(before);
        let p = place_of(sorted, x);
        law_newest_first_is_stable(before, stamp);
        lemma_place_in_range(sorted, x);
        lemma_older_behind_place(sorted, x);
        assert forall|j: int| p <= j < sorted.len() implies (#[trigger] sorted[j]).stamp()
            != x.stamp() by {
            lemma_stamp_lt_asymmetric(sorted[j].stamp(), x.stamp());
        }
        lemma_stamped_with_insert(sorted, p, x, stamp);
    }
}

/// Ordering the items and taking their mathematical form can be done in
/// either order, as long as the form keeps the stamp.
pub proof fn lemma_newest_first_of_views<T: Stamp + DeepView>(items: Seq<T>) where T::V: Stamp
    requires
        forall|x: T| #[trigger] x.deep_view().stamp() == x.stamp(),
    ensures
        newest_first(items).map_values(|x: T| x.deep_view()) == newest_first(
            items.map_values(|x: T| x.deep_view()),
        ),
    decreases items.len(),
{
    let form = |x: T| x.deep_view();
    if items.len() > 0 {
        let before = items.drop_last();
        let x = items.last();
        let sorted = newest_first(before);
        lemma_newest_first_of_views(before);
        assert(items.map_values(form).drop_last() == before.map_values(form));
        assert(items.map_values(form).last() == x.deep_view());
        lemma_place_of_views(sorted, x);
        lemma_place_in_range(sorted, x);
        assert(sorted.insert(place_of(sorted, x), x).map_values(form) == sorted.map_values(
            form,
        ).insert(place_of(sorted, x), x.deep_view()));
    } else {
        assert(items.map_values(form) == Seq::<T::V>::empty());
        assert(newest_first(items).map_values(form) == Seq::<T::V>::empty());
    }
}

proof fn lemma_place_of_views<T: Stamp + DeepView>(sorted: Seq<T>, x: T) where T::V: Stamp
    requires
        forall|x: T| #[trigger] x.deep_view().stamp() == x.stamp(),
    ensures
        place_of(sorted, x) == place_of(sorted.map_values(|x: T| x.deep_view()), x.deep_view()),
    decreases sorted.len(),
{
    let form = |x: T| x.deep_view();
    if sorted.len() > 0 {
        assert(sorted.map_values(form).drop_last() == sorted.drop_last().map_values(form));
        assert(sorted.map_values(form).last() == sorted.last().deep_view());
        lemma_place_of_views(sorted.drop_last(), x);
    }
}

/// Orders `items` newest first; items of one stamp stay in the order they
/// came.
pub fn sort_newest_first<T: Stamped>(items: Vec<T>) -> (out: Vec<T>)
    ensures
        out@ == newest_first(items@),
{
    let mut out: Vec<T> = Vec::new();
    let ghost all = items@;
    for x in it: items
        invariant
            it.seq() == all,
            out@ == newest_first(all.take(it.index() as int)),
    {
        let mut pos = out.len();
        proof {
            assert(out@.take(pos as int) == out@);
        }
        while pos > 0 && stamp_less(out[pos - 1].stamp_ref(), x.stamp_ref())
            invariant
                pos <= out.len(),
                place_of(out@, x) == place_of(out@.take(pos as int), x),
            decreases pos,
        {
            proof {
                assert(out@.take(pos as int).drop_last() == out@.take(pos - 1));
            }
            pos -= 1;
        }
        proof {
            assert(all.take(it.index() + 1).drop_last() == all.take(it.index() as int));
            if pos > 0 {
                assert(out@.take(pos as int).last() == out@[pos - 1]);
            }
        }
        out.insert(pos, x);
    }
    proof {
        assert(all.take(all.len() as int) == all);
    }
    out
}

} // verus!
