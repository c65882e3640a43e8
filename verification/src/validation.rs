//! The rules that a builder is held to before anything reaches the catalog:
//! names that must not repeat, and bit ranges that must not collide.

use vstd::prelude::*;

verus! {

/// Whether the item at position `i` clashes with one that stands before it.
pub open spec fn clashes_at<T>(items: Seq<T>, clash: spec_fn(T, T) -> bool, i: int) -> bool {
    exists|k: int| 0 <= k < i && #[trigger] clash(items[k], items[i])
}

/// The position of the first item that clashes with an earlier one, if any
/// item does. `clash` takes the earlier item first.
pub open spec fn first_clash<T>(items: Seq<T>, clash: spec_fn(T, T) -> bool) -> Option<int>
    decreases items.len(),
{
    if items.len() == 0 {
        None
    } else {
        match first_clash(items.drop_last(), clash) {
            Some(i) => Some(i),
            None => if clashes_at(items, clash, items.len() - 1) {
                Some(items.len() - 1)
            } else {
                None
            },
        }
    }
}

/// `first_clash` finds a clashing position before which no position clashes,
/// and finds none only where no position clashes.
pub proof fn lemma_first_clash<T>(items: Seq<T>, clash: spec_fn(T, T) -> bool)
    ensures
        match first_clash(items, clash) {
            Some(i) => {
                &&& 0 <= i < items.len()
                &&& clashes_at(items, clash, i)
                &&& forall|j: int| 0 <= j < i ==> !clashes_at(items, clash, j)
            },
            None => forall|j: int| 0 <= j < items.len() ==> !clashes_at(items, clash, j),
        },
    decreases items.len(),
{
    if items.len() > 0 {
        let earlier = items.drop_last();
        lemma_first_clash(earlier, clash);
        assert forall|j: int| 0 <= j < earlier.len() implies clashes_at(earlier, clash, j)
            == clashes_at(items, clash, j) by {
            if clashes_at(earlier, clash, j) {
                let k = choose|k: int| 0 <= k < j && #[trigger] clash(earlier[k], earlier[j]);
                assert(clash(items[k], items[j]));
            }
            if clashes_at(items, clash, j) {
                let k = choose|k: int| 0 <= k < j && #[trigger] clash(items[k], items[j]);
                assert(clash(earlier[k], earlier[j]));
            }
        }
    }
}

/// Any position that clashes puts the first clash at or before it.
pub proof fn lemma_clash_is_found<T>(items: Seq<T>, clash: spec_fn(T, T) -> bool, k: int, i: int)
    requires
        0 <= k < i < items.len(),
        clash(items[k], items[i]),
    ensures
        first_clash(items, clash) is Some,
        first_clash(items, clash).unwrap() <= i,
{
    lemma_first_clash(items, clash);
    assert(clashes_at(items, clash, i));
}

/// A position that clashes, with none before it that does, is the first
/// clash.
pub proof fn lemma_first_clash_is<T>(items: Seq<T>, clash: spec_fn(T, T) -> bool, i: int)
    requires
        0 <= i < items.len(),
        clashes_at(items, clash, i),
        forall|j: int| 0 <= j < i ==> !clashes_at(items, clash, j),
    ensures
        first_clash(items, clash) == Some(i),
{
    lemma_first_clash(items, clash);
}

/// Two names clash where they are equal.
pub open spec fn same_name() -> spec_fn(Seq<char>, Seq<char>) -> bool {
    |earlier: Seq<char>, later: Seq<char>| earlier == later
}

/// Two names clash where they are equal and not empty: the empty name
/// stands for "anonymous" and may repeat.
pub open spec fn same_given_name() -> spec_fn(Seq<char>, Seq<char>) -> bool {
    |earlier: Seq<char>, later: Seq<char>| later.len() > 0 && earlier == later
}

/// The rule by which names clash: equal names, with the empty name left out
/// where `exempt_empty` is set.
pub open spec fn name_clash(exempt_empty: bool) -> spec_fn(Seq<char>, Seq<char>) -> bool {
    if exempt_empty {
        same_given_name()
    } else {
        same_name()
    }
}

/// The position of the first name that occurred before.
pub fn find_repeat(names: &Vec<String>, exempt_empty: bool) -> (found: Option<usize>)
    ensures
        match found {
            Some(i) => first_clash(names.deep_view(), name_clash(exempt_empty)) == Some(i as int),
            None => first_clash(names.deep_view(), name_clash(exempt_empty)) is None,
        },
{
    let ghost items = names.deep_view();
    let ghost clash = name_clash(exempt_empty);
    let mut i: usize = 0;
    while i < names.len()
        invariant
            i <= names.len(),
            items == names.deep_view(),
            clash == name_clash(exempt_empty),
            forall|j: int| 0 <= j < i ==> !clashes_at(items, clash, j),
        decreases names.len() - i,
    {
        let eligible = !exempt_empty || !names[i].as_str().is_empty();
        if eligible {
            let mut k: usize = 0;
            while k < i
                invariant
                    k <= i < names.len(),
                    items == names.deep_view(),
                    clash == name_clash(exempt_empty),
                    eligible,
                    !exempt_empty || items[i as int].len() > 0,
                    forall|j: int| 0 <= j < i ==> !clashes_at(items, clash, j),
                    forall|j: int| 0 <= j < k ==> !#[trigger] clash(items[j], items[i as int]),
                decreases i - k,
            {
                if names[k] == names[i] {
                    proof {
                        assert(clash(items[k as int], items[i as int]));
                        lemma_first_clash_is(items, clash, i as int);
                    }
                    return Some(i);
                }
                k += 1;
            }
        }
        assert(!clashes_at(items, clash, i as int));
        i += 1;
    }
    proof {
        lemma_first_clash(items, clash);
    }
    None
}

/// Whether the half-open bit range `start..end` collides with the half-open
/// range `other_start..other_end`: it starts inside the other, ends inside
/// the other, or spans the other, the bounds of a spanned range included.
pub open spec fn ranges_collide(start: int, end: int, other_start: int, other_end: int) -> bool {
    ||| other_start <= start < other_end
    ||| other_start < end <= other_end
    ||| (start <= other_start && other_end <= end)
}

/// Whether two ranges of bits collide does not depend on which is asked
/// first.
pub proof fn lemma_collision_is_symmetric(start: int, end: int, other_start: int, other_end: int)
    requires
        start <= end,
        other_start <= other_end,
    ensures
        ranges_collide(start, end, other_start, other_end) == ranges_collide(
            other_start,
            other_end,
            start,
            end,
        ),
{
}

/// Whether the half-open range `start..end` holds the bit.
pub open spec fn holds_bit(start: int, end: int, bit: int) -> bool {
    start <= bit < end
}

/// Two ranges that each hold a bit collide exactly where they share a bit.
/// Ranges that only touch, such as `0..4` and `4..8`, do not.
pub proof fn lemma_collision_is_intersection(start: int, end: int, other_start: int, other_end: int)
    requires
        start < end,
        other_start < other_end,
    ensures
        ranges_collide(start, end, other_start, other_end) == (start < other_end && other_start
            < end),
        ranges_collide(start, end, other_start, other_end) == (exists|bit: int|
            #[trigger] holds_bit(start, end, bit) && holds_bit(other_start, other_end, bit)),
{
    if ranges_collide(start, end, other_start, other_end) {
        let bit = if start >= other_start {
            start
        } else {
            other_start
        };
        assert(holds_bit(start, end, bit) && holds_bit(other_start, other_end, bit));
    }
}

} // verus!
