//! Searching and thinning out vectors by a test.

use vstd::prelude::*;

use crate::ids::PbxCallId;
use crate::lookup;

verus! {

/// The test decides `p`.
pub open spec fn decides<T, F: Fn(&T) -> bool>(test: F, p: spec_fn(T) -> bool) -> bool {
    &&& forall|x: &T| call_requires(test, (x,))
    &&& forall|x: &T, answer: bool| call_ensures(test, (x,), answer) ==> answer == p(*x)
}

/// The index of the first element that passes the test.
pub fn position<T, F: Fn(&T) -> bool>(
    items: &Vec<T>,
    test: F,
    Ghost(p): Ghost<spec_fn(T) -> bool>,
) -> (found: Option<usize>)
    requires
        decides(test, p),
    ensures
        match found {
            Some(i) => i < items@.len() && lookup::first_at(items@, p, 0) == Some(i as int),
            None => lookup::first_at(items@, p, 0) is None,
        },
{
    let mut i: usize = 0;
    while i < items.len()
        invariant
            decides(test, p),
            0 <= i <= items@.len(),
            lookup::first_at(items@, p, 0) == lookup::first_at(items@, p, i as int),
        decreases items@.len() - i,
    {
        if test(&items[i]) {
            return Some(i);
        }
        i += 1;
    }
    None
}

/// The first element that passes the test.
pub fn find<'a, T, F: Fn(&T) -> bool>(
    items: &'a Vec<T>,
    test: F,
    Ghost(p): Ghost<spec_fn(T) -> bool>,
) -> (found: Option<&'a T>)
    requires
        decides(test, p),
    ensures
        lookup::target(found) == lookup::first(items@, p),
{
    match position(items, test, Ghost(p)) {
        Some(i) => Some(&items[i]),
        None => None,
    }
}

/// Whether an element passes the test.
pub fn any<T, F: Fn(&T) -> bool>(
    items: &Vec<T>,
    test: F,
    Ghost(p): Ghost<spec_fn(T) -> bool>,
) -> (found: bool)
    requires
        decides(test, p),
    ensures
        found == lookup::some(items@, p),
{
    proof {
        lookup::lemma_first_is_some(items@, p);
    }
    position(items, test, Ghost(p)).is_some()
}

/// Takes out what fails the test.
pub fn retain<T, F: Fn(&T) -> bool>(
    items: &mut Vec<T>,
    test: F,
    Ghost(p): Ghost<spec_fn(T) -> bool>,
)
    requires
        decides(test, p),
    ensures
        final(items)@ == old(items)@.filter(p),
{
    let ghost before = items@;
    let mut i: usize = 0;
    while i < items.len()
        invariant
            decides(test, p),
            0 <= i <= items@.len(),
            items@.filter(p) == before.filter(p),
            forall|j: int| 0 <= j < i ==> p(#[trigger] items@[j]),
        decreases items@.len() - i,
    {
        if test(&items[i]) {
            i += 1;
        } else {
            let ghost now = items@;
            proof {
                lookup::lemma_filter_remove(now, p, i as int);
            }
            let _ = items.remove(i);
            assert forall|j: int| 0 <= j < i implies p(#[trigger] items@[j]) by {
                assert(items@[j] == now[j]);
            }
        }
    }
    proof {
        assert(lookup::all(items@, p));
        lookup::lemma_filter_all(items@, p);
    }
}

/// Moves what passes the test to another vector.
pub fn split_off<T, F: Fn(&T) -> bool>(
    items: &mut Vec<T>,
    test: F,
    Ghost(p): Ghost<spec_fn(T) -> bool>,
) -> (taken: Vec<T>)
    requires
        decides(test, p),
    ensures
        taken@ == old(items)@.filter(p),
        final(items)@ == old(items)@.filter(lookup::not(p)),
{
    let ghost before = items@;
    let ghost q = lookup::not(p);
    let mut taken: Vec<T> = Vec::new();
    let mut i: usize = 0;
    let ghost mut seen: int = 0;
    while i < items.len()
        invariant
            decides(test, p),
            q == lookup::not(p),
            0 <= i <= items@.len(),
            0 <= seen <= before.len(),
            items@.skip(i as int) == before.skip(seen),
            items@.filter(q) == before.filter(q),
            taken@ == before.take(seen).filter(p),
            forall|j: int| 0 <= j < i ==> q(#[trigger] items@[j]),
        decreases items@.len() - i,
    {
        let ghost now = items@;
        proof {
            assert(now.skip(i as int).len() == now.len() - i);
            assert(before.skip(seen).len() == before.len() - seen);
            assert(now.skip(i as int)[0] == now[i as int]);
            assert(before.skip(seen)[0] == before[seen]);
            assert(now.skip(i as int).skip(1) =~= now.skip(i + 1));
            assert(before.skip(seen).skip(1) =~= before.skip(seen + 1));
            lookup::lemma_filter_step(before, p, seen);
        }
        if test(&items[i]) {
            proof {
                lookup::lemma_filter_remove(now, q, i as int);
            }
            let item = items.remove(i);
            taken.push(item);
            proof {
                assert(items@.skip(i as int) =~= now.skip(i + 1));
                assert forall|j: int| 0 <= j < i implies q(#[trigger] items@[j]) by {
                    assert(items@[j] == now[j]);
                }
            }
        } else {
            i += 1;
        }
        proof {
            seen = seen + 1;
        }
    }
    proof {
        assert(lookup::all(items@, q));
        lookup::lemma_filter_all(items@, q);
        assert(items@.skip(i as int).len() == 0);
        assert(before.skip(seen).len() == before.len() - seen);
        assert(before.take(seen) =~= before);
    }
    taken
}

/// The function computes `g`.
pub open spec fn computes<T, U, F: Fn(&T) -> Option<U>>(function: F, g: spec_fn(T) -> Option<U>) ->
    bool {
    &&& forall|x: &T| call_requires(function, (x,))
    &&& forall|x: &T, y: Option<U>| call_ensures(function, (x,), y) ==> y == g(*x)
}

/// What the function gives for the first `count` elements, where it gives
/// anything.
pub fn gather<T, U, F: Fn(&T) -> Option<U>>(
    items: &Vec<T>,
    count: usize,
    function: F,
    Ghost(g): Ghost<spec_fn(T) -> Option<U>>,
) -> (gathered: Vec<U>)
    requires
        count <= items@.len(),
        computes(function, g),
    ensures
        gathered@ == items@.take(count as int).filter_map(g),
{
    let mut gathered: Vec<U> = Vec::new();
    proof {
        assert(items@.take(0).filter_map(g) =~= Seq::<U>::empty()) by {
            reveal(Seq::filter_map);
        }
    }
    let mut i: usize = 0;
    while i < count
        invariant
            computes(function, g),
            i <= count <= items@.len(),
            gathered@ == items@.take(i as int).filter_map(g),
        decreases count - i,
    {
        proof {
            lookup::lemma_filter_map_step(items@, g, i as int);
        }
        match function(&items[i]) {
            Some(value) => gathered.push(value),
            None => {},
        }
        i += 1;
    }
    gathered
}

/// Whether one of the first `count` elements passes the test.
pub fn any_of_first<T, F: Fn(&T) -> bool>(
    items: &Vec<T>,
    count: usize,
    test: F,
    Ghost(p): Ghost<spec_fn(T) -> bool>,
) -> (found: bool)
    requires
        count <= items@.len(),
        decides(test, p),
    ensures
        found == lookup::some(items@.take(count as int), p),
{
    let ghost first = items@.take(count as int);
    let mut i: usize = 0;
    while i < count
        invariant
            decides(test, p),
            i <= count <= items@.len(),
            first == items@.take(count as int),
            forall|j: int| 0 <= j < i ==> !p(#[trigger] first[j]),
        decreases count - i,
    {
        if test(&items[i]) {
            assert(p(first[i as int]));
            return true;
        }
        assert(first[i as int] == items@[i as int]);
        i += 1;
    }
    false
}

/// Whether a call is among these.
pub fn has_call(calls: &Vec<PbxCallId>, call: PbxCallId) -> (found: bool)
    ensures
        found == calls@.contains(call),
{
    let mut i: usize = 0;
    while i < calls.len()
        invariant
            0 <= i <= calls@.len(),
            forall|j: int| 0 <= j < i ==> #[trigger] calls@[j] != call,
        decreases calls@.len() - i,
    {
        if calls[i] == call {
            return true;
        }
        i += 1;
    }
    false
}

/// Everything that passes the test, in order.
pub fn select<'a, T, F: Fn(&T) -> bool>(
    items: &'a Vec<T>,
    test: F,
    Ghost(p): Ghost<spec_fn(T) -> bool>,
) -> (selected: Vec<&'a T>)
    requires
        decides(test, p),
    ensures
        selected@.map_values(|item: &T| *item) == items@.filter(p),
{
    let mut selected: Vec<&'a T> = Vec::new();
    proof {
        assert(selected@.map_values(|item: &T| *item) =~= items@.take(0).filter(p)) by {
            reveal(Seq::filter);
        }
    }
    let mut i: usize = 0;
    while i < items.len()
        invariant
            decides(test, p),
            0 <= i <= items@.len(),
            selected@.map_values(|item: &T| *item) == items@.take(i as int).filter(p),
        decreases items@.len() - i,
    {
        proof {
            lookup::lemma_filter_step(items@, p, i as int);
        }
        if test(&items[i]) {
            let ghost before = selected@;
            selected.push(&items[i]);
            proof {
                assert(selected@.map_values(|item: &T| *item) =~= before.map_values(
                    |item: &T| *item,
                ).push(items@[i as int]));
            }
        }
        i += 1;
    }
    proof {
        assert(items@.take(i as int) =~= items@);
    }
    selected
}

/// The numbers grow.
pub open spec fn ascending(ids: Seq<u64>) -> bool {
    forall|i: int, j: int| 0 <= i < j < ids.len() ==> ids[i] < ids[j]
}

/// Puts a number into an ascending list, unless it is there.
pub fn insert_ascending(ids: &mut Vec<u64>, id: u64)
    requires
        ascending(old(ids)@),
    ensures
        ascending(final(ids)@),
        forall|other: u64| #[trigger]
            final(ids)@.contains(other) <==> old(ids)@.contains(other) || other == id,
{
    let ghost before = ids@;
    let mut i: usize = 0;
    while i < ids.len() && ids[i] < id
        invariant
            0 <= i <= ids@.len(),
            ids@ == before,
            forall|j: int| 0 <= j < i ==> (#[trigger] ids@[j]) < id,
        decreases ids@.len() - i,
    {
        i += 1;
    }
    if i < ids.len() && ids[i] == id {
        assert(before[i as int] == id);
        return ;
    }
    ids.insert(i, id);
    proof {
        assert forall|other: u64| #[trigger]
            ids@.contains(other) == (before.contains(other) || other == id) by {
            if before.contains(other) {
                let k = choose|k: int| 0 <= k < before.len() && before[k] == other;
                if k < i {
                    assert(ids@[k] == other);
                } else {
                    assert(ids@[k + 1] == other);
                }
            }
            if other == id {
                assert(ids@[i as int] == other);
            }
            if ids@.contains(other) && other != id {
                let k = choose|k: int| 0 <= k < ids@.len() && ids@[k] == other;
                if k < i {
                    assert(before[k] == other);
                } else {
                    assert(before[k - 1] == other);
                }
            }
        }
    }
}

} // verus!
