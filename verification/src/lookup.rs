//! Searching and selecting in sequences.

use vstd::prelude::*;

verus! {

/// The index of the first element at or after `from` that satisfies `p`.
pub open spec fn first_at<T>(s: Seq<T>, p: spec_fn(T) -> bool, from: int) -> Option<int>
    decreases s.len() - from,
{
    if from < 0 || from >= s.len() {
        None
    } else if p(s[from]) {
        Some(from)
    } else {
        first_at(s, p, from + 1)
    }
}

/// The first element that satisfies `p`.
pub open spec fn first<T>(s: Seq<T>, p: spec_fn(T) -> bool) -> Option<T> {
    match first_at(s, p, 0) {
        Some(i) => Some(s[i]),
        None => None,
    }
}

/// The value behind an optional reference.
pub open spec fn target<T>(reference: Option<&T>) -> Option<T> {
    match reference {
        Some(value) => Some(*value),
        None => None,
    }
}

/// Some element satisfies `p`.
pub open spec fn some<T>(s: Seq<T>, p: spec_fn(T) -> bool) -> bool {
    exists|i: int| 0 <= i < s.len() && p(#[trigger] s[i])
}

/// Every element satisfies `p`.
pub open spec fn all<T>(s: Seq<T>, p: spec_fn(T) -> bool) -> bool {
    forall|i: int| 0 <= i < s.len() ==> p(#[trigger] s[i])
}

/// The opposite of `p`.
pub open spec fn not<T>(p: spec_fn(T) -> bool) -> spec_fn(T) -> bool {
    |x: T| !p(x)
}

/// What a first match is: an element that satisfies the predicate, preceded
/// only by elements that do not; without one, no element does.
pub proof fn lemma_first_at<T>(s: Seq<T>, p: spec_fn(T) -> bool, from: int)
    requires
        0 <= from,
    ensures
        match first_at(s, p, from) {
            Some(i) => {
                &&& from <= i < s.len()
                &&& p(s[i])
                &&& forall|j: int| from <= j < i ==> !p(#[trigger] s[j])
            },
            None => forall|j: int| from <= j < s.len() ==> !p(#[trigger] s[j]),
        },
    decreases s.len() - from,
{
    if from < s.len() && !p(s[from]) {
        lemma_first_at(s, p, from + 1);
    }
}

/// A sequence has a first match exactly if it has a match.
pub proof fn lemma_first_is_some<T>(s: Seq<T>, p: spec_fn(T) -> bool)
    ensures
        first(s, p) is Some <==> some(s, p),
        first(s, p) matches Some(x) ==> p(x) && s.contains(x),
{
    lemma_first_at(s, p, 0);
}

/// Selecting from a longer prefix keeps the selection of the shorter one.
pub proof fn lemma_filter_step<T>(s: Seq<T>, p: spec_fn(T) -> bool, i: int)
    requires
        0 <= i < s.len(),
    ensures
        s.take(i + 1).filter(p) == if p(s[i]) {
            s.take(i).filter(p).push(s[i])
        } else {
            s.take(i).filter(p)
        },
{
    reveal(Seq::filter);
    assert(s.take(i + 1).drop_last() =~= s.take(i));
}

/// Mapping a longer prefix extends the result of the shorter one.
pub proof fn lemma_filter_map_step<T, U>(s: Seq<T>, f: spec_fn(T) -> Option<U>, i: int)
    requires
        0 <= i < s.len(),
    ensures
        s.take(i + 1).filter_map(f) == match f(s[i]) {
            Some(u) => s.take(i).filter_map(f).push(u),
            None => s.take(i).filter_map(f),
        },
{
    reveal(Seq::filter_map);
    assert(s.take(i + 1).drop_last() =~= s.take(i));
    assert(forall|a: Seq<U>, u: U| #![auto] a + seq![u] =~= a.push(u));
}

/// Taking out an element that a selection leaves out does not change the
/// selection.
pub proof fn lemma_filter_remove<T>(s: Seq<T>, p: spec_fn(T) -> bool, i: int)
    requires
        0 <= i < s.len(),
        !p(s[i]),
    ensures
        s.remove(i).filter(p) == s.filter(p),
{
    let left = s.take(i);
    let right = s.skip(i + 1);
    assert(s =~= left + seq![s[i]] + right);
    assert(s.remove(i) =~= left + right);
    Seq::filter_distributes_over_add(left, right, p);
    Seq::filter_distributes_over_add(left + seq![s[i]], right, p);
    Seq::filter_distributes_over_add(left, seq![s[i]], p);
    assert(seq![s[i]].filter(p) =~= Seq::empty()) by {
        reveal_with_fuel(Seq::filter, 2);
        assert(seq![s[i]].drop_last() =~= Seq::empty());
    }
    assert(left.filter(p) + Seq::<T>::empty() =~= left.filter(p));
}

/// A selection that leaves nothing out is the whole.
pub proof fn lemma_filter_all<T>(s: Seq<T>, p: spec_fn(T) -> bool)
    requires
        all(s, p),
    ensures
        s.filter(p) == s,
    decreases s.len(),
{
    reveal(Seq::filter);
    if s.len() > 0 {
        assert(all(s.drop_last(), p)) by {
            assert forall|i: int| 0 <= i < s.drop_last().len() implies p(
                #[trigger] s.drop_last()[i],
            ) by {
                assert(s[i] == s.drop_last()[i]);
            }
        }
        lemma_filter_all(s.drop_last(), p);
        assert(s.drop_last().push(s.last()) =~= s);
    }
}

/// A selection that keeps every match of `p` keeps the first one.
pub proof fn lemma_first_of_filter<T>(s: Seq<T>, keep: spec_fn(T) -> bool, p: spec_fn(T) -> bool)
    requires
        forall|x: T| p(x) ==> #[trigger] keep(x),
    ensures
        first(s.filter(keep), p) == first(s, p),
    decreases s.len(),
{
    reveal(Seq::filter);
    if s.len() > 0 {
        let rest = s.drop_last();
        lemma_first_of_filter(rest, keep, p);
        lemma_first_push(rest, s.last(), p);
        assert(rest.push(s.last()) =~= s);
        if keep(s.last()) {
            lemma_first_push(rest.filter(keep), s.last(), p);
        }
    }
}

/// A sequence that grows at its end keeps its first match.
pub proof fn lemma_first_push<T>(s: Seq<T>, x: T, p: spec_fn(T) -> bool)
    ensures
        first(s.push(x), p) == match first(s, p) {
            Some(y) => Some(y),
            None => if p(x) {
                Some(x)
            } else {
                None
            },
        },
{
    lemma_first_at(s, p, 0);
    lemma_first_at(s.push(x), p, 0);
    let grown = s.push(x);
    assert(forall|i: int| 0 <= i < s.len() ==> grown[i] == s[i]);
    match first_at(s, p, 0) {
        Some(i) => {
            let j = first_at(grown, p, 0);
            assert(p(grown[i]));
            assert(j is Some);
            let k = j->0;
            if k < i {
                assert(p(s[k]));
            }
            if i < k {
                assert(!p(grown[i]));
            }
        },
        None => {
            let j = first_at(grown, p, 0);
            if p(x) {
                assert(grown[s.len() as int] == x);
                assert(j is Some);
                let k = j->0;
                if k < s.len() {
                    assert(p(s[k]));
                }
            } else if j is Some {
                let k = j->0;
                if k < s.len() {
                    assert(p(s[k]));
                }
            }
        },
    }
}

/// What a selection holds comes from the whole and matches.
pub proof fn lemma_filter_member<T>(s: Seq<T>, p: spec_fn(T) -> bool, i: int)
    requires
        0 <= i < s.filter(p).len(),
    ensures
        s.contains(s.filter(p)[i]),
        p(s.filter(p)[i]),
        some(s, p),
    decreases s.len(),
{
    reveal(Seq::filter);
    if s.len() > 0 {
        let rest = s.drop_last();
        if p(s.last()) && i == rest.filter(p).len() {
            assert(s[s.len() - 1] == s.last());
        } else {
            lemma_filter_member(rest, p, i);
            let x = rest.filter(p)[i];
            let j = choose|j: int| 0 <= j < rest.len() && rest[j] == x;
            assert(s[j] == x);
        }
    }
}

/// The sequence without repetitions: of equal elements the first stays.
pub open spec fn distinct<T>(s: Seq<T>) -> Seq<T>
    decreases s.len(),
{
    if s.len() == 0 {
        Seq::empty()
    } else {
        let rest = distinct(s.drop_last());
        if rest.contains(s.last()) {
            rest
        } else {
            rest.push(s.last())
        }
    }
}

/// A longer prefix adds its last element, unless that occurred before.
pub proof fn lemma_distinct_step<T>(s: Seq<T>, i: int)
    requires
        0 <= i < s.len(),
    ensures
        distinct(s.take(i + 1)) == if distinct(s.take(i)).contains(s[i]) {
            distinct(s.take(i))
        } else {
            distinct(s.take(i)).push(s[i])
        },
{
    assert(s.take(i + 1).drop_last() =~= s.take(i));
}

/// Leaving out repetitions loses no element and leaves none twice.
pub proof fn lemma_distinct<T>(s: Seq<T>)
    ensures
        distinct(s).no_duplicates(),
        forall|x: T| #[trigger] distinct(s).contains(x) <==> s.contains(x),
    decreases s.len(),
{
    if s.len() > 0 {
        let rest = s.drop_last();
        lemma_distinct(rest);
        let kept = distinct(rest);
        assert forall|x: T| #[trigger] distinct(s).contains(x) <==> s.contains(x) by {
            if s.contains(x) {
                let j = choose|j: int| 0 <= j < s.len() && s[j] == x;
                if j < rest.len() {
                    assert(rest[j] == x);
                    assert(kept.contains(x));
                    let k = choose|k: int| 0 <= k < kept.len() && kept[k] == x;
                    assert(distinct(s)[k] == x);
                } else if !kept.contains(x) {
                    assert(distinct(s)[kept.len() as int] == x);
                }
            }
            if distinct(s).contains(x) {
                let k = choose|k: int| 0 <= k < distinct(s).len() && distinct(s)[k] == x;
                if k < kept.len() {
                    assert(kept[k] == x);
                    assert(distinct(rest).contains(x));
                    assert(rest.contains(x));
                    let j = choose|j: int| 0 <= j < rest.len() && rest[j] == x;
                    assert(s[j] == x);
                } else {
                    assert(s[s.len() - 1] == x);
                }
            }
        }
    }
}

/// Keys that differ still differ after some were taken out.
pub proof fn lemma_filter_distinct<T>(s: Seq<T>, p: spec_fn(T) -> bool, key: spec_fn(T) -> u64)
    requires
        forall|i: int, j: int| 0 <= i < j < s.len() ==> key(#[trigger] s[i]) != key(#[trigger] s[j]),
    ensures
        forall|i: int, j: int|
            0 <= i < j < s.filter(p).len() ==> key(#[trigger] s.filter(p)[i]) != key(
                #[trigger] s.filter(p)[j],
            ),
    decreases s.len(),
{
    reveal(Seq::filter);
    if s.len() > 0 {
        let rest = s.drop_last();
        lemma_filter_distinct(rest, p, key);
        assert forall|i: int, j: int|
            0 <= i < j < s.filter(p).len() implies key(#[trigger] s.filter(p)[i]) != key(
            #[trigger] s.filter(p)[j],
        ) by {
            let kept = rest.filter(p);
            if p(s.last()) && j == s.filter(p).len() - 1 {
                lemma_filter_member(rest, p, i);
                let k = choose|k: int| 0 <= k < rest.len() && rest[k] == kept[i];
                assert(s[k] == kept[i] && s.filter(p)[i] == kept[i]);
                assert(s.filter(p)[j] == s[s.len() - 1]);
            } else {
                assert(s.filter(p)[i] == kept[i] && s.filter(p)[j] == kept[j]);
            }
        }
    }
}

/// Taking out an element that does not match keeps the first match.
pub proof fn lemma_first_remove<T>(s: Seq<T>, p: spec_fn(T) -> bool, i: int)
    requires
        0 <= i < s.len(),
        !p(s[i]),
    ensures
        first(s.remove(i), p) == first(s, p),
{
    lemma_first_is_filter_first(s, p);
    lemma_first_is_filter_first(s.remove(i), p);
    lemma_filter_remove(s, p, i);
}

/// The first match is the first element of the selection.
pub proof fn lemma_first_is_filter_first<T>(s: Seq<T>, p: spec_fn(T) -> bool)
    ensures
        first(s, p) == if s.filter(p).len() > 0 {
            Some(s.filter(p)[0])
        } else {
            None
        },
    decreases s.len(),
{
    reveal(Seq::filter);
    if s.len() > 0 {
        let rest = s.drop_last();
        lemma_first_is_filter_first(rest, p);
        lemma_first_push(rest, s.last(), p);
        assert(rest.push(s.last()) =~= s);
    }
}

/// A sequence that grows by an element has it as a member.
pub proof fn lemma_push_set<T>(s: Seq<T>, x: T)
    ensures
        s.push(x).to_set() == s.to_set().insert(x),
{
    let grown = s.push(x);
    assert forall|y: T| #[trigger] grown.contains(y) == (s.contains(y) || y == x) by {
        if s.contains(y) {
            let i = choose|i: int| 0 <= i < s.len() && s[i] == y;
            assert(grown[i] == y);
        }
        if y == x {
            assert(grown[s.len() as int] == y);
        }
    }
    assert(grown.to_set() =~= s.to_set().insert(x));
}

/// An element put first is the first match, if it matches.
pub proof fn lemma_first_cons<T>(x: T, s: Seq<T>, p: spec_fn(T) -> bool)
    ensures
        first(seq![x] + s, p) == if p(x) {
            Some(x)
        } else {
            first(s, p)
        },
{
    let grown = seq![x] + s;
    lemma_first_is_filter_first(grown, p);
    lemma_first_is_filter_first(s, p);
    Seq::filter_distributes_over_add(seq![x], s, p);
    assert(seq![x].filter(p) =~= if p(x) {
        seq![x]
    } else {
        Seq::empty()
    }) by {
        reveal_with_fuel(Seq::filter, 2);
        assert(seq![x].drop_last() =~= Seq::empty());
    }
    assert(Seq::<T>::empty() + s.filter(p) =~= s.filter(p));
}

/// An element that satisfies the predicate after others that do not is the first
/// match.
pub proof fn lemma_first_is<T>(s: Seq<T>, p: spec_fn(T) -> bool, i: int)
    requires
        0 <= i < s.len(),
        p(s[i]),
        forall|j: int| 0 <= j < i ==> !p(#[trigger] s[j]),
    ensures
        first_at(s, p, 0) == Some(i),
        first(s, p) == Some(s[i]),
{
    lemma_first_at(s, p, 0);
    match first_at(s, p, 0) {
        Some(found) => {
            if found < i {
                assert(!p(s[found]));
            }
            if i < found {
                assert(!p(s[i]));
            }
        },
        None => {
            assert(!p(s[i]));
        },
    }
}

/// Without an element that satisfies the predicate there is no first match.
pub proof fn lemma_first_none<T>(s: Seq<T>, p: spec_fn(T) -> bool)
    requires
        forall|j: int| 0 <= j < s.len() ==> !p(#[trigger] s[j]),
    ensures
        first_at(s, p, 0) is None,
        first(s, p) is None,
{
    lemma_first_at(s, p, 0);
}

/// What a sequence is mapped to holds exactly what some element is mapped to.
pub proof fn lemma_filter_map_member<T, U>(s: Seq<T>, f: spec_fn(T) -> Option<U>, u: U)
    ensures
        s.filter_map(f).contains(u) <==> exists|i: int|
            0 <= i < s.len() && f(#[trigger] s[i]) == Some(u),
    decreases s.len(),
{
    reveal(Seq::filter_map);
    if s.len() > 0 {
        let n = s.len() - 1;
        lemma_filter_map_member(s.drop_last(), f, u);
        lemma_filter_map_step(s, f, n);
        assert(s.take(n) =~= s.drop_last());
        assert(s.take(n + 1) =~= s);
        let rest = s.drop_last().filter_map(f);
        let all = s.filter_map(f);
        if all.contains(u) {
            let k = choose|k: int| 0 <= k < all.len() && all[k] == u;
            if k < rest.len() {
                assert(rest[k] == u);
                let i = choose|i: int|
                    0 <= i < s.drop_last().len() && f(#[trigger] s.drop_last()[i]) == Some(u);
                assert(s[i] == s.drop_last()[i]);
            } else {
                assert(f(s[n]) == Some(u));
            }
        }
        if exists|i: int| 0 <= i < s.len() && f(#[trigger] s[i]) == Some(u) {
            let i = choose|i: int| 0 <= i < s.len() && f(#[trigger] s[i]) == Some(u);
            if i < n {
                assert(s.drop_last()[i] == s[i]);
                let k = choose|k: int| 0 <= k < rest.len() && rest[k] == u;
                assert(all[k] == u);
            } else {
                assert(all.last() == u);
            }
        }
    }
}

/// A sequence is mapped to nothing exactly if each of its elements is.
pub proof fn lemma_filter_map_nothing<T, U>(s: Seq<T>, f: spec_fn(T) -> Option<U>)
    ensures
        s.filter_map(f).len() == 0 <==> forall|i: int| 0 <= i < s.len() ==> f(#[trigger] s[i]) is None,
{
    if s.filter_map(f).len() > 0 {
        let u = s.filter_map(f)[0];
        lemma_filter_map_member(s, f, u);
    }
    if exists|i: int| 0 <= i < s.len() && f(#[trigger] s[i]) is Some {
        let i = choose|i: int| 0 <= i < s.len() && f(#[trigger] s[i]) is Some;
        lemma_filter_map_member(s, f, f(s[i])->0);
    }
}

/// A selection holds exactly what the whole holds and the predicate admits.
pub proof fn lemma_filter_holds<T>(s: Seq<T>, p: spec_fn(T) -> bool, x: T)
    ensures
        s.filter(p).contains(x) <==> s.contains(x) && p(x),
{
    if s.filter(p).contains(x) {
        let i = choose|i: int| 0 <= i < s.filter(p).len() && s.filter(p)[i] == x;
        lemma_filter_member(s, p, i);
    }
    if s.contains(x) && p(x) {
        let i = choose|i: int| 0 <= i < s.len() && s[i] == x;
        s.lemma_filter_contains(p, i);
    }
}

/// A sequence with an element at its end holds that element and what it held.
pub proof fn lemma_push_holds<T>(s: Seq<T>, last: T, x: T)
    ensures
        s.push(last).contains(x) <==> s.contains(x) || x == last,
{
    if s.contains(x) {
        let i = choose|i: int| 0 <= i < s.len() && s[i] == x;
        assert(s.push(last)[i] == x);
    }
    assert(s.push(last)[s.len() as int] == last);
}

/// Two sequences together hold what one of them holds.
pub proof fn lemma_sum_holds<T>(a: Seq<T>, b: Seq<T>, x: T)
    ensures
        (a + b).contains(x) <==> a.contains(x) || b.contains(x),
{
    if a.contains(x) {
        let i = choose|i: int| 0 <= i < a.len() && a[i] == x;
        assert((a + b)[i] == x);
    }
    if b.contains(x) {
        let i = choose|i: int| 0 <= i < b.len() && b[i] == x;
        assert((a + b)[a.len() + i] == x);
    }
}

} // verus!
