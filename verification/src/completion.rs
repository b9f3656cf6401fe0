//! Completing the name of a configured station.

use vstd::prelude::*;
use vstd::string::*;

use crate::access::Access;
use crate::collect::select;
use crate::config::DeviceConfig;
use crate::lookup;
use crate::text::{self, fold};

verus! {

/// The longest beginning of a name that is completed, in bytes.
pub const MAX_PREFIX_BYTES: usize = 128;

/// The text with the small letters of the Latin alphabet in place of its capitals.
pub open spec fn lowered(text: Seq<char>) -> Seq<char> {
    text.map_values(|c: char| text::folded(c) as char)
}

/// Whether a text comes before another one, leaving the case of Latin letters aside.
fn precedes_ignoring_case(left: &str, right: &str) -> (less: bool)
    ensures
        less == text::text_less(lowered(left@), lowered(right@)),
{
    let left_length: usize = left.unicode_len();
    let right_length: usize = right.unicode_len();
    let ghost l = lowered(left@);
    let ghost r = lowered(right@);
    let mut i: usize = 0;
    proof {
        assert(l.skip(0) =~= l);
        assert(r.skip(0) =~= r);
    }
    while i < left_length && i < right_length
        invariant
            l == lowered(left@),
            r == lowered(right@),
            left_length == l.len(),
            left_length == left@.len(),
            right_length == r.len(),
            right_length == right@.len(),
            0 <= i <= left_length,
            0 <= i <= right_length,
            text::text_less(l, r) == text::text_less(l.skip(i as int), r.skip(i as int)),
        decreases left_length - i,
    {
        let a: u32 = fold(left.get_char(i));
        let b: u32 = fold(right.get_char(i));
        proof {
            assert(l.skip(i as int)[0] == l[i as int]);
            assert(r.skip(i as int)[0] == r[i as int]);
            assert(l[i as int] as int == a);
            assert(r[i as int] as int == b);
            assert(l.skip(i as int).skip(1) =~= l.skip(i + 1));
            assert(r.skip(i as int).skip(1) =~= r.skip(i + 1));
        }
        if a != b {
            return a < b;
        }
        i += 1;
    }
    i < right_length
}

/// The character is not for showing.
pub open spec fn is_control(c: char) -> bool {
    c as int <= 0x1F || 0x7F <= c as int <= 0x9F
}

/// The text can be the beginning of a name.
pub open spec fn is_prefix(prefix: Seq<char>) -> bool {
    &&& vstd::utf8::encode_utf8(prefix).len() <= MAX_PREFIX_BYTES
    &&& forall|i: int| 0 <= i < prefix.len() ==> !is_control(#[trigger] prefix[i])
}

fn completable(prefix: &str) -> (fits: bool)
    ensures
        fits == is_prefix(prefix@),
{
    if prefix.as_bytes().len() > MAX_PREFIX_BYTES {
        return false;
    }
    let length: usize = prefix.unicode_len();
    let mut i: usize = 0;
    while i < length
        invariant
            length == prefix@.len(),
            0 <= i <= length,
            forall|k: int| 0 <= k < i ==> !is_control(#[trigger] prefix@[k]),
        decreases length - i,
    {
        let c: u32 = prefix.get_char(i) as u32;
        if c <= 0x1F || (0x7F <= c && c <= 0x9F) {
            assert(is_control(prefix@[i as int]));
            return false;
        }
        i += 1;
    }
    true
}

/// The name begins with these letters, large or small.
pub open spec fn begins_with(name: Seq<char>, prefix: Seq<char>) -> bool {
    name.len() >= prefix.len() && text::same_letters(name.take(prefix.len() as int), prefix)
}

fn begins(name: &str, prefix: &str) -> (matching: bool)
    ensures
        matching == begins_with(name@, prefix@),
{
    let length: usize = prefix.unicode_len();
    if name.unicode_len() < length {
        return false;
    }
    let ghost start = name@.take(prefix@.len() as int);
    let mut i: usize = 0;
    while i < length
        invariant
            length == prefix@.len(),
            length <= name@.len(),
            start == name@.take(prefix@.len() as int),
            0 <= i <= length,
            forall|k: int|
                0 <= k < i ==> text::folded(#[trigger] start[k]) == text::folded(prefix@[k]),
        decreases length - i,
    {
        if fold(name.get_char(i)) != fold(prefix.get_char(i)) {
            assert(text::folded(start[i as int]) != text::folded(prefix@[i as int]));
            return false;
        }
        i += 1;
    }
    true
}

pub open spec fn completes(prefix: Seq<char>) -> spec_fn(DeviceConfig) -> bool {
    |device: DeviceConfig| begins_with(device.id@, prefix)
}

/// The stations whose names begin like this.
pub open spec fn candidates(devices: Seq<DeviceConfig>, prefix: Seq<char>) -> Seq<Seq<char>> {
    devices.filter(completes(prefix)).map_values(|device: DeviceConfig| device.id@)
}

/// Name `j` is listed before name `i`: the case of letters is left aside, and names
/// that differ in nothing else stay in the order they came in.
pub open spec fn listed_before(names: Seq<Seq<char>>, j: int, i: int) -> bool {
    ||| text::text_less(lowered(names[j]), lowered(names[i]))
    ||| lowered(names[j]) == lowered(names[i]) && j < i
}

/// How many of the first `n` names are listed before name `i`.
pub open spec fn count_before(names: Seq<Seq<char>>, i: int, n: nat) -> nat
    decreases n,
{
    if n == 0 {
        0
    } else {
        count_before(names, i, (n - 1) as nat) + if listed_before(names, n - 1, i) {
            1nat
        } else {
            0
        }
    }
}

/// Where a name stands in the list.
pub open spec fn place(names: Seq<Seq<char>>, i: int) -> nat {
    count_before(names, i, names.len())
}

proof fn lemma_listed_before_chains(names: Seq<Seq<char>>, j: int, i: int, k: int)
    requires
        listed_before(names, j, i),
        listed_before(names, i, k),
    ensures
        listed_before(names, j, k),
{
    let (a, b, c) = (lowered(names[j]), lowered(names[i]), lowered(names[k]));
    if text::text_less(a, b) && text::text_less(b, c) {
        text::lemma_text_order_chains(a, b, c);
    }
}

proof fn lemma_counts_grow(names: Seq<Seq<char>>, i: int, k: int, n: nat)
    requires
        listed_before(names, i, k),
        !listed_before(names, i, i),
    ensures
        count_before(names, i, n) <= count_before(names, k, n),
        0 <= i < n ==> count_before(names, i, n) < count_before(names, k, n),
    decreases n,
{
    if n > 0 {
        lemma_counts_grow(names, i, k, (n - 1) as nat);
        if listed_before(names, n - 1, i) {
            lemma_listed_before_chains(names, n - 1, i, k);
        }
    }
}

proof fn lemma_count_bounds(names: Seq<Seq<char>>, i: int, n: nat)
    requires
        !listed_before(names, i, i),
    ensures
        count_before(names, i, n) <= n,
        0 <= i < n ==> count_before(names, i, n) < n,
    decreases n,
{
    if n > 0 {
        lemma_count_bounds(names, i, (n - 1) as nat);
    }
}

/// Every name has a place of its own in the list, and the list has no gaps.
pub proof fn law_completions_are_listed_once(names: Seq<Seq<char>>, ordinal: nat)
    ensures
        forall|i: int| 0 <= i < names.len() ==> #[trigger] place(names, i) < names.len(),
        forall|i: int, k: int|
            0 <= i < names.len() && 0 <= k < names.len() && i != k ==> #[trigger] place(names, i)
                != #[trigger] place(names, k),
        ordinal < names.len() <==> exists|i: int|
            0 <= i < names.len() && #[trigger] place(names, i) == ordinal,
{
    let n = names.len();
    assert forall|i: int| 0 <= i < n implies #[trigger] place(names, i) < n && !listed_before(
        names,
        i,
        i,
    ) by {
        text::lemma_text_order(lowered(names[i]), lowered(names[i]));
        lemma_count_bounds(names, i, n);
    }
    assert forall|i: int, k: int| 0 <= i < n && 0 <= k < n && i != k implies #[trigger] place(
        names,
        i,
    ) != #[trigger] place(names, k) by {
        text::lemma_text_order(lowered(names[i]), lowered(names[i]));
        text::lemma_text_order(lowered(names[k]), lowered(names[k]));
        text::lemma_text_order(lowered(names[i]), lowered(names[k]));
        if listed_before(names, i, k) {
            lemma_counts_grow(names, i, k, n);
        } else {
            assert(listed_before(names, k, i));
            lemma_counts_grow(names, k, i, n);
        }
    }
    let places = Seq::new(n, |i: int| place(names, i) as int);
    assert(places.no_duplicates()) by {
        assert forall|i: int, k: int|
            0 <= i < places.len() && 0 <= k < places.len() && i != k implies places[i]
            != places[k] by {
            assert(place(names, i) != place(names, k));
        }
    }
    places.unique_seq_to_set();
    let range = vstd::set_lib::set_int_range(0, n as int);
    vstd::set_lib::lemma_int_range(0, n as int);
    assert(places.to_set().subset_of(range)) by {
        assert forall|x: int| places.to_set().contains(x) implies range.contains(x) by {
            let i = choose|i: int| 0 <= i < places.len() && places[i] == x;
            assert(place(names, i) < n);
        }
    }
    vstd::seq_lib::seq_to_set_is_finite(places);
    vstd::set_lib::lemma_subset_equality(places.to_set(), range);
    if ordinal < n {
        assert(range.contains(ordinal as int));
        assert(places.to_set().contains(ordinal as int));
        let i = choose|i: int| 0 <= i < places.len() && places[i] == ordinal as int;
        assert(place(names, i) == ordinal);
    }
}

/// The name of a station that a text may be completed to: the one at a place in the
/// list of those that begin like it.
pub fn complete_configured_device(access: &Access, prefix: &str, ordinal: usize) -> (completion:
    Option<String>)
    ensures
        match completion {
            Some(name) => {
                let names = candidates(access.shared.config.devices@, prefix@);
                is_prefix(prefix@) && exists|i: int|
                    0 <= i < names.len() && #[trigger] place(names, i) == ordinal && names[i]
                        == name@
            },
            None => !is_prefix(prefix@) || ordinal >= candidates(
                access.shared.config.devices@,
                prefix@,
            ).len(),
        },
{
    if !completable(prefix) {
        return None;
    }
    let matching = select(
        &access.shared.config.devices,
        |device: &DeviceConfig| -> (kept: bool)
            ensures
                kept == begins_with(device.id@, prefix@)
            { begins(device.id.as_str(), prefix) },
        Ghost(completes(prefix@)),
    );
    let ghost names = candidates(access.shared.config.devices@, prefix@);
    proof {
        let found = matching@.map_values(|item: &DeviceConfig| *item);
        assert(names.len() == matching@.len());
        assert forall|i: int| 0 <= i < names.len() implies names[i] == (
        #[trigger] matching@[i]).id@ by {
            assert(found[i] == *matching@[i]);
        }
    }
    let mut i: usize = 0;
    while i < matching.len()
        invariant
            names == candidates(access.shared.config.devices@, prefix@),
            is_prefix(prefix@),
            names.len() == matching@.len(),
            forall|k: int| 0 <= k < names.len() ==> names[k] == (#[trigger] matching@[k]).id@,
            0 <= i <= matching@.len(),
            forall|k: int| 0 <= k < i ==> #[trigger] place(names, k) != ordinal,
        decreases matching@.len() - i,
    {
        let mut before: usize = 0;
        let mut j: usize = 0;
        let name = matching[i].id.as_str();
        while j < matching.len()
            invariant
                names.len() == matching@.len(),
                forall|k: int| 0 <= k < names.len() ==> names[k] == (#[trigger] matching@[k]).id@,
                0 <= i < matching@.len(),
                name@ == names[i as int],
                0 <= j <= matching@.len(),
                before == count_before(names, i as int, j as nat),
                before <= j,
            decreases matching@.len() - j,
        {
            let other = matching[j].id.as_str();
            proof {
                assert(other@ == names[j as int]);
                text::lemma_text_order(lowered(other@), lowered(name@));
            }
            if precedes_ignoring_case(other, name) || (j < i && !precedes_ignoring_case(
                name,
                other,
            )) {
                before += 1;
            }
            j += 1;
        }
        if before == ordinal {
            assert(place(names, i as int) == ordinal);
            assert(names[i as int] == matching@[i as int].id@);
            return Some(name.to_owned());
        }
        i += 1;
    }
    proof {
        law_completions_are_listed_once(names, ordinal as nat);
    }
    None
}

/// A completion is a configured station whose name begins with what was typed; the
/// completions come in the order of the alphabet, and none comes after the last.
pub proof fn law_completions_come_in_order(
    access: &Access,
    prefix: &str,
    earlier: usize,
    later: usize,
    first: Option<String>,
    second: Option<String>,
)
    requires
        call_ensures(complete_configured_device, (access, prefix, earlier), first),
        call_ensures(complete_configured_device, (access, prefix, later), second),
        earlier < later,
    ensures
        second is Some ==> first is Some,
        first matches Some(name) ==> name@.len() >= prefix@.len() && text::same_letters(
            name@.take(prefix@.len() as int),
            prefix@,
        ) && exists|d: int|
            0 <= d < access.shared.config.devices@.len() && (
            #[trigger] access.shared.config.devices@[d]).id@ == name@,
        first matches Some(one) ==> (second matches Some(other) ==> !text::text_less(
            lowered(other@),
            lowered(one@),
        )),
        first matches Some(name) ==> forall|c: int|
            0 <= c < prefix@.len() ==> !is_control(#[trigger] prefix@[c]),
{
    let devices = access.shared.config.devices@;
    let names = candidates(devices, prefix@);
    if let Some(other) = second {
        let j = choose|j: int|
            0 <= j < names.len() && #[trigger] place(names, j) == later && names[j] == other@;
        text::lemma_text_order(lowered(names[j]), lowered(names[j]));
        lemma_count_bounds(names, j, names.len());
    }
    if let Some(name) = first {
        let i = choose|i: int|
            0 <= i < names.len() && #[trigger] place(names, i) == earlier && names[i] == name@;
        let chosen = devices.filter(completes(prefix@));
        lookup::lemma_filter_member(devices, completes(prefix@), i);
        let d = choose|d: int| 0 <= d < devices.len() && devices[d] == chosen[i];
        assert(devices[d].id@ == name@);
        if let Some(other) = second {
            let j = choose|j: int|
                0 <= j < names.len() && #[trigger] place(names, j) == later && names[j] == other@;
            if text::text_less(lowered(other@), lowered(name@)) {
                assert(listed_before(names, j, i));
                text::lemma_text_order(lowered(names[j]), lowered(names[j]));
                lemma_counts_grow(names, j, i, names.len());
            }
        }
    }
}

} // verus!
