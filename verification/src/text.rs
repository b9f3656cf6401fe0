//! Text building and comparison.

use vstd::prelude::*;
use vstd::string::*;

verus! {

/// Whether two texts have the same characters.
pub fn same_text(left: &str, right: &str) -> (equal: bool)
    ensures
        equal == (left@ == right@),
{
    left.to_owned() == right.to_owned()
}

/// The decimal digits of a number, most significant first, without leading zeros.
pub open spec fn decimal(n: nat) -> Seq<char>
    decreases n,
{
    if n < 10 {
        seq![digit(n)]
    } else {
        decimal(n / 10).push(digit(n % 10))
    }
}

/// The character of one decimal digit.
pub open spec fn digit(d: nat) -> char {
    if d == 0 {
        '0'
    } else if d == 1 {
        '1'
    } else if d == 2 {
        '2'
    } else if d == 3 {
        '3'
    } else if d == 4 {
        '4'
    } else if d == 5 {
        '5'
    } else if d == 6 {
        '6'
    } else if d == 7 {
        '7'
    } else if d == 8 {
        '8'
    } else {
        '9'
    }
}

fn digit_text(d: u64) -> (text: &'static str)
    requires
        d < 10,
    ensures
        text@ == seq![digit(d as nat)],
{
    proof {
        reveal_strlit("0");
        reveal_strlit("1");
        reveal_strlit("2");
        reveal_strlit("3");
        reveal_strlit("4");
        reveal_strlit("5");
        reveal_strlit("6");
        reveal_strlit("7");
        reveal_strlit("8");
        reveal_strlit("9");
    }
    if d == 0 {
        "0"
    } else if d == 1 {
        "1"
    } else if d == 2 {
        "2"
    } else if d == 3 {
        "3"
    } else if d == 4 {
        "4"
    } else if d == 5 {
        "5"
    } else if d == 6 {
        "6"
    } else if d == 7 {
        "7"
    } else if d == 8 {
        "8"
    } else {
        "9"
    }
}

/// Writes a number in decimal.
pub fn decimal_text(n: u64) -> (text: String)
    ensures
        text@ == decimal(n as nat),
    decreases n,
{
    if n < 10 {
        digit_text(n).to_owned()
    } else {
        let mut text = decimal_text(n / 10);
        text.append(digit_text(n % 10));
        proof {
            assert(text@ =~= decimal(n as nat));
        }
        text
    }
}

/// The text holds no zero character.
pub open spec fn is_native(text: Seq<char>) -> bool {
    !text.contains('\0')
}

/// Whether the switch can hold `text`.
pub fn native(text: &str) -> (fits: bool)
    ensures
        fits == is_native(text@),
{
    let length: usize = text.unicode_len();
    let mut i: usize = 0;
    while i < length
        invariant
            length == text@.len(),
            0 <= i <= length,
            forall|j: int| 0 <= j < i ==> text@[j] != '\0',
        decreases length - i,
    {
        if text.get_char(i) == '\0' {
            assert(text@[i as int] == '\0');
            return false;
        }
        i += 1;
    }
    true
}

/// Names with a separator between them.
pub open spec fn joined(names: Seq<String>, separator: Seq<char>) -> Seq<char>
    decreases names.len(),
{
    if names.len() == 0 {
        Seq::empty()
    } else if names.len() == 1 {
        names[0]@
    } else {
        joined(names.drop_last(), separator) + separator + names.last()@
    }
}

/// Joins names with a separator.
pub fn join(names: &Vec<String>, separator: &str) -> (text: String)
    ensures
        text@ == joined(names@, separator@),
{
    let mut text = String::new();
    let mut i: usize = 0;
    while i < names.len()
        invariant
            0 <= i <= names@.len(),
            text@ == joined(names@.take(i as int), separator@),
        decreases names@.len() - i,
    {
        if i > 0 {
            text.append(separator);
        }
        text.append(names[i].as_str());
        proof {
            let longer = names@.take(i + 1);
            assert(longer.drop_last() =~= names@.take(i as int));
            assert(longer.last() == names@[i as int]);
            if i == 0 {
                assert(names@.take(0) =~= Seq::<String>::empty());
                assert(text@ =~= joined(longer, separator@));
            }
        }
        i += 1;
    }
    proof {
        assert(names@.take(i as int) =~= names@);
    }
    text
}

/// The number of a character, where capital letters of the Latin alphabet count as
/// small ones.
pub open spec fn folded(c: char) -> int {
    if 'A' <= c && c <= 'Z' {
        c as int + 32
    } else {
        c as int
    }
}

/// The texts differ at most in the case of Latin letters.
pub open spec fn same_letters(left: Seq<char>, right: Seq<char>) -> bool {
    &&& left.len() == right.len()
    &&& forall|i: int| 0 <= i < left.len() ==> folded(#[trigger] left[i]) == folded(right[i])
}

pub fn fold(c: char) -> (number: u32)
    ensures
        number == folded(c),
{
    if 'A' <= c && c <= 'Z' {
        c as u32 + 32
    } else {
        c as u32
    }
}

/// Whether two texts differ at most in the case of Latin letters.
pub fn same_ignoring_case(left: &str, right: &str) -> (equal: bool)
    ensures
        equal == same_letters(left@, right@),
{
    let length: usize = left.unicode_len();
    if length != right.unicode_len() {
        return false;
    }
    let mut i: usize = 0;
    while i < length
        invariant
            length == left@.len(),
            length == right@.len(),
            0 <= i <= length,
            forall|j: int| 0 <= j < i ==> folded(#[trigger] left@[j]) == folded(right@[j]),
        decreases length - i,
    {
        if fold(left.get_char(i)) != fold(right.get_char(i)) {
            assert(folded(left@[i as int]) != folded(right@[i as int]));
            return false;
        }
        i += 1;
    }
    true
}

/// The text comes before the other one in a dictionary.
pub open spec fn text_less(left: Seq<char>, right: Seq<char>) -> bool
    decreases left.len(),
{
    if right.len() == 0 {
        false
    } else if left.len() == 0 {
        true
    } else if left[0] != right[0] {
        left[0] < right[0]
    } else {
        text_less(left.skip(1), right.skip(1))
    }
}

/// Of two different texts one comes first, and no text comes before itself.
pub proof fn lemma_text_order(left: Seq<char>, right: Seq<char>)
    ensures
        text_less(left, right) || left == right || text_less(right, left),
        !(text_less(left, right) && text_less(right, left)),
        left == right ==> !text_less(left, right),
    decreases left.len(),
{
    if left.len() > 0 && right.len() > 0 {
        lemma_text_order(left.skip(1), right.skip(1));
        if left[0] == right[0] && left.skip(1) == right.skip(1) {
            assert(left =~= seq![left[0]] + left.skip(1));
            assert(right =~= seq![right[0]] + right.skip(1));
        }
    } else if left.len() == 0 && right.len() == 0 {
        assert(left =~= right);
    }
}

/// What comes before a text also comes before what follows it.
pub proof fn lemma_text_order_chains(first: Seq<char>, second: Seq<char>, third: Seq<char>)
    requires
        text_less(first, second),
        text_less(second, third),
    ensures
        text_less(first, third),
    decreases first.len(),
{
    if first.len() > 0 && first[0] == second[0] && second[0] == third[0] {
        lemma_text_order_chains(first.skip(1), second.skip(1), third.skip(1));
    }
}

/// Whether a text comes before another one.
pub fn precedes(left: &str, right: &str) -> (less: bool)
    ensures
        less == text_less(left@, right@),
{
    let left_length: usize = left.unicode_len();
    let right_length: usize = right.unicode_len();
    let mut i: usize = 0;
    proof {
        assert(left@.skip(0) =~= left@);
        assert(right@.skip(0) =~= right@);
    }
    while i < left_length && i < right_length
        invariant
            left_length == left@.len(),
            right_length == right@.len(),
            0 <= i <= left_length,
            0 <= i <= right_length,
            text_less(left@, right@) == text_less(left@.skip(i as int), right@.skip(i as int)),
        decreases left_length - i,
    {
        let a = left.get_char(i);
        let b = right.get_char(i);
        proof {
            assert(left@.skip(i as int)[0] == a);
            assert(right@.skip(i as int)[0] == b);
            assert(left@.skip(i as int).skip(1) =~= left@.skip(i + 1));
            assert(right@.skip(i as int).skip(1) =~= right@.skip(i + 1));
        }
        if a != b {
            return a < b;
        }
        i += 1;
    }
    i < right_length
}

/// Every text comes before those that follow it.
pub open spec fn texts_ascend(lines: Seq<String>) -> bool {
    forall|i: int, j: int|
        0 <= i < j < lines.len() ==> text_less((#[trigger] lines[i])@, (#[trigger] lines[j])@)
}

/// The text is among these.
pub open spec fn lists(lines: Seq<String>, text: Seq<char>) -> bool {
    exists|i: int| 0 <= i < lines.len() && (#[trigger] lines[i])@ == text
}

/// Puts a text into its place, unless it is there.
pub fn insert_text(lines: &mut Vec<String>, text: &str)
    requires
        texts_ascend(old(lines)@),
    ensures
        texts_ascend(final(lines)@),
        forall|other: Seq<char>| #[trigger]
            lists(final(lines)@, other) <==> lists(old(lines)@, other) || other == text@,
{
    let ghost before = lines@;
    let mut i: usize = 0;
    while i < lines.len() && precedes(lines[i].as_str(), text)
        invariant
            0 <= i <= lines@.len(),
            lines@ == before,
            forall|j: int| 0 <= j < i ==> text_less((#[trigger] lines@[j])@, text@),
        decreases lines@.len() - i,
    {
        i += 1;
    }
    if i < lines.len() && same_text(lines[i].as_str(), text) {
        assert(before[i as int]@ == text@);
        return ;
    }
    lines.insert(i, text.to_owned());
    proof {
        assert forall|j: int| i <= j < before.len() implies text_less(
            text@,
            (#[trigger] before[j])@,
        ) by {
            lemma_text_order(before[i as int]@, text@);
            if j > i {
                lemma_text_order_chains(text@, before[i as int]@, before[j]@);
            }
        }
        assert forall|a: int, b: int| 0 <= a < b < lines@.len() implies text_less(
            (#[trigger] lines@[a])@,
            (#[trigger] lines@[b])@,
        ) by {
            if b < i {
                assert(lines@[a] == before[a] && lines@[b] == before[b]);
            } else if b == i {
                assert(lines@[a] == before[a]);
            } else if a < i {
                assert(lines@[a] == before[a] && lines@[b] == before[b - 1]);
                assert(text_less(before[a]@, before[b - 1]@));
            } else if a == i {
                assert(lines@[b] == before[b - 1]);
            } else {
                assert(lines@[a] == before[a - 1] && lines@[b] == before[b - 1]);
                assert(text_less(before[a - 1]@, before[b - 1]@));
            }
        }
        assert forall|other: Seq<char>| #[trigger]
            lists(lines@, other) == (lists(before, other) || other == text@) by {
            if lists(before, other) {
                let k = choose|k: int| 0 <= k < before.len() && (#[trigger] before[k])@ == other;
                if k < i {
                    assert(lines@[k]@ == other);
                } else {
                    assert(lines@[k + 1]@ == other);
                }
            }
            if other == text@ {
                assert(lines@[i as int]@ == other);
            }
            if lists(lines@, other) && other != text@ {
                let k = choose|k: int| 0 <= k < lines@.len() && (#[trigger] lines@[k])@ == other;
                if k < i {
                    assert(before[k]@ == other);
                } else {
                    assert(before[k - 1]@ == other);
                }
            }
        }
    }
}

/// The digit that a character stands for.
pub open spec fn digit_value(c: char) -> Option<nat> {
    if '0' <= c && c <= '9' {
        Some((c as int - 48) as nat)
    } else {
        None
    }
}

/// The number that digits stand for; none where there are none or something else
/// is among them.
pub open spec fn digits_value(digits: Seq<char>) -> Option<nat>
    decreases digits.len(),
{
    if digits.len() == 0 {
        None
    } else {
        match digit_value(digits.last()) {
            None => None,
            Some(last) => if digits.len() == 1 {
                Some(last)
            } else {
                match digits_value(digits.drop_last()) {
                    Some(rest) => Some(rest * 10 + last),
                    None => None,
                }
            },
        }
    }
}

/// The number that a text stands for: digits, with a plus sign before them at
/// most.
pub open spec fn number_value(text: Seq<char>) -> Option<nat> {
    if text.len() > 0 && text[0] == '+' {
        digits_value(text.skip(1))
    } else {
        digits_value(text)
    }
}

/// A longer number is at least as large, and has a value only if what it begins
/// with has.
proof fn lemma_digits_grow(digits: Seq<char>, n: int)
    requires
        0 < n <= digits.len(),
        digits_value(digits) is Some,
    ensures
        digits_value(digits.take(n)) matches Some(part) && part <= digits_value(digits)->0,
    decreases digits.len(),
{
    if n == digits.len() {
        assert(digits.take(n) =~= digits);
    } else {
        lemma_digits_grow(digits.drop_last(), n);
        assert(digits.drop_last().take(n) =~= digits.take(n));
    }
}

/// Reads a number that fits.
pub fn parse_number(text: &str) -> (number: Option<usize>)
    ensures
        match number {
            Some(n) => number_value(text@) == Some(n as nat),
            None => number_value(text@) matches Some(n) ==> n > usize::MAX,
        },
{
    let length: usize = text.unicode_len();
    let signed = length > 0 && text.get_char(0) == '+';
    let start: usize = if signed {
        1
    } else {
        0
    };
    if start == length {
        return None;
    }
    let ghost digits = text@.skip(start as int);
    proof {
        if !signed {
            assert(digits =~= text@);
        }
        assert(number_value(text@) == digits_value(digits));
    }
    let mut value: usize = 0;
    let mut i: usize = start;
    while i < length
        invariant
            length == text@.len(),
            0 <= start <= i <= length,
            start < length,
            digits == text@.skip(start as int),
            number_value(text@) == digits_value(digits),
            i > start ==> digits_value(digits.take(i - start)) == Some(value as nat),
            i == start ==> value == 0,
        decreases length - i,
    {
        let c = text.get_char(i);
        let ghost part = digits.take(i - start + 1);
        proof {
            assert(part.last() == c);
            assert(part.drop_last() =~= digits.take(i - start));
        }
        if c < '0' || c > '9' {
            proof {
                if digits_value(digits) is Some {
                    lemma_digits_grow(digits, i - start + 1);
                }
            }
            return None;
        }
        let last: usize = c as usize - 48;
        let ghost next = value * 10 + last;
        proof {
            assert(digits_value(part) == Some(next as nat));
            if digits_value(digits) is Some {
                lemma_digits_grow(digits, i - start + 1);
            }
        }
        let scaled = match value.checked_mul(10) {
            Some(scaled) => scaled,
            None => {
                return None;
            },
        };
        value = match scaled.checked_add(last) {
            Some(value) => value,
            None => {
                return None;
            },
        };
        i += 1;
    }
    proof {
        assert(digits.take(length - start) =~= digits);
    }
    Some(value)
}

/// The character is white space.
pub open spec fn is_white(c: char) -> bool {
    let n = c as u32;
    ||| 0x09 <= n <= 0x0d
    ||| n == 0x20
    ||| n == 0x85
    ||| n == 0xa0
    ||| n == 0x1680
    ||| 0x2000 <= n <= 0x200a
    ||| n == 0x2028
    ||| n == 0x2029
    ||| n == 0x202f
    ||| n == 0x205f
    ||| n == 0x3000
}

fn white(c: char) -> (yes: bool)
    ensures
        yes == is_white(c),
{
    let n: u32 = c as u32;
    (0x09 <= n && n <= 0x0d) || n == 0x20 || n == 0x85 || n == 0xa0 || n == 0x1680 || (0x2000 <= n
        && n <= 0x200a) || n == 0x2028 || n == 0x2029 || n == 0x202f || n == 0x205f || n == 0x3000
}

/// The text without white space at its ends.
pub open spec fn trimmed(text: Seq<char>) -> Seq<char>
    decreases text.len(),
{
    if text.len() > 0 && is_white(text[0]) {
        trimmed(text.skip(1))
    } else if text.len() > 0 && is_white(text.last()) {
        trimmed(text.drop_last())
    } else {
        text
    }
}

/// A part of a text without white space at its ends.
fn trim_part(text: &str, from: usize, to: usize) -> (part: String)
    requires
        from <= to <= text@.len(),
    ensures
        part@ == trimmed(text@.subrange(from as int, to as int)),
{
    let mut start: usize = from;
    let mut end: usize = to;
    while start < end && white(text.get_char(start))
        invariant
            from <= start <= end <= text@.len(),
            end == to,
            trimmed(text@.subrange(from as int, to as int)) == trimmed(
                text@.subrange(start as int, end as int),
            ),
        decreases end - start,
    {
        proof {
            let part = text@.subrange(start as int, end as int);
            assert(part[0] == text@[start as int]);
            assert(part.skip(1) =~= text@.subrange(start + 1, end as int));
        }
        start += 1;
    }
    while start < end && white(text.get_char(end - 1))
        invariant
            from <= start <= end <= text@.len(),
            start < end ==> !is_white(text@[start as int]),
            trimmed(text@.subrange(from as int, to as int)) == trimmed(
                text@.subrange(start as int, end as int),
            ),
        decreases end - start,
    {
        proof {
            let part = text@.subrange(start as int, end as int);
            assert(part[0] == text@[start as int]);
            assert(part.last() == text@[end - 1]);
            assert(part.drop_last() =~= text@.subrange(start as int, end - 1));
        }
        end -= 1;
    }
    proof {
        let part = text@.subrange(start as int, end as int);
        if part.len() > 0 {
            assert(part[0] == text@[start as int]);
            assert(part.last() == text@[end - 1]);
        }
    }
    text.substring_char(start, end).to_owned()
}

/// The text has this one slash.
pub open spec fn single_slash(text: Seq<char>, at: int) -> bool {
    &&& 0 <= at < text.len()
    &&& text[at] == '/'
    &&& forall|i: int| 0 <= i < text.len() && i != at ==> #[trigger] text[i] != '/'
}

/// The two parts of an address with one slash, without white space at their ends.
pub open spec fn parts_of(address: Seq<char>) -> Option<(Seq<char>, Seq<char>)> {
    if exists|at: int| single_slash(address, at) {
        let at = choose|at: int| single_slash(address, at);
        Some((trimmed(address.take(at)), trimmed(address.skip(at + 1))))
    } else {
        None
    }
}

proof fn lemma_one_slash(address: Seq<char>, first: int, second: int)
    requires
        single_slash(address, first),
        single_slash(address, second),
    ensures
        first == second,
{
    if first != second {
        assert(address[second] != '/');
    }
}

/// The two parts of an address that has exactly one slash.
pub fn address_parts(address: &str) -> (parts: Option<(String, String)>)
    ensures
        match parts_of(address@) {
            Some((left, right)) => parts matches Some((device, line)) && device@ == left && line@
                == right,
            None => parts is None,
        },
{
    let length: usize = address.unicode_len();
    let mut found: Option<usize> = None;
    let mut i: usize = 0;
    while i < length
        invariant
            length == address@.len(),
            0 <= i <= length,
            match found {
                None => forall|j: int| 0 <= j < i ==> #[trigger] address@[j] != '/',
                Some(at) => at < i && address@[at as int] == '/' && forall|j: int|
                    0 <= j < i && j != at ==> #[trigger] address@[j] != '/',
            },
        decreases length - i,
    {
        if address.get_char(i) == '/' {
            match found {
                Some(at) => {
                    assert forall|k: int| !#[trigger] single_slash(address@, k) by {
                        assert(address@[at as int] == '/' && address@[i as int] == '/');
                    }
                    return None;
                },
                None => {
                    found = Some(i);
                },
            }
        }
        i += 1;
    }
    match found {
        None => {
            assert forall|k: int| !#[trigger] single_slash(address@, k) by {
                if 0 <= k < address@.len() {
                    assert(address@[k] != '/');
                }
            }
            None
        },
        Some(at) => {
            proof {
                assert(single_slash(address@, at as int));
                lemma_one_slash(
                    address@,
                    at as int,
                    choose|k: int| single_slash(address@, k),
                );
            }
            assert(address@.subrange(0, at as int) =~= address@.take(at as int));
            assert(address@.subrange(at + 1, length as int) =~= address@.skip(at + 1));
            Some((trim_part(address, 0, at), trim_part(address, at + 1, length)))
        },
    }
}

proof fn lemma_decimal(n: nat)
    ensures
        digits_value(decimal(n)) == Some(n),
        decimal(n).len() > 0,
        decimal(n)[0] != '+',
    decreases n,
{
    if n >= 10 {
        lemma_decimal(n / 10);
        let shown = decimal(n);
        assert(shown.drop_last() =~= decimal(n / 10));
        assert(digit_value(shown.last()) == Some(n % 10));
    } else {
        assert(digit_value(decimal(n).last()) == Some(n));
    }
}

/// A number that is written is read back as itself.
pub proof fn law_written_numbers_are_read_back(n: u64, written: String, shown: &str, read: Option<usize>)
    requires
        call_ensures(decimal_text, (n,), written),
        call_ensures(parse_number, (shown,), read),
        shown@ == written@,
    ensures
        n <= usize::MAX ==> read == Some(n as usize),
{
    lemma_decimal(n as nat);
}

/// Letters count as the same exactly if they differ in case at most.
pub proof fn law_case_does_not_count(
    left: &str,
    right: &str,
    same: bool,
    i: int,
    first: u32,
    second: u32,
)
    requires
        call_ensures(same_ignoring_case, (left, right), same),
        0 <= i < left@.len(),
        i < right@.len(),
        call_ensures(fold, (left@[i],), first),
        call_ensures(fold, (right@[i],), second),
    ensures
        same ==> left@.len() == right@.len() && first == second,
        left@ == right@ ==> same,
        'A' <= left@[i] <= 'Z' ==> first == left@[i] as int + 32,
        !('A' <= left@[i] <= 'Z') ==> first == left@[i] as int,
        left@.len() == right@.len() && (forall|j: int|
            0 <= j < left@.len() ==> {
                ||| #[trigger] left@[j] == right@[j]
                ||| 'A' <= left@[j] <= 'Z' && right@[j] as int == left@[j] as int + 32
                ||| 'A' <= right@[j] <= 'Z' && left@[j] as int == right@[j] as int + 32
            }) ==> same,
{
}

/// Texts are ordered by their first difference, a beginning before the whole; of two
/// different texts exactly one comes first.
pub proof fn law_texts_are_ordered_by_their_first_difference(
    left: &str,
    right: &str,
    less: bool,
    greater: bool,
    same: bool,
    i: int,
)
    requires
        call_ensures(precedes, (left, right), less),
        call_ensures(precedes, (right, left), greater),
        call_ensures(same_text, (left, right), same),
        0 <= i <= left@.len(),
        i <= right@.len(),
        left@.take(i) == right@.take(i),
    ensures
        same <==> !less && !greater,
        !(less && greater),
        i < left@.len() && i < right@.len() && left@[i] != right@[i] ==> (less <==> left@[i]
            < right@[i]),
        i == left@.len() && i < right@.len() ==> less,
        same <==> left@ == right@,
{
    lemma_text_order(left@, right@);
    lemma_first_difference(left@, right@, i);
    lemma_first_difference(right@, left@, i);
}

proof fn lemma_first_difference(left: Seq<char>, right: Seq<char>, i: int)
    requires
        0 <= i <= left.len(),
        i <= right.len(),
        left.take(i) == right.take(i),
    ensures
        i < left.len() && i < right.len() && left[i] != right[i] ==> (text_less(left, right)
            <==> left[i] < right[i]),
        i == left.len() && i < right.len() ==> text_less(left, right),
    decreases i,
{
    if i > 0 {
        assert(left.take(i)[0] == left[0]);
        assert(right.take(i)[0] == right[0]);
        assert(left.skip(1).take(i - 1) =~= right.skip(1).take(i - 1)) by {
            assert forall|j: int| 0 <= j < i - 1 implies #[trigger] left.skip(1).take(i - 1)[j]
                == right.skip(1).take(i - 1)[j] by {
                assert(left.take(i)[j + 1] == left[j + 1]);
                assert(right.take(i)[j + 1] == right[j + 1]);
            }
        }
        lemma_first_difference(left.skip(1), right.skip(1), i - 1);
    }
}

/// A text can be handed to native code exactly if it has no terminator within it.
pub proof fn law_native_texts_have_no_terminator(text: &str, fits: bool, i: int)
    requires
        call_ensures(native, (text,), fits),
        0 <= i < text@.len(),
    ensures
        text@[i] == '\0' ==> !fits,
        !fits ==> exists|j: int| 0 <= j < text@.len() && #[trigger] text@[j] == '\0',
{
}

/// An address is two names with one slash between them; what is around the names
/// does not count.
pub proof fn law_addresses_are_split_at_their_slash(
    address: &str,
    parts: Option<(String, String)>,
    at: int,
)
    requires
        call_ensures(address_parts, (address,), parts),
        0 <= at < address@.len(),
        address@[at] == '/',
    ensures
        parts is Some <==> forall|i: int|
            0 <= i < address@.len() && i != at ==> #[trigger] address@[i] != '/',
        0 < at < address@.len() - 1 && !is_white(address@[0]) && !is_white(address@[at - 1])
            && !is_white(address@[at + 1]) && !is_white(address@.last()) ==> (parts matches Some(
            both,
        ) ==> both.0@ == address@.take(at) && both.1@ == address@.skip(at + 1)),
{
    if forall|i: int| 0 <= i < address@.len() && i != at ==> #[trigger] address@[i] != '/' {
        assert(single_slash(address@, at));
        let found = choose|found: int| single_slash(address@, found);
        lemma_one_slash(address@, at, found);
    } else if exists|other: int| single_slash(address@, other) {
        let other = choose|other: int| single_slash(address@, other);
        assert(address@[at] == '/');
    }
}

} // verus!
