//! Texts as runs of characters: cutting at separators and reading numbers.

use vstd::prelude::*;

verus! {

/// `String::push`: the character is appended to the end of the string.
pub assume_specification[ String::push ](s: &mut String, c: char)
    ensures
        final(s)@ == old(s)@.push(c),
;

/// The characters of a string, one by one.
pub fn chars_of(s: &str) -> (chars: Vec<char>)
    ensures
        chars@ == s@,
{
    broadcast use vstd::string::axiom_spec_iter;

    let mut chars: Vec<char> = Vec::new();
    for c in it: s.chars()
        invariant
            it.seq() == s@,
            chars@ == s@.take(it.index()),
    {
        chars.push(c);
    }
    assert(s@.take(s@.len() as int) == s@);
    chars
}

/// The string made of the given characters.
pub fn string_of(chars: &Vec<char>) -> (s: String)
    ensures
        s@ == chars@,
{
    let mut s = String::new();
    let mut i: usize = 0;
    while i < chars.len()
        invariant
            i <= chars.len(),
            s@ == chars@.take(i as int),
        decreases chars.len() - i,
    {
        s.push(chars[i]);
        i += 1;
    }
    s
}

/// Whether two runs of characters are the same.
pub fn same_chars(a: &Vec<char>, b: &Vec<char>) -> (same: bool)
    ensures
        same == (a@ == b@),
{
    if a.len() != b.len() {
        return false;
    }
    let mut i: usize = 0;
    while i < a.len()
        invariant
            a.len() == b.len(),
            i <= a.len(),
            a@.take(i as int) == b@.take(i as int),
        decreases a.len() - i,
    {
        if a[i] != b[i] {
            assert(a@[i as int] != b@[i as int]);
            return false;
        }
        assert(a@.take(i + 1) == a@.take(i as int).push(a@[i as int]));
        assert(b@.take(i + 1) == b@.take(i as int).push(b@[i as int]));
        i += 1;
    }
    assert(a@.take(a@.len() as int) == a@);
    assert(b@.take(b@.len() as int) == b@);
    true
}

/// Whether two strings hold the same characters.
pub fn same_text(a: &str, b: &str) -> (same: bool)
    ensures
        same == (a@ == b@),
{
    let a_chars = chars_of(a);
    let b_chars = chars_of(b);
    same_chars(&a_chars, &b_chars)
}

/// Whether `sep` stands in `s` at index `at`.
pub open spec fn occurs_at(s: Seq<char>, sep: Seq<char>, at: int) -> bool {
    0 <= at && at + sep.len() <= s.len() && s.subrange(at, at + sep.len()) == sep
}

/// The index at which `sep` first stands in `s`; the length of `s` if it stands nowhere.
pub open spec fn first_occurrence(s: Seq<char>, sep: Seq<char>) -> int
    decreases s.len(),
{
    if s.len() == 0 || occurs_at(s, sep, 0) {
        0
    } else {
        1 + first_occurrence(s.drop_first(), sep)
    }
}

/// The pieces of `s` that lie between the occurrences of `sep`, read from the
/// left: the text before the first occurrence, then the pieces of what follows
/// it. A text without an occurrence is its own single piece, and so is every
/// text when `sep` is empty.
pub open spec fn split(s: Seq<char>, sep: Seq<char>) -> Seq<Seq<char>>
    decreases s.len(),
{
    let at = first_occurrence(s, sep);
    if sep.len() == 0 || at < 0 || at + sep.len() > s.len() {
        seq![s]
    } else {
        seq![s.take(at)] + split(s.skip(at + sep.len()), sep)
    }
}

/// The views of a list of character vectors.
pub open spec fn views(parts: Seq<Vec<char>>) -> Seq<Seq<char>> {
    parts.map_values(|p: Vec<char>| p@)
}

/// An occurrence in a tail of `s` is an occurrence in `s`, shifted.
pub proof fn lemma_occurs_at_skip(s: Seq<char>, sep: Seq<char>, from: int, at: int)
    requires
        0 <= from <= s.len(),
        0 <= at,
    ensures
        occurs_at(s.skip(from), sep, at) == occurs_at(s, sep, from + at),
{
    if at + sep.len() <= s.len() - from {
        assert(s.skip(from).subrange(at, at + sep.len()) == s.subrange(
            from + at,
            from + at + sep.len(),
        ));
    }
}

/// What `first_occurrence` finds is the leftmost occurrence, and it finds one
/// whenever there is one.
pub proof fn lemma_first_occurrence(s: Seq<char>, sep: Seq<char>)
    requires
        sep.len() > 0,
    ensures
        0 <= first_occurrence(s, sep) <= s.len(),
        first_occurrence(s, sep) < s.len() ==> occurs_at(s, sep, first_occurrence(s, sep)),
        forall|j: int| 0 <= j < first_occurrence(s, sep) ==> !occurs_at(s, sep, j),
    decreases s.len(),
{
    if s.len() == 0 || occurs_at(s, sep, 0) {
    } else {
        let rest = s.drop_first();
        lemma_first_occurrence(rest, sep);
        let r = first_occurrence(rest, sep);
        assert forall|j: int| 0 <= j < 1 + r implies !occurs_at(s, sep, j) by {
            if j > 0 {
                lemma_occurs_at_skip(s, sep, 1, j - 1);
                assert(s.skip(1) == rest);
            }
        }
        if 1 + r < s.len() {
            lemma_occurs_at_skip(s, sep, 1, r);
            assert(s.skip(1) == rest);
        }
    }
}

/// The leftmost occurrence is what `first_occurrence` finds.
pub proof fn lemma_first_occurrence_is(s: Seq<char>, sep: Seq<char>, at: int)
    requires
        sep.len() > 0,
        occurs_at(s, sep, at),
        forall|j: int| 0 <= j < at ==> !occurs_at(s, sep, j),
    ensures
        first_occurrence(s, sep) == at,
{
    lemma_first_occurrence(s, sep);
}

/// Without an occurrence the whole text is the single piece.
pub proof fn lemma_split_without_occurrence(s: Seq<char>, sep: Seq<char>)
    requires
        forall|j: int| 0 <= j ==> !occurs_at(s, sep, j),
    ensures
        split(s, sep) == seq![s],
{
    if sep.len() > 0 {
        lemma_first_occurrence(s, sep);
    }
}

/// The pieces put together again, with `sep` between each two.
pub open spec fn join(pieces: Seq<Seq<char>>, sep: Seq<char>) -> Seq<char>
    decreases pieces.len(),
{
    if pieces.len() == 0 {
        Seq::empty()
    } else if pieces.len() == 1 {
        pieces[0]
    } else {
        pieces[0] + sep + join(pieces.skip(1), sep)
    }
}

/// Cutting loses nothing: there is at least one piece, and the pieces with
/// the separator between them are the text that was cut.
pub proof fn lemma_split_joins_back(s: Seq<char>, sep: Seq<char>)
    ensures
        split(s, sep).len() >= 1,
        join(split(s, sep), sep) == s,
    decreases s.len(),
{
    let at = first_occurrence(s, sep);
    if sep.len() == 0 || at < 0 || at + sep.len() > s.len() {
    } else {
        lemma_first_occurrence(s, sep);
        let rest = s.skip(at + sep.len());
        lemma_split_joins_back(rest, sep);
        let pieces = split(s, sep);
        assert(pieces.skip(1) == split(rest, sep));
        assert(s.subrange(at, at + sep.len()) == sep);
        assert(s.take(at) + sep + rest == s);
    }
}

/// Cutting is thorough: no piece has the separator left in it.
pub proof fn lemma_split_pieces_are_whole(s: Seq<char>, sep: Seq<char>, piece: int)
    requires
        sep.len() > 0,
        0 <= piece < split(s, sep).len(),
    ensures
        forall|j: int| !occurs_at(split(s, sep)[piece], sep, j),
    decreases s.len(),
{
    lemma_first_occurrence(s, sep);
    let at = first_occurrence(s, sep);
    if at + sep.len() > s.len() {
        assert(split(s, sep)[piece] == s);
    } else {
        let rest = s.skip(at + sep.len());
        if piece == 0 {
            let head = s.take(at);
            assert forall|j: int| !occurs_at(head, sep, j) by {
                if occurs_at(head, sep, j) {
                    assert(head.subrange(j, j + sep.len()) == s.subrange(j, j + sep.len()));
                    assert(occurs_at(s, sep, j));
                }
            }
        } else {
            assert(split(s, sep)[piece] == split(rest, sep)[piece - 1]);
            lemma_split_pieces_are_whole(rest, sep, piece - 1);
        }
    }
}

/// Whether `sep` stands in `s` at index `at`.
pub fn stands_at(s: &Vec<char>, sep: &Vec<char>, at: usize) -> (found: bool)
    ensures
        found == occurs_at(s@, sep@, at as int),
{
    if at > s.len() || sep.len() > s.len() - at {
        return false;
    }
    let mut k: usize = 0;
    while k < sep.len()
        invariant
            at + sep.len() <= s.len(),
            k <= sep.len(),
            s@.subrange(at as int, at + k) == sep@.take(k as int),
        decreases sep.len() - k,
    {
        if s[at + k] != sep[k] {
            assert(s@.subrange(at as int, at + sep.len())[k as int] != sep@[k as int]);
            return false;
        }
        assert(s@.subrange(at as int, at + k + 1) == s@.subrange(at as int, at + k).push(
            s@[at + k],
        ));
        assert(sep@.take(k + 1) == sep@.take(k as int).push(sep@[k as int]));
        k += 1;
    }
    assert(sep@.take(sep@.len() as int) == sep@);
    true
}

/// Cuts `s` at every occurrence of `sep`, leftmost first.
pub fn split_chars(s: &Vec<char>, sep: &Vec<char>) -> (parts: Vec<Vec<char>>)
    ensures
        views(parts@) == split(s@, sep@),
{
    let mut parts: Vec<Vec<char>> = Vec::new();
    let mut current: Vec<char> = Vec::new();
    let mut start: usize = 0;
    let mut i: usize = 0;
    let n = s.len();
    let k = sep.len();
    assert(s@.skip(0) == s@);
    while i < n
        invariant
            n == s.len(),
            k == sep.len(),
            start <= i <= n,
            current@ == s@.subrange(start as int, i as int),
            k > 0 ==> forall|j: int| start <= j < i ==> !occurs_at(s@, sep@, j),
            split(s@, sep@) == views(parts@) + split(s@.skip(start as int), sep@),
        decreases n - i,
    {
        if k > 0 && stands_at(s, sep, i) {
            proof {
                let tail = s@.skip(start as int);
                assert forall|j: int| 0 <= j < i - start implies !occurs_at(tail, sep@, j) by {
                    lemma_occurs_at_skip(s@, sep@, start as int, j);
                }
                lemma_occurs_at_skip(s@, sep@, start as int, i - start);
                lemma_first_occurrence_is(tail, sep@, i - start);
                assert(tail.take(i - start) == current@);
                assert(tail.skip(i - start + k) == s@.skip(i + k));
                assert(views(parts@.push(current)) == views(parts@).push(current@));
            }
            parts.push(current);
            current = Vec::new();
            i = i + k;
            start = i;
        } else {
            proof {
                assert(s@.subrange(start as int, i + 1) == s@.subrange(start as int, i as int).push(
                    s@[i as int],
                ));
            }
            current.push(s[i]);
            i += 1;
        }
    }
    proof {
        let tail = s@.skip(start as int);
        assert(tail == current@);
        if k > 0 {
            assert forall|j: int| 0 <= j implies !occurs_at(tail, sep@, j) by {
                lemma_occurs_at_skip(s@, sep@, start as int, j);
            }
            lemma_split_without_occurrence(tail, sep@);
        }
        assert(views(parts@.push(current)) == views(parts@).push(current@));
    }
    parts.push(current);
    parts
}

/// One of the ten decimal digits of ASCII.
pub open spec fn is_digit(c: char) -> bool {
    '0' <= c <= '9'
}

/// What a decimal digit counts for.
pub open spec fn digit_value(c: char) -> int {
    c as int - '0' as int
}

pub open spec fn all_digits(s: Seq<char>) -> bool {
    forall|i: int| 0 <= i < s.len() ==> is_digit(#[trigger] s[i])
}

/// The number that a run of decimal digits writes, the most significant first.
pub open spec fn digits_value(s: Seq<char>) -> int
    decreases s.len(),
{
    if s.len() == 0 {
        0
    } else {
        digits_value(s.drop_last()) * 10 + digit_value(s.last())
    }
}

/// The text of a number without the plus sign that may lead it.
pub open spec fn without_plus(s: Seq<char>) -> Seq<char> {
    if s.len() > 0 && s[0] == '+' {
        s.skip(1)
    } else {
        s
    }
}

/// The number that `s` writes in decimal, if it writes one no greater than
/// `max`: at least one digit, nothing but digits, and at most one plus sign
/// before them.
pub open spec fn decimal(s: Seq<char>, max: int) -> Option<int> {
    let digits = without_plus(s);
    if digits.len() > 0 && all_digits(digits) && digits_value(digits) <= max {
        Some(digits_value(digits))
    } else {
        None
    }
}

/// More digits never write a smaller number.
pub proof fn lemma_digits_value_grows(s: Seq<char>, upto: int)
    requires
        all_digits(s),
        0 <= upto <= s.len(),
    ensures
        0 <= digits_value(s.take(upto)) <= digits_value(s),
    decreases s.len() - upto,
{
    if upto == s.len() {
        assert(s.take(upto) == s);
        lemma_digits_value_nonnegative(s);
    } else {
        lemma_digits_value_grows(s, upto + 1);
        let longer = s.take(upto + 1);
        assert(longer.drop_last() == s.take(upto));
        assert(longer.last() == s[upto]);
        assert(is_digit(s[upto]));
        lemma_digits_value_nonnegative(s.take(upto));
    }
}

pub proof fn lemma_digits_value_nonnegative(s: Seq<char>)
    requires
        all_digits(s),
    ensures
        0 <= digits_value(s),
    decreases s.len(),
{
    if s.len() > 0 {
        assert(is_digit(s.last()));
        assert(all_digits(s.drop_last())) by {
            assert forall|i: int| 0 <= i < s.drop_last().len() implies is_digit(
                #[trigger] s.drop_last()[i],
            ) by {
                assert(s.drop_last()[i] == s[i]);
            }
        }
        lemma_digits_value_nonnegative(s.drop_last());
    }
}

/// Reads a number written in decimal, as `decimal` defines it.
pub fn parse_decimal(s: &Vec<char>, max: u64) -> (parsed: Option<u64>)
    ensures
        parsed is Some <==> decimal(s@, max as int) is Some,
        parsed matches Some(n) ==> decimal(s@, max as int) == Some(n as int),
{
    let n = s.len();
    let first: usize = if n > 0 && s[0] == '+' { 1 } else { 0 };
    if first == n {
        return None;
    }
    let ghost digits = without_plus(s@);
    assert(digits == s@.skip(first as int));
    let mut value: u64 = 0;
    let mut i: usize = first;
    assert(digits.take(0) == Seq::<char>::empty());
    while i < n
        invariant
            n == s.len(),
            first <= i <= n,
            first < n,
            digits == s@.skip(first as int),
            digits == without_plus(s@),
            all_digits(digits.take(i - first)),
            value == digits_value(digits.take(i - first)),
            value <= max,
        decreases n - i,
    {
        let c = s[i];
        let ghost before = digits.take(i - first);
        let ghost after = digits.take(i - first + 1);
        assert(after.drop_last() == before);
        assert(after.last() == c);
        if c < '0' || c > '9' {
            assert(!is_digit(digits[i - first]));
            return None;
        }
        let d: u64 = (c as u32 - '0' as u32) as u64;
        assert(d == digit_value(c));
        assert(all_digits(after)) by {
            assert forall|j: int| 0 <= j < after.len() implies is_digit(#[trigger] after[j]) by {
                if j < before.len() {
                    assert(after[j] == before[j]);
                }
            }
        }
        if d > max || value > (max - d) / 10 {
            proof {
                assert(digits_value(after) > max);
                if all_digits(digits) {
                    lemma_digits_value_grows(digits, i - first + 1);
                }
            }
            return None;
        }
        value = value * 10 + d;
        i += 1;
    }
    assert(digits.take(n - first) == digits);
    Some(value)
}

} // verus!
