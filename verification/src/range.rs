//! Row and column ranges as they are written in a query: `1:5`, `5:`, `:10`, `5`.

use crate::number;
use std::ops::Range;
use vstd::prelude::*;

verus! {

/// The first colon of a text stands at `k`.
pub open spec fn is_first_colon(s: Seq<char>, k: int) -> bool {
    &&& 0 <= k < s.len()
    &&& s[k] == ':'
    &&& forall|i: int| 0 <= i < k ==> s[i] != ':'
}

/// Where the first colon of a text stands.
pub open spec fn first_colon(s: Seq<char>) -> int {
    choose|k: int| is_first_colon(s, k)
}

/// One side of a colon: a number, or `missing` where nothing is written.
pub open spec fn bound_value(s: Seq<char>, missing: usize) -> Option<usize> {
    if s.len() == 0 {
        Some(missing)
    } else {
        number::usize_value(s)
    }
}

/// The range that a text denotes. With a colon in it, the text before the first
/// one is the start, by default 1, and the text behind it is the end, by default
/// open. Without one, the text is a single number.
pub open spec fn range_value(s: Seq<char>) -> Option<Range<usize>> {
    if s.contains(':') {
        let k = first_colon(s);
        match (bound_value(s.take(k), 1), bound_value(s.skip(k + 1), usize::MAX)) {
            (Some(start), Some(end)) => Some(Range { start, end }),
            _ => None,
        }
    } else {
        match number::usize_value(s) {
            Some(n) => Some(Range { start: n, end: (n + 1) as usize }),
            None => None,
        }
    }
}

/// The end of the range is a `usize`: a single number has one above it.
pub open spec fn range_fits(s: Seq<char>) -> bool {
    !s.contains(':') ==> number::usize_value(s) != Some(usize::MAX)
}

proof fn lemma_first_colon(s: Seq<char>, k: int)
    requires
        is_first_colon(s, k),
    ensures
        s.contains(':'),
        first_colon(s) == k,
{
    let other = first_colon(s);
    assert(is_first_colon(s, other));
    assert(s[k] == ':');
    assert(s[other] == ':');
}

/// The characters of a text.
fn chars_of(s: &str) -> (chars: Vec<char>)
    ensures
        chars@ == s@,
{
    let mut chars: Vec<char> = Vec::new();
    for c in it: s.chars()
        invariant
            chars@ == s@.take(it.index()),
            it.seq() == s@,
    {
        chars.push(c);
    }
    assert(s@.take(s@.len() as int) == s@);
    chars
}

/// Where the first colon stands, if there is one.
fn find_colon(chars: &Vec<char>) -> (at: Option<usize>)
    ensures
        match at {
            Some(k) => is_first_colon(chars@, k as int),
            None => !chars@.contains(':'),
        },
{
    let mut k: usize = 0;
    while k < chars.len()
        invariant
            k <= chars@.len(),
            forall|i: int| 0 <= i < k ==> chars@[i] != ':',
        decreases chars@.len() - k,
    {
        if chars[k] == ':' {
            return Some(k);
        }
        k = k + 1;
    }
    None
}

/// One side of a colon, `chars[from..to]`.
fn parse_bound(chars: &Vec<char>, from: usize, to: usize, missing: usize) -> (bound: Option<usize>)
    requires
        from <= to <= chars@.len(),
    ensures
        bound == bound_value(chars@.subrange(from as int, to as int), missing),
{
    if from == to {
        Some(missing)
    } else {
        number::parse_usize(chars, from, to)
    }
}

/// Whether a text can be handed to [`parse_range`].
pub fn fits(s: &str) -> (ok: bool)
    ensures
        ok == range_fits(s@),
{
    let chars = chars_of(s);
    match find_colon(&chars) {
        Some(k) => {
            proof {
                lemma_first_colon(s@, k as int);
            }
            true
        },
        None => {
            assert(chars@.subrange(0, chars@.len() as int) == chars@);
            match number::parse_usize(&chars, 0, chars.len()) {
                Some(n) => n < usize::MAX,
                None => true,
            }
        },
    }
}

/// Parse a range string like "1:5", "5:", ":10", "5" into a `Range<usize>`. The
/// largest `usize` on its own is left out: the end of its range would overflow.
pub fn parse_range(s: &str) -> (range: Option<Range<usize>>)
    requires
        range_fits(s@),
    ensures
        range == range_value(s@),
{
    let chars = chars_of(s);
    let len: usize = chars.len();
    match find_colon(&chars) {
        Some(k) => {
            proof {
                lemma_first_colon(s@, k as int);
                assert(s@.take(k as int) == chars@.subrange(0, k as int));
                assert(s@.skip(k + 1) == chars@.subrange(k + 1, len as int));
            }
            let start = match parse_bound(&chars, 0, k, 1) {
                Some(start) => start,
                None => return None,
            };
            let end = match parse_bound(&chars, k + 1, len, usize::MAX) {
                Some(end) => end,
                None => return None,
            };
            Some(Range { start, end })
        },
        None => {
            assert(chars@.subrange(0, len as int) == s@);
            match number::parse_usize(&chars, 0, len) {
                Some(n) => Some(Range { start: n, end: n + 1 }),
                None => None,
            }
        },
    }
}

/// A range written with both numbers is the range between them; one written with
/// a number on one side is open on the other: from 1, or without end.
pub proof fn law_colon_forms(start: usize, end: usize)
    ensures
        range_value(
            number::decimal(start as nat) + seq![':'] + number::decimal(end as nat),
        ) == Some(Range { start, end }),
        range_value(number::decimal(start as nat) + seq![':']) == Some(
            Range { start, end: usize::MAX },
        ),
        range_value(seq![':'] + number::decimal(end as nat)) == Some(
            Range { start: 1usize, end },
        ),
        range_value(seq![':']) == Some(Range { start: 1usize, end: usize::MAX }),
{
    let a = number::decimal(start as nat);
    let b = number::decimal(end as nat);
    let k = a.len() as int;
    number::law_decimal_reads_back(start);
    number::law_decimal_reads_back(end);
    number::lemma_decimal_digits(start as nat);
    number::lemma_decimal_digits(end as nat);
    let both = a + seq![':'] + b;
    assert forall|i: int| 0 <= i < k implies both[i] != ':' by {
        assert(number::is_digit(a[i]));
    }
    lemma_first_colon(both, k);
    assert(both.take(k) == a);
    assert(both.skip(k + 1) == b);
    let left = a + seq![':'];
    assert forall|i: int| 0 <= i < k implies left[i] != ':' by {
        assert(number::is_digit(a[i]));
    }
    lemma_first_colon(left, k);
    assert(left.take(k) == a);
    assert(left.skip(k + 1).len() == 0);
    let right = seq![':'] + b;
    lemma_first_colon(right, 0);
    assert(right.take(0).len() == 0);
    assert(right.skip(1) == b);
    lemma_first_colon(seq![':'], 0);
}

/// A single number is the range that holds it alone.
pub proof fn law_single_form(n: usize)
    requires
        n < usize::MAX,
    ensures
        range_value(number::decimal(n as nat)) == Some(
            Range { start: n, end: (n + 1) as usize },
        ),
{
    let s = number::decimal(n as nat);
    number::law_decimal_reads_back(n);
    number::lemma_decimal_digits(n as nat);
    if s.contains(':') {
        let i = choose|i: int| 0 <= i < s.len() && s[i] == ':';
        assert(number::is_digit(s[i]));
    }
}

/// A text with a second colon is no range.
pub proof fn law_one_colon(s: Seq<char>, i: int, j: int)
    requires
        0 <= i < j < s.len(),
        s[i] == ':',
        s[j] == ':',
    ensures
        range_value(s) is None,
{
    lemma_has_first_colon(s, i);
    let k = first_colon(s);
    let end = s.skip(k + 1);
    assert(k <= i);
    assert(end[j - k - 1] == ':');
    let digits = number::unsigned_part(end);
    if number::is_number(end) {
        if end[0] == '+' {
            assert(digits[j - k - 2] == ':');
            assert(number::is_digit(digits[j - k - 2]));
        } else {
            assert(number::is_digit(digits[j - k - 1]));
        }
    }
}

/// A text with a colon has a first one, no further than any other.
proof fn lemma_has_first_colon(s: Seq<char>, i: int)
    requires
        0 <= i < s.len(),
        s[i] == ':',
    ensures
        is_first_colon(s, first_colon(s)),
        first_colon(s) <= i,
        s.contains(':'),
    decreases i,
{
    if exists|j: int| 0 <= j < i && s[j] == ':' {
        let j = choose|j: int| 0 <= j < i && s[j] == ':';
        lemma_has_first_colon(s, j);
    } else {
        assert(is_first_colon(s, i));
        lemma_first_colon(s, i);
    }
}

/// What stands on each side of the first colon decides its bound, and nothing else
/// does: a number is that number, nothing is 1 on the left and no bound on the right,
/// and any other text makes the whole no range.
pub proof fn law_sides_are_the_bounds(a: Seq<char>, b: Seq<char>)
    requires
        !a.contains(':'),
    ensures
        ({
            let range = range_value(a + seq![':'] + b);
            &&& range is Some <==> (a.len() == 0 || number::usize_value(a) is Some) && (b.len()
                == 0 || number::usize_value(b) is Some)
            &&& range is Some && a.len() == 0 ==> range.unwrap().start == 1
            &&& range is Some && a.len() > 0 ==> number::usize_value(a) == Some(
                range.unwrap().start,
            )
            &&& range is Some && b.len() == 0 ==> range.unwrap().end == usize::MAX
            &&& range is Some && b.len() > 0 ==> number::usize_value(b) == Some(
                range.unwrap().end,
            )
        }),
{
    let s = a + seq![':'] + b;
    let k = a.len() as int;
    assert forall|i: int| 0 <= i < k implies s[i] != ':' by {
        assert(a.contains(a[i]));
    }
    lemma_first_colon(s, k);
    assert(s.take(k) == a);
    assert(s.skip(k + 1) == b);
}

/// A text without a colon is a range where it is a number, and the range then holds
/// this number alone.
pub proof fn law_lone_number(s: Seq<char>)
    requires
        !s.contains(':'),
    ensures
        range_value(s) is Some <==> number::usize_value(s) is Some,
        range_value(s) is Some ==> number::usize_value(s) == Some(range_value(s).unwrap().start),
        range_value(s) is Some && range_value(s).unwrap().start < usize::MAX ==> range_value(
            s,
        ).unwrap().end == range_value(s).unwrap().start + 1,
{
}

/// Every text can be handed to [`parse_range`] but one that is the largest `usize` on
/// its own.
pub proof fn law_what_fits(s: Seq<char>)
    ensures
        range_fits(s) <==> (exists|i: int| 0 <= i < s.len() && s[i] == ':')
            || number::usize_value(s) != Some(usize::MAX),
{
    if s.contains(':') {
        let i = choose|i: int| 0 <= i < s.len() && s[i] == ':';
        assert(s[i] == ':');
    }
}

} // verus!
