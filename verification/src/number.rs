//! Decimal numbers: what a text denotes, and the text of a number.

use vstd::prelude::*;
use vstd::string::*;

verus! {

pub open spec fn is_digit(c: char) -> bool {
    '0' as int <= c as int <= '9' as int
}

pub open spec fn digit_value(c: char) -> int {
    c as int - '0' as int
}

pub open spec fn all_digits(s: Seq<char>) -> bool {
    forall|i: int| 0 <= i < s.len() ==> is_digit(#[trigger] s[i])
}

/// The number that a row of decimal digits denotes.
pub open spec fn digits_value(s: Seq<char>) -> int
    decreases s.len(),
{
    if s.len() == 0 {
        0
    } else {
        10 * digits_value(s.drop_last()) + digit_value(s.last())
    }
}

/// What is left of a number's text without its optional leading `+`.
pub open spec fn unsigned_part(s: Seq<char>) -> Seq<char> {
    if s.len() > 0 && s[0] == '+' {
        s.skip(1)
    } else {
        s
    }
}

/// A number's text: an optional `+`, then digits, at least one of them.
pub open spec fn is_number(s: Seq<char>) -> bool {
    unsigned_part(s).len() > 0 && all_digits(unsigned_part(s))
}

/// The `usize` that a text denotes, if it denotes one.
pub open spec fn usize_value(s: Seq<char>) -> Option<usize> {
    if is_number(s) && digits_value(unsigned_part(s)) <= usize::MAX {
        Some(digits_value(unsigned_part(s)) as usize)
    } else {
        None
    }
}

/// The decimal text of a number, without leading zeros.
pub open spec fn decimal(n: nat) -> Seq<char>
    decreases n,
{
    if n < 10 {
        seq![digit_char(n as int)]
    } else {
        decimal(n / 10).push(digit_char((n % 10) as int))
    }
}

/// The digit for a number below ten.
pub open spec fn digit_char(d: int) -> char {
    ('0' as int + d) as char
}

proof fn lemma_digits_value_nonnegative(s: Seq<char>)
    requires
        all_digits(s),
    ensures
        digits_value(s) >= 0,
    decreases s.len(),
{
    if s.len() > 0 {
        assert(is_digit(s.last()));
        assert forall|i: int| 0 <= i < s.drop_last().len() implies is_digit(
            #[trigger] s.drop_last()[i],
        ) by {
            assert(is_digit(s[i]));
        }
        lemma_digits_value_nonnegative(s.drop_last());
    }
}

/// A longer row of digits denotes no smaller number.
proof fn lemma_digits_value_grows(s: Seq<char>, k: int)
    requires
        all_digits(s),
        0 <= k <= s.len(),
    ensures
        digits_value(s.take(k)) <= digits_value(s),
    decreases s.len(),
{
    if k == s.len() {
        assert(s.take(k) == s);
    } else {
        let t = s.drop_last();
        assert forall|i: int| 0 <= i < t.len() implies is_digit(#[trigger] t[i]) by {
            assert(is_digit(s[i]));
        }
        assert(is_digit(s.last()));
        assert(t.take(k) == s.take(k));
        lemma_digits_value_grows(t, k);
        lemma_digits_value_nonnegative(t);
    }
}

/// The number that `chars[from..to]` denotes.
pub(crate) fn parse_usize(chars: &Vec<char>, from: usize, to: usize) -> (value: Option<usize>)
    requires
        from <= to <= chars@.len(),
    ensures
        value == usize_value(chars@.subrange(from as int, to as int)),
{
    let ghost text = chars@.subrange(from as int, to as int);
    let ghost digits = unsigned_part(text);
    let start: usize = if from < to && chars[from] == '+' {
        from + 1
    } else {
        from
    };
    assert(digits == chars@.subrange(start as int, to as int));
    if start == to {
        return None;
    }
    let mut value: usize = 0;
    let mut at: usize = start;
    while at < to
        invariant
            from <= start <= at <= to <= chars@.len(),
            text == chars@.subrange(from as int, to as int),
            digits == unsigned_part(text),
            digits == chars@.subrange(start as int, to as int),
            all_digits(digits.take(at - start)),
            value == digits_value(digits.take(at - start)),
        decreases to - at,
    {
        let c = chars[at];
        let ghost seen = at - start;
        assert(digits[seen] == c);
        if c < '0' || '9' < c {
            assert(!is_digit(digits[seen]));
            return None;
        }
        let digit: usize = (c as u32 - '0' as u32) as usize;
        proof {
            assert(digits.take(seen + 1).drop_last() == digits.take(seen));
            assert(digits_value(digits.take(seen + 1)) == 10 * value + digit);
        }
        if value > usize::MAX / 10 || value * 10 > usize::MAX - digit {
            proof {
                if all_digits(digits) {
                    lemma_digits_value_grows(digits, seen + 1);
                }
            }
            return None;
        }
        value = value * 10 + digit;
        at = at + 1;
        assert forall|i: int| 0 <= i < digits.take(at - start).len() implies is_digit(
            #[trigger] digits.take(at - start)[i],
        ) by {
            if i < seen {
                assert(is_digit(digits.take(seen)[i]));
            }
        }
    }
    assert(digits.take(to - start) == digits);
    Some(value)
}

/// The text of one decimal digit.
fn digit_text(d: u64) -> (text: &'static str)
    requires
        d < 10,
    ensures
        text@ == seq![digit_char(d as int)],
{
    proof {
        reveal_strlit("0");
        reveal_strlit("1");
        reveal_strlit("2");
        reveal_strlit("3");
        reveal_strlit("4");
        reveal_strlit("5");
        reveal_strlit("6");
        reveal_strlit("7");
        reveal_strlit("8");
        reveal_strlit("9");
    }
    if d == 0 {
        "0"
    } else if d == 1 {
        "1"
    } else if d == 2 {
        "2"
    } else if d == 3 {
        "3"
    } else if d == 4 {
        "4"
    } else if d == 5 {
        "5"
    } else if d == 6 {
        "6"
    } else if d == 7 {
        "7"
    } else if d == 8 {
        "8"
    } else {
        "9"
    }
}

/// Appends the decimal text of a number.
pub(crate) fn push_decimal(out: &mut String, n: u64)
    ensures
        final(out)@ == old(out)@ + decimal(n as nat),
    decreases n,
{
    if n >= 10 {
        push_decimal(out, n / 10);
    }
    out.append(digit_text(n % 10));
}

/// The decimal text of a number is a row of digits that denotes it.
pub(crate) proof fn lemma_decimal_digits(n: nat)
    ensures
        decimal(n).len() > 0,
        all_digits(decimal(n)),
        digits_value(decimal(n)) == n,
    decreases n,
{
    if n < 10 {
        assert(decimal(n).drop_last() == Seq::<char>::empty());
        assert(digits_value(Seq::<char>::empty()) == 0);
    } else {
        lemma_decimal_digits(n / 10);
        assert(decimal(n).drop_last() == decimal(n / 10));
        assert forall|i: int| 0 <= i < decimal(n).len() implies is_digit(
            #[trigger] decimal(n)[i],
        ) by {
            if i < decimal(n / 10).len() {
                assert(is_digit(decimal(n / 10)[i]));
            }
        }
    }
}

/// Reading a number's decimal text gives the number back.
pub proof fn law_decimal_reads_back(n: usize)
    ensures
        usize_value(decimal(n as nat)) == Some(n),
{
    lemma_decimal_digits(n as nat);
    assert(is_digit(decimal(n as nat)[0]));
}

proof fn lemma_unsigned_push(s: Seq<char>, c: char)
    requires
        s.len() > 0,
    ensures
        unsigned_part(s.push(c)) == unsigned_part(s).push(c),
        digits_value(unsigned_part(s).push(c)) == 10 * digits_value(unsigned_part(s))
            + digit_value(c),
        all_digits(unsigned_part(s).push(c)) <==> all_digits(unsigned_part(s)) && is_digit(c),
{
    let digits = unsigned_part(s);
    assert(unsigned_part(s.push(c)) == digits.push(c));
    assert(digits.push(c).drop_last() == digits);
    if all_digits(digits.push(c)) {
        assert(is_digit(digits.push(c)[digits.len() as int]));
        assert forall|i: int| 0 <= i < digits.len() implies is_digit(#[trigger] digits[i]) by {
            assert(is_digit(digits.push(c)[i]));
        }
    }
}

/// Numbers are read from left to right: a digit behind a number makes it ten times
/// as large and adds the digit, as long as that is a `usize`, and anything else behind
/// a number makes it no number. The first digit may follow a `+` or nothing, and what
/// is no number otherwise becomes none by what follows.
pub proof fn law_one_more_character(s: Seq<char>, c: char)
    ensures
        usize_value(Seq::empty()) is None,
        usize_value(s.push(c)) == if !('0' as int <= c as int <= '9' as int) {
            None
        } else if s.len() == 0 || s == seq!['+'] {
            Some((c as int - '0' as int) as usize)
        } else {
            match usize_value(s) {
                Some(n) => if 10 * n + (c as int - '0' as int) <= usize::MAX {
                    Some((10 * n + (c as int - '0' as int)) as usize)
                } else {
                    None
                },
                None => None,
            }
        },
{
    if s.len() == 0 {
        assert(s.push(c) == seq![c]);
        if c == '+' {
            assert(seq![c].skip(1).len() == 0);
        } else {
            assert(seq![c].drop_last() == Seq::<char>::empty());
            assert(digits_value(Seq::<char>::empty()) == 0);
            assert(is_digit(seq![c][0]) <==> '0' as int <= c as int <= '9' as int);
        }
    } else {
        lemma_unsigned_push(s, c);
        let digits = unsigned_part(s);
        if digits.len() == 0 {
            assert(s == seq!['+']);
            assert(digits == Seq::<char>::empty());
            assert(digits_value(digits) == 0);
        } else {
            assert(s != seq!['+']) by {
                if s == seq!['+'] {
                    assert(digits.len() == 0);
                }
            }
            if all_digits(digits) {
                lemma_digits_value_nonnegative(digits);
            }
        }
    }
}

/// A number is written digit by digit: one below ten as its digit, any other as its
/// tenth followed by the digit that is left.
pub proof fn law_decimal_is_written_by_digits(n: nat, d: nat)
    requires
        d < 10,
    ensures
        decimal(d).len() == 1,
        decimal(d)[0] as int == '0' as int + d,
        n > 0 ==> decimal(10 * n + d) == decimal(n) + decimal(d),
{
    if n > 0 {
        assert((10 * n + d) / 10 == n);
        assert((10 * n + d) % 10 == d);
        assert(decimal(10 * n + d) == decimal(n) + decimal(d));
    }
}

} // verus!
