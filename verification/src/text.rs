//! Decimal text of integers, as it stands in addresses, in payloads and on
//! the command line.

use vstd::prelude::*;
use vstd::string::*;

verus! {

/// The character of one decimal digit.
pub open spec fn digit_char(d: int) -> char {
    seq!['0', '1', '2', '3', '4', '5', '6', '7', '8', '9'][d]
}

/// The decimal digits of a natural number, without leading zeros.
pub open spec fn nat_text(n: nat) -> Seq<char>
    decreases n,
{
    if n < 10 {
        seq![digit_char(n as int)]
    } else {
        nat_text(n / 10).push(digit_char((n % 10) as int))
    }
}

/// The decimal text of an integer: a minus sign where it is negative, then
/// its digits.
pub open spec fn int_text(n: int) -> Seq<char> {
    if n < 0 {
        seq!['-'] + nat_text((-n) as nat)
    } else {
        nat_text(n as nat)
    }
}

/// Whether `c` is one of the ten decimal digits.
pub open spec fn is_digit(c: char) -> bool {
    '0' <= c && c <= '9'
}

/// The number that a run of decimal digits denotes.
pub open spec fn digits_value(s: Seq<char>) -> int
    decreases s.len(),
{
    if s.len() == 0 {
        0
    } else {
        digits_value(s.drop_last()) * 10 + (s.last() as int - '0' as int)
    }
}

/// Whether `s` is a run of one or more decimal digits.
pub open spec fn all_digits(s: Seq<char>) -> bool {
    s.len() > 0 && forall|i: int| 0 <= i < s.len() ==> is_digit(#[trigger] s[i])
}

/// The integer that a decimal text denotes: an optional sign, `+` or `-`,
/// followed by one or more digits and nothing else.
pub open spec fn int_of_text(s: Seq<char>) -> Option<int> {
    if s.len() > 0 && s[0] == '-' {
        if all_digits(s.skip(1)) {
            Some(-digits_value(s.skip(1)))
        } else {
            None
        }
    } else if s.len() > 0 && s[0] == '+' {
        if all_digits(s.skip(1)) {
            Some(digits_value(s.skip(1)))
        } else {
            None
        }
    } else if all_digits(s) {
        Some(digits_value(s))
    } else {
        None
    }
}

/// What parsing a decimal text as an `isize` gives: the integer it denotes,
/// where it denotes one that an `isize` can hold.
pub open spec fn isize_of_text(s: Seq<char>) -> Option<isize> {
    match int_of_text(s) {
        Some(n) => if isize::MIN <= n <= isize::MAX {
            Some(n as isize)
        } else {
            None
        },
        None => None,
    }
}

/// The text of one decimal digit.
fn digit_text(d: u8) -> (text: &'static str)
    requires
        d < 10,
    ensures
        text@ == seq![digit_char(d as int)],
{
    proof {
        reveal_strlit("0");
        reveal_strlit("1");
        reveal_strlit("2");
        reveal_strlit("3");
        reveal_strlit("4");
        reveal_strlit("5");
        reveal_strlit("6");
        reveal_strlit("7");
        reveal_strlit("8");
        reveal_strlit("9");
    }
    let text = if d == 0 {
        "0"
    } else if d == 1 {
        "1"
    } else if d == 2 {
        "2"
    } else if d == 3 {
        "3"
    } else if d == 4 {
        "4"
    } else if d == 5 {
        "5"
    } else if d == 6 {
        "6"
    } else if d == 7 {
        "7"
    } else if d == 8 {
        "8"
    } else {
        "9"
    };
    assert(text@ =~= seq![digit_char(d as int)]);
    text
}

/// Writes the decimal digits of `n` at the end of `text`.
fn append_digits(text: &mut String, n: u64)
    ensures
        final(text)@ == old(text)@ + nat_text(n as nat),
    decreases n,
{
    if n >= 10 {
        append_digits(text, n / 10);
    }
    text.append(digit_text((n % 10) as u8));
    assert(text@ =~= old(text)@ + nat_text(n as nat));
}

/// The decimal text of `n`.
pub fn decimal(n: isize) -> (text: String)
    ensures
        text@ == int_text(n as int),
{
    let mut text = String::new();
    if n < 0 {
        text.append("-");
        proof {
            reveal_strlit("-");
        }
        // the size of a negative number, which may be one more than any
        // positive `isize`
        let size: u64 = ((-(n + 1)) as u64) + 1;
        append_digits(&mut text, size);
        assert(text@ =~= int_text(n as int));
    } else {
        append_digits(&mut text, n as u64);
        assert(text@ =~= int_text(n as int));
    }
    text
}

/// The value of a decimal digit, if `c` is one.
fn digit_of(c: char) -> (d: Option<u8>)
    ensures
        match d {
            Some(d) => is_digit(c) && d == c as int - '0' as int,
            None => !is_digit(c),
        },
{
    if c >= '0' && c <= '9' {
        Some(((c as u32) - ('0' as u32)) as u8)
    } else {
        None
    }
}

/// One more digit makes a number ten times as large, and more.
proof fn lemma_digits_grow(s: Seq<char>, k: int)
    requires
        0 <= k < s.len(),
        forall|i: int| 0 <= i <= k ==> is_digit(#[trigger] s[i]),
    ensures
        digits_value(s.take(k + 1)) == digits_value(s.take(k)) * 10 + (s[k] as int - '0' as int),
        0 <= digits_value(s.take(k)) <= digits_value(s.take(k + 1)),
    decreases k,
{
    assert(s.take(k + 1).drop_last() =~= s.take(k));
    assert(s.take(k + 1).last() == s[k]);
    if k > 0 {
        lemma_digits_grow(s, k - 1);
    } else {
        assert(s.take(0).len() == 0);
    }
}

/// Parses a decimal text as an `isize`: an optional sign, `+` or `-`,
/// followed by one or more digits that denote a number in range.
pub fn parse_isize(s: &str) -> (parsed: Option<isize>)
    ensures
        parsed == isize_of_text(s@),
{
    let len = s.unicode_len();
    if len == 0 {
        return None;
    }
    let first = s.get_char(0);
    let negative = first == '-';
    let start: usize = if first == '-' || first == '+' {
        1
    } else {
        0
    };
    let ghost body = s@.skip(start as int);
    proof {
        if start == 0 {
            assert(body =~= s@);
        }
    }
    if start == len {
        assert(body.len() == 0);
        return None;
    }
    let limit: i128 = (isize::MAX as i128) + 1;
    let mut size: i128 = 0;
    let mut beyond = false;
    let mut i: usize = start;
    while i < len
        invariant
            start <= i <= len,
            len == s@.len(),
            body == s@.skip(start as int),
            start == 0 ==> body == s@,
            start == if s@[0] == '-' || s@[0] == '+' {
                1int
            } else {
                0int
            },
            limit == isize::MAX + 1,
            forall|k: int| 0 <= k < i - start ==> is_digit(#[trigger] body[k]),
            0 <= digits_value(body.take(i - start)),
            beyond ==> digits_value(body.take(i - start)) > limit,
            !beyond ==> size == digits_value(body.take(i - start)) && size <= limit,
        decreases len - i,
    {
        let c = s.get_char(i);
        assert(body[i - start] == c);
        match digit_of(c) {
            Some(d) => {
                proof {
                    lemma_digits_grow(body, i - start);
                }
                if !beyond {
                    size = size * 10 + d as i128;
                    if size > limit {
                        beyond = true;
                    }
                }
            },
            None => {
                assert(!is_digit(body[i - start]));
                return None;
            },
        }
        i = i + 1;
    }
    assert(body.take(len - start) =~= body);
    assert(all_digits(body));
    if beyond {
        None
    } else if negative {
        Some((-size) as isize)
    } else if size < limit {
        Some(size as isize)
    } else {
        None
    }
}

} // verus!
