//! Decimal text of integers: writing it, reading it, and the proof that what
//! was written reads back as the same number.

use vstd::prelude::*;
use vstd::string::StringExecFns;
use vstd::string::StrSliceExecFns;

verus! {

/// The character that stands for the decimal digit `d`: the digits follow
/// one another from `'0'` on.
pub open spec fn digit_char(d: int) -> char {
    ('0' as int + d) as char
}

/// Whether `c` is one of the ten decimal digits.
pub open spec fn is_digit(c: char) -> bool {
    '0' as int <= c as int <= '9' as int
}

/// The number that the digit `c` stands for.
pub open spec fn digit_value(c: char) -> int {
    c as int - '0' as int
}

/// The digits of `n` without sign or leading zeros, most significant first.
pub open spec fn decimal_digits(n: nat) -> Seq<char>
    decreases n,
{
    if n < 10 {
        seq![digit_char(n as int)]
    } else {
        decimal_digits(n / 10).push(digit_char((n % 10) as int))
    }
}

/// The decimal text of `n`: a minus sign for a negative number, then its digits.
pub open spec fn decimal_text(n: int) -> Seq<char> {
    if n < 0 {
        seq!['-'] + decimal_digits((-n) as nat)
    } else {
        decimal_digits(n as nat)
    }
}

/// Whether every character of `s` is a decimal digit.
pub open spec fn all_digits(s: Seq<char>) -> bool {
    forall|i: int| 0 <= i < s.len() ==> is_digit(#[trigger] s[i])
}

/// The number that a run of digits denotes, most significant first.
pub open spec fn digits_value(s: Seq<char>) -> nat
    decreases s.len(),
{
    if s.len() == 0 {
        0
    } else {
        (10 * digits_value(s.drop_last()) + digit_value(s.last())) as nat
    }
}

/// What is left of `s` once one leading plus sign is taken away.
pub open spec fn without_plus(s: Seq<char>) -> Seq<char> {
    if s.len() > 0 && s[0] == '+' {
        s.subrange(1, s.len() as int)
    } else {
        s
    }
}

/// The unsigned 64-bit number that the text `s` denotes: an optional plus
/// sign followed by one or more digits whose value fits. Any other text
/// denotes none.
pub open spec fn parsed_u64(s: Seq<char>) -> Option<u64> {
    let digits = without_plus(s);
    if digits.len() > 0 && all_digits(digits) && digits_value(digits) <= u64::MAX {
        Some(digits_value(digits) as u64)
    } else {
        None
    }
}

/// The digits written for a number are digits, start with no sign, and denote
/// that number.
pub proof fn lemma_decimal_digits_read_back(n: nat)
    ensures
        decimal_digits(n).len() > 0,
        all_digits(decimal_digits(n)),
        is_digit(decimal_digits(n)[0]),
        digits_value(decimal_digits(n)) == n,
    decreases n,
{
    let s = decimal_digits(n);
    if n < 10 {
        assert(digits_value(s.drop_last()) == 0);
    } else {
        let head = decimal_digits(n / 10);
        lemma_decimal_digits_read_back(n / 10);
        assert(s.drop_last() =~= head);
    }
}

/// Reading back the decimal text of a number gives the number where it is
/// not negative and fits in 64 bits, and nothing where it is negative.
pub proof fn lemma_decimal_text_parses(n: int)
    ensures
        0 <= n <= u64::MAX ==> parsed_u64(decimal_text(n)) == Some(n as u64),
        n < 0 ==> parsed_u64(decimal_text(n)) is None,
{
    if n >= 0 {
        lemma_decimal_digits_read_back(n as nat);
    }
}

/// A run of digits denotes at least as much as any of its prefixes.
pub proof fn lemma_digits_value_prefix(s: Seq<char>, k: int)
    requires
        all_digits(s),
        0 <= k <= s.len(),
    ensures
        digits_value(s.take(k)) <= digits_value(s),
    decreases s.len(),
{
    if k == s.len() {
        assert(s.take(k) =~= s);
    } else {
        let shorter = s.drop_last();
        lemma_digits_value_prefix(shorter, k);
        assert(shorter.take(k) =~= s.take(k));
    }
}

/// Reading one more digit multiplies what was read by ten and adds the digit.
pub proof fn lemma_digits_value_step(s: Seq<char>, k: int)
    requires
        0 <= k < s.len(),
        is_digit(s[k]),
    ensures
        digits_value(s.take(k + 1)) == 10 * digits_value(s.take(k)) + digit_value(s[k]),
{
    let longer = s.take(k + 1);
    assert(longer.drop_last() =~= s.take(k));
}

/// The digit that `c` stands for, if it is one.
fn digit_of(c: char) -> (d: Option<u64>)
    ensures
        match d {
            Some(v) => is_digit(c) && digit_value(c) == v,
            None => !is_digit(c),
        },
{
    if '0' <= c && c <= '9' {
        Some((c as u64) - ('0' as u64))
    } else {
        None
    }
}

/// Reads an unsigned 64-bit number from its decimal text.
pub fn parse_u64(s: &str) -> (r: Option<u64>)
    ensures
        r == parsed_u64(s@),
{
    let len: usize = s.unicode_len();
    if len == 0 {
        return None;
    }
    let start: usize = if s.get_char(0) == '+' {
        1
    } else {
        0
    };
    let ghost digits = without_plus(s@);
    let mut value: u64 = 0;
    let mut i: usize = start;
    while i < len
        invariant
            start <= i <= len,
            len == s@.len(),
            digits == s@.subrange(start as int, len as int),
            digits == without_plus(s@),
            all_digits(digits.take(i - start)),
            value == digits_value(digits.take(i - start)),
        decreases len - i,
    {
        let c = s.get_char(i);
        let ghost k = i - start;
        assert(digits[k] == c);
        let digit: u64 = match digit_of(c) {
            Some(d) => d,
            None => {
                return None;
            },
        };
        proof {
            lemma_digits_value_step(digits, k);
            if all_digits(digits) {
                lemma_digits_value_prefix(digits, k + 1);
            }
        }
        let tens: u64 = match value.checked_mul(10) {
            Some(t) => t,
            None => {
                return None;
            },
        };
        value = match tens.checked_add(digit) {
            Some(v) => v,
            None => {
                return None;
            },
        };
        i += 1;
    }
    assert(digits.take(i - start) =~= digits);
    if i == start {
        None
    } else {
        Some(value)
    }
}

/// The one-character text of the digit `d`.
fn digit_str(d: u64) -> (s: &'static str)
    requires
        d < 10,
    ensures
        s@ == seq![digit_char(d as int)],
{
    proof {
        reveal_strlit("0");
        reveal_strlit("1");
        reveal_strlit("2");
        reveal_strlit("3");
        reveal_strlit("4");
        reveal_strlit("5");
        reveal_strlit("6");
        reveal_strlit("7");
        reveal_strlit("8");
        reveal_strlit("9");
    }
    let s = if d == 0 {
        "0"
    } else if d == 1 {
        "1"
    } else if d == 2 {
        "2"
    } else if d == 3 {
        "3"
    } else if d == 4 {
        "4"
    } else if d == 5 {
        "5"
    } else if d == 6 {
        "6"
    } else if d == 7 {
        "7"
    } else if d == 8 {
        "8"
    } else {
        "9"
    };
    s
}

/// Appends the digits of `n` to `out`.
fn push_decimal_digits(out: &mut String, n: u64)
    ensures
        final(out)@ == old(out)@ + decimal_digits(n as nat),
    decreases n,
{
    if n >= 10 {
        push_decimal_digits(out, n / 10);
    }
    out.append(digit_str(n % 10));
}

/// Appends the decimal text of `n` to `out`.
pub fn push_decimal(out: &mut String, n: i64)
    ensures
        final(out)@ == old(out)@ + decimal_text(n as int),
{
    if n < 0 {
        proof {
            reveal_strlit("-");
        }
        out.append("-");
        let magnitude: u64 = if n == i64::MIN {
            9223372036854775808u64
        } else {
            (-n) as u64
        };
        push_decimal_digits(out, magnitude);
    } else {
        push_decimal_digits(out, n as u64);
    }
}

/// The decimal text of `n`.
pub fn decimal_string(n: i64) -> (s: String)
    ensures
        s@ == decimal_text(n as int),
{
    let mut s = String::new();
    push_decimal(&mut s, n);
    s
}

/// Whether two texts hold the same characters.
pub fn same_text(a: &str, b: &str) -> (same: bool)
    ensures
        same == (a@ == b@),
{
    String::from_str(a) == String::from_str(b)
}

} // verus!
