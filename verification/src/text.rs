//! Decimal numerals: how the server writes file sizes and how they are read back.
use vstd::prelude::*;

verus! {

/// An ASCII decimal digit.
pub open spec fn is_digit(c: char) -> bool {
    '0' <= c && c <= '9'
}

/// The number that a decimal digit stands for.
pub open spec fn digit_value(c: char) -> nat {
    (c as int - '0' as int) as nat
}

/// The digit that stands for `d`, for `d` below ten.
pub open spec fn digit_char(d: nat) -> char {
    (d + '0' as int) as char
}

/// Every character of `s` is a decimal digit.
pub open spec fn all_digits(s: Seq<char>) -> bool {
    forall|i: int| 0 <= i < s.len() ==> is_digit(#[trigger] s[i])
}

/// The number that a string of decimal digits stands for, most significant digit first.
pub open spec fn digits_value(s: Seq<char>) -> nat
    decreases s.len(),
{
    if s.len() == 0 {
        0
    } else {
        digits_value(s.drop_last()) * 10 + digit_value(s.last())
    }
}

/// `s` without the one leading `+` that an unsigned numeral may carry.
pub open spec fn unsigned_digits(s: Seq<char>) -> Seq<char> {
    if s.len() > 0 && s[0] == '+' {
        s.drop_first()
    } else {
        s
    }
}

/// The `u128` that `s` denotes, as `str::parse::<u128>` reads it: an optional `+`,
/// then at least one decimal digit, and a value that fits in 128 bits.
pub open spec fn spec_parse_u128(s: Seq<char>) -> Option<u128> {
    let d = unsigned_digits(s);
    if d.len() > 0 && all_digits(d) && digits_value(d) <= u128::MAX {
        Some(digits_value(d) as u128)
    } else {
        None
    }
}

/// The shortest decimal numeral of `n`.
pub open spec fn spec_decimal(n: nat) -> Seq<char>
    decreases n,
{
    if n < 10 {
        seq![digit_char(n)]
    } else {
        spec_decimal(n / 10).push(digit_char(n % 10))
    }
}

proof fn lemma_digit_char(d: nat)
    requires
        d < 10,
    ensures
        is_digit(digit_char(d)),
        digit_value(digit_char(d)) == d,
{
    if d == 0 {
    } else if d == 1 {
    } else if d == 2 {
    } else if d == 3 {
    } else if d == 4 {
    } else if d == 5 {
    } else if d == 6 {
    } else if d == 7 {
    } else if d == 8 {
    } else {
    }
}

proof fn lemma_prefix_value_le(s: Seq<char>, k: int)
    requires
        all_digits(s),
        0 <= k <= s.len(),
    ensures
        digits_value(s.take(k)) <= digits_value(s),
    decreases s.len(),
{
    if k < s.len() {
        lemma_prefix_value_le(s.drop_last(), k);
        assert(s.drop_last().take(k) =~= s.take(k));
    } else {
        assert(s.take(k) =~= s);
    }
}

/// The decimal numeral of `n` is made of digits, starts with one, and denotes `n`.
pub proof fn lemma_decimal_digits(n: nat)
    ensures
        spec_decimal(n).len() > 0,
        all_digits(spec_decimal(n)),
        is_digit(spec_decimal(n)[0]),
        digits_value(spec_decimal(n)) == n,
    decreases n,
{
    if n < 10 {
        lemma_digit_char(n);
        assert(spec_decimal(n).drop_last() =~= Seq::<char>::empty());
        assert(digits_value(Seq::<char>::empty()) == 0);
        assert(digits_value(spec_decimal(n)) == n);
    } else {
        lemma_digit_char(n % 10);
        lemma_decimal_digits(n / 10);
        let p = spec_decimal(n / 10);
        assert(spec_decimal(n).drop_last() =~= p);
        assert(spec_decimal(n).last() == digit_char(n % 10));
        assert(n == (n / 10) * 10 + n % 10);
        assert(digits_value(spec_decimal(n)) == digits_value(p) * 10 + digit_value(digit_char(n % 10)));
        assert(digits_value(p) == n / 10);
        assert(spec_decimal(n)[0] == p[0]);
    }
}

/// Reading back the decimal numeral of a `u128` gives that number.
pub proof fn lemma_parse_decimal(n: u128)
    ensures
        spec_parse_u128(spec_decimal(n as nat)) == Some(n),
{
    lemma_decimal_digits(n as nat);
}

/// How a size is read: at most one leading `+`, which changes nothing; every other character
/// must be a digit; and the empty text, or a lone `+`, reads as nothing.
pub proof fn lemma_parse_reads_digits(s: Seq<char>)
    ensures
        spec_parse_u128(s) is Some ==> s.len() > 0 && !(s.len() == 1 && s[0] == '+'),
        forall|i: int|
            0 <= i < s.len() && !is_digit(#[trigger] s[i]) && !(i == 0 && s[i] == '+')
                ==> spec_parse_u128(s) is None,
        s.len() > 1 && s[0] == '+' && s[1] != '+' ==> spec_parse_u128(s) == spec_parse_u128(
            s.drop_first(),
        ),
        spec_parse_u128(s) matches Some(n) ==> n == digits_value(unsigned_digits(s)),
{
    assert forall|i: int|
        0 <= i < s.len() && !is_digit(#[trigger] s[i]) && !(i == 0 && s[i] == '+')
            implies spec_parse_u128(s) is None by {
        let d = unsigned_digits(s);
        if s.len() > 0 && s[0] == '+' {
            assert(d[i - 1] == s[i]);
        } else {
            assert(d[i] == s[i]);
        }
    }
    if s.len() > 1 && s[0] == '+' && s[1] != '+' {
        assert(unsigned_digits(s.drop_first()) == s.drop_first());
    }
}

/// Reads a `u128` written in decimal, as `str::parse::<u128>` does; `None` where it fails.
pub fn parse_u128(s: &str) -> (res: Option<u128>)
    ensures
        res == spec_parse_u128(s@),
{
    let len = s.unicode_len();
    let mut start: usize = 0;
    if len > 0 && s.get_char(0) == '+' {
        start = 1;
    }
    let ghost d = unsigned_digits(s@);
    assert(d =~= s@.skip(start as int));
    if start == len {
        return None;
    }
    let mut i: usize = start;
    let mut value: u128 = 0;
    assert(d.take(0) =~= Seq::<char>::empty());
    while i < len
        invariant
            start <= i <= len,
            start < len,
            len == s@.len(),
            d == s@.skip(start as int),
            d == unsigned_digits(s@),
            all_digits(d.take(i - start)),
            value == digits_value(d.take(i - start)),
        decreases len - i,
    {
        let c = s.get_char(i);
        assert(d[i - start] == c);
        if !('0' <= c && c <= '9') {
            assert(!is_digit(d[i - start]));
            return None;
        }
        let digit = (c as u32 - '0' as u32) as u128;
        let k = i - start;
        let ghost next = d.take(k + 1);
        assert(next.drop_last() =~= d.take(k as int));
        assert(next.last() == c);
        let stepped = match value.checked_mul(10) {
            Some(v) => v.checked_add(digit),
            None => None,
        };
        match stepped {
            Some(v) => {
                assert(all_digits(next));
                value = v;
            },
            None => {
                proof {
                    if all_digits(d) {
                        lemma_prefix_value_le(d, k + 1);
                    }
                }
                return None;
            },
        }
        i = i + 1;
    }
    assert(d.take(len - start) =~= d);
    Some(value)
}

} // verus!
