//! Decimal text for `u64` invoke ids: rendering and parsing.
//!
//! Parsing follows what `str::parse::<u64>` accepts: an optional leading `+`, then one
//! or more ASCII digits whose value fits in a `u64`. Leading zeros are accepted.
use vstd::prelude::*;

verus! {

/// An ASCII decimal digit.
pub open spec fn is_ascii_digit(c: char) -> bool {
    '0' <= c && c <= '9'
}

/// The value of an ASCII decimal digit.
pub open spec fn digit_value(c: char) -> nat {
    (c as int - '0' as int) as nat
}

/// The ASCII character for a decimal digit `d < 10`.
pub open spec fn digit_char(d: nat) -> char {
    (d + '0' as nat) as char
}

/// Every character of `s` is an ASCII decimal digit.
pub open spec fn all_ascii_digits(s: Seq<char>) -> bool {
    forall|i: int| 0 <= i < s.len() ==> #[trigger] is_ascii_digit(s[i])
}

/// The value of a string of decimal digits, most significant digit first.
pub open spec fn digits_value(s: Seq<char>) -> nat
    decreases s.len(),
{
    if s.len() == 0 {
        0
    } else {
        digits_value(s.drop_last()) * 10 + digit_value(s.last())
    }
}

/// The shortest decimal text of `n` (no sign, no leading zeros; `0` is `"0"`).
pub open spec fn decimal_digits(n: nat) -> Seq<char>
    decreases n,
{
    if n < 10 {
        seq![digit_char(n)]
    } else {
        decimal_digits(n / 10).push(digit_char(n % 10))
    }
}

/// What `str::parse::<u64>` yields for the text `s`: an optional `+`, then a nonempty run
/// of ASCII digits whose value is at most `u64::MAX`; anything else is rejected.
pub open spec fn spec_parse_u64(s: Seq<char>) -> Option<u64> {
    let body = if s.len() > 0 && s[0] == '+' {
        s.drop_first()
    } else {
        s
    };
    if body.len() > 0 && all_ascii_digits(body) && digits_value(body) <= u64::MAX {
        Some(digits_value(body) as u64)
    } else {
        None
    }
}

/// A digit string's prefixes never have a larger value than the whole string.
pub proof fn lemma_digits_value_prefix(s: Seq<char>, k: int)
    requires
        all_ascii_digits(s),
        0 <= k <= s.len(),
    ensures
        digits_value(s.take(k)) <= digits_value(s),
    decreases s.len(),
{
    if k == s.len() {
        assert(s.take(k) =~= s);
    } else {
        let t = s.drop_last();
        assert(t.take(k) =~= s.take(k));
        lemma_digits_value_prefix(t, k);
    }
}

/// Appending one digit to a digit string.
pub proof fn lemma_digits_value_push(s: Seq<char>, c: char)
    ensures
        digits_value(s.push(c)) == digits_value(s) * 10 + digit_value(c),
{
    assert(s.push(c).drop_last() =~= s);
}

/// The rendered text of `n` is a nonempty run of digits whose value is `n`.
pub proof fn lemma_decimal_digits(n: nat)
    ensures
        decimal_digits(n).len() > 0,
        all_ascii_digits(decimal_digits(n)),
        digits_value(decimal_digits(n)) == n,
    decreases n,
{
    if n < 10 {
        assert(digits_value(decimal_digits(n).drop_last()) == 0) by {
            assert(decimal_digits(n).drop_last() =~= Seq::<char>::empty());
        }
    } else {
        lemma_decimal_digits(n / 10);
        lemma_digits_value_push(decimal_digits(n / 10), digit_char(n % 10));
        assert(n == (n / 10) * 10 + n % 10) by (nonlinear_arith);
        let d = decimal_digits(n);
        let p = decimal_digits(n / 10);
        assert forall|i: int| 0 <= i < d.len() implies #[trigger] is_ascii_digit(d[i]) by {
            if i < p.len() {
                assert(d[i] == p[i]);
            }
        }
    }
}

/// Parsing the rendered text of a `u64` gives the number back.
pub proof fn lemma_parse_decimal_digits(n: u64)
    ensures
        spec_parse_u64(decimal_digits(n as nat)) == Some(n),
{
    lemma_decimal_digits(n as nat);
    assert(is_ascii_digit(decimal_digits(n as nat)[0]));
}

/// The decimal digit character of `d < 10`.
fn digit_to_char(d: u64) -> (c: char)
    requires
        d < 10,
    ensures
        c == digit_char(d as nat),
        is_ascii_digit(c),
{
    let b: u8 = (d as u8) + 48u8;
    b as char
}

/// Renders `n` as decimal text, most significant digit first.
pub fn decimal_chars(n: u64) -> (r: Vec<char>)
    ensures
        r@ == decimal_digits(n as nat),
    decreases n,
{
    if n < 10 {
        let mut v: Vec<char> = Vec::new();
        v.push(digit_to_char(n));
        v
    } else {
        let mut v = decimal_chars(n / 10);
        v.push(digit_to_char(n % 10));
        v
    }
}

/// Parses the characters `from..to` of `text` as `str::parse::<u64>` would.
pub fn parse_u64_range(text: &str, from: usize, to: usize) -> (r: Option<u64>)
    requires
        from <= to <= text@.len(),
    ensures
        r == spec_parse_u64(text@.subrange(from as int, to as int)),
{
    let ghost s = text@.subrange(from as int, to as int);
    let mut start: usize = from;
    if from < to && text.get_char(from) == '+' {
        start = from + 1;
    }
    let ghost body = text@.subrange(start as int, to as int);
    assert(body =~= (if s.len() > 0 && s[0] == '+' {
        s.drop_first()
    } else {
        s
    }));
    if start == to {
        return None;
    }
    let mut i: usize = start;
    let mut value: u64 = 0;
    assert(text@.subrange(start as int, start as int) =~= Seq::<char>::empty());
    while i < to
        invariant
            from <= start < to <= text@.len(),
            start <= i <= to,
            body == text@.subrange(start as int, to as int),
            all_ascii_digits(text@.subrange(start as int, i as int)),
            value as nat == digits_value(text@.subrange(start as int, i as int)),
            s == text@.subrange(from as int, to as int),
            body == (if s.len() > 0 && s[0] == '+' {
                s.drop_first()
            } else {
                s
            }),
        decreases to - i,
    {
        let c = text.get_char(i);
        let ghost prefix = text@.subrange(start as int, i as int);
        assert(text@.subrange(start as int, (i + 1) as int) =~= prefix.push(c));
        assert(body[i - start] == c);
        if !('0' <= c && c <= '9') {
            assert(!all_ascii_digits(body)) by {
                assert(!is_ascii_digit(body[i - start]));
            }
            return None;
        }
        let d: u64 = ((c as u32) - 48u32) as u64;
        proof {
            lemma_digits_value_push(prefix, c);
        }
        if value > (u64::MAX - d) / 10 {
            proof {
                assert(value * 10 + d > u64::MAX) by (nonlinear_arith)
                    requires
                        value > (u64::MAX - d) / 10,
                        d < 10,
                ;
                if all_ascii_digits(body) {
                    assert(body.take(i - start + 1) =~= prefix.push(c));
                    lemma_digits_value_prefix(body, i - start + 1);
                }
            }
            return None;
        }
        assert(value * 10 + d <= u64::MAX) by (nonlinear_arith)
            requires
                value <= (u64::MAX - d) / 10,
                d < 10,
        ;
        value = value * 10 + d;
        i = i + 1;
        assert forall|j: int| 0 <= j < text@.subrange(start as int, i as int).len() implies
            #[trigger] is_ascii_digit(text@.subrange(start as int, i as int)[j]) by {
            if j < prefix.len() {
                assert(text@.subrange(start as int, i as int)[j] == prefix[j]);
            }
        }
    }
    assert(text@.subrange(start as int, to as int) =~= body);
    Some(value)
}

} // verus!
