use vstd::prelude::*;

use crate::errors::AuthError;

verus! {

/// The character standing for one decimal digit value.
pub open spec fn digit_char(d: int) -> char {
    if d == 0 {
        '0'
    } else if d == 1 {
        '1'
    } else if d == 2 {
        '2'
    } else if d == 3 {
        '3'
    } else if d == 4 {
        '4'
    } else if d == 5 {
        '5'
    } else if d == 6 {
        '6'
    } else if d == 7 {
        '7'
    } else if d == 8 {
        '8'
    } else {
        '9'
    }
}

/// The decimal rendering of `n`, most significant digit first, no sign and
/// no leading zeros (a lone zero for `n == 0`).
pub open spec fn dec_digits(n: nat) -> Seq<char>
    decreases n,
{
    if n < 10 {
        seq![digit_char(n as int)]
    } else {
        dec_digits(n / 10) + seq![digit_char((n % 10) as int)]
    }
}

pub open spec fn is_dec_digit(c: char) -> bool {
    '0' <= c && c <= '9'
}

pub open spec fn all_dec_digits(s: Seq<char>) -> bool {
    forall|i: int| 0 <= i < s.len() ==> is_dec_digit(#[trigger] s[i])
}

/// The numeric value of a string of decimal digits.
pub open spec fn dec_value(s: Seq<char>) -> int
    decreases s.len(),
{
    if s.len() == 0 {
        0
    } else {
        dec_value(s.drop_last()) * 10 + (s.last() as int - '0' as int)
    }
}

/// A string parses as a stored identifier when it is non-empty, all decimal
/// digits, and its value fits the identifier type.
pub open spec fn parses_as_id(s: Seq<char>) -> bool {
    s.len() > 0 && all_dec_digits(s) && dec_value(s) <= i64::MAX
}

proof fn lemma_dec_value_nonneg(s: Seq<char>)
    requires
        all_dec_digits(s),
    ensures
        dec_value(s) >= 0,
    decreases s.len(),
{
    if s.len() > 0 {
        assert(all_dec_digits(s.drop_last())) by {
            assert(forall|i: int|
                0 <= i < s.len() - 1 ==> is_dec_digit(#[trigger] s.drop_last()[i]) == is_dec_digit(
                    s[i],
                ));
        }
        lemma_dec_value_nonneg(s.drop_last());
        assert(dec_value(s.drop_last()) * 10 >= 0) by (nonlinear_arith)
            requires
                dec_value(s.drop_last()) >= 0,
        ;
    }
}

/// Extending a digit string by one digit multiplies its value by ten and
/// adds the digit.
proof fn lemma_dec_value_step(s: Seq<char>, i: int)
    requires
        0 <= i < s.len(),
    ensures
        dec_value(s.subrange(0, i + 1)) == dec_value(s.subrange(0, i)) * 10 + (s[i] as int
            - '0' as int),
{
    assert(s.subrange(0, i + 1).drop_last() =~= s.subrange(0, i));
    assert(s.subrange(0, i + 1).last() == s[i]);
}

/// The value of a digit string is at least the value of any of its prefixes,
/// provided the remaining characters are digits.
proof fn lemma_dec_value_prefix_le(s: Seq<char>, i: int)
    requires
        0 <= i <= s.len(),
        forall|j: int| i <= j < s.len() ==> is_dec_digit(#[trigger] s[j]),
        dec_value(s.subrange(0, i)) >= 0,
    ensures
        dec_value(s) >= dec_value(s.subrange(0, i)),
    decreases s.len() - i,
{
    if i == s.len() {
        assert(s.subrange(0, i) =~= s);
    } else {
        lemma_dec_value_step(s, i);
        let prev = dec_value(s.subrange(0, i));
        assert(prev * 10 >= prev) by (nonlinear_arith)
            requires
                prev >= 0,
        ;
        lemma_dec_value_prefix_le(s, i + 1);
    }
}

/// A single decimal digit as a borrowed string.
fn digit_str(d: u32) -> (r: &'static str)
    requires
        d <= 9,
    ensures
        r@ == seq![digit_char(d as int)],
{
    proof {
        reveal_strlit("0");
        reveal_strlit("1");
        reveal_strlit("2");
        reveal_strlit("3");
        reveal_strlit("4");
        reveal_strlit("5");
        reveal_strlit("6");
        reveal_strlit("7");
        reveal_strlit("8");
        reveal_strlit("9");
    }
    match d {
        0 => "0",
        1 => "1",
        2 => "2",
        3 => "3",
        4 => "4",
        5 => "5",
        6 => "6",
        7 => "7",
        8 => "8",
        _ => "9",
    }
}

/// Renders a non-negative identifier in decimal.
pub fn i64_to_dec_string(n: i64) -> (r: String)
    requires
        n >= 0,
    ensures
        r@ == dec_digits(n as nat),
    decreases n,
{
    let d: i64 = n % 10;
    let rest: i64 = n / 10;
    let ds = digit_str(d as u32);
    if rest == 0 {
        ds.to_owned()
    } else {
        let mut s = i64_to_dec_string(rest);
        s.append(ds);
        proof {
            assert(s@ =~= dec_digits((n as nat) / 10) + seq![digit_char((n as nat % 10) as int)]);
        }
        s
    }
}

/// Parses a stored identifier: the string must be non-empty, all decimal
/// digits, and denote a value that fits in `i64`; anything else is malformed.
pub fn parse_user_id(s: &str) -> (r: Result<i64, AuthError>)
    ensures
        r matches Ok(v) ==> parses_as_id(s@) && v == dec_value(s@) && v >= 0,
        r matches Err(e) ==> e == AuthError::InvalidInput && !parses_as_id(s@),
{
    let n = s.unicode_len();
    if n == 0 {
        return Err(AuthError::InvalidInput);
    }
    let mut acc: i64 = 0;
    let mut i: usize = 0;
    while i < n
        invariant
            0 <= i <= n,
            n == s@.len(),
            all_dec_digits(s@.subrange(0, i as int)),
            acc == dec_value(s@.subrange(0, i as int)),
            acc >= 0,
        decreases n - i,
    {
        let c = s.get_char(i);
        if c < '0' || c > '9' {
            assert(!is_dec_digit(s@[i as int]));
            return Err(AuthError::InvalidInput);
        }
        let d: i64 = (c as u32 as i64) - 48;
        assert(d == s@[i as int] as int - '0' as int);
        if acc > (i64::MAX - d) / 10 {
            proof {
                lemma_dec_value_step(s@, i as int);
                assert(acc * 10 + d > i64::MAX) by (nonlinear_arith)
                    requires
                        acc > (i64::MAX - d) / 10,
                        0 <= d <= 9,
                        acc >= 0,
                ;
                if all_dec_digits(s@) {
                    lemma_dec_value_nonneg(s@.subrange(0, i + 1 as int));
                    lemma_dec_value_prefix_le(s@, i + 1 as int);
                }
            }
            return Err(AuthError::InvalidInput);
        }
        proof {
            lemma_dec_value_step(s@, i as int);
            assert(acc * 10 + d <= i64::MAX) by (nonlinear_arith)
                requires
                    acc <= (i64::MAX - d) / 10,
                    0 <= d <= 9,
                    acc >= 0,
            ;
        }
        acc = acc * 10 + d;
        i = i + 1;
    }
    proof {
        assert(s@.subrange(0, n as int) =~= s@);
    }
    Ok(acc)
}

/// Law: rendering an identifier in decimal and parsing the result gives the
/// identifier back; the rendering is a well-formed identifier string.
pub proof fn lemma_dec_digits_roundtrip(n: nat)
    ensures
        dec_digits(n).len() >= 1,
        all_dec_digits(dec_digits(n)),
        dec_value(dec_digits(n)) == n,
        n <= i64::MAX ==> parses_as_id(dec_digits(n)),
    decreases n,
{
    if n < 10 {
        let s = dec_digits(n);
        assert(s.drop_last() =~= Seq::<char>::empty());
        assert(s.last() == digit_char(n as int));
        assert(dec_value(Seq::<char>::empty()) == 0);
        assert(dec_value(s) == n);
        assert(all_dec_digits(s));
    } else {
        lemma_dec_digits_roundtrip(n / 10);
        let s = dec_digits(n);
        let prefix = dec_digits(n / 10);
        assert(s.drop_last() =~= prefix);
        assert(s.last() == digit_char((n % 10) as int));
        assert(forall|i: int| 0 <= i < s.len() ==> is_dec_digit(#[trigger] s[i])) by {
            assert(forall|i: int| 0 <= i < prefix.len() ==> s[i] == #[trigger] prefix[i]);
        }
        assert(dec_value(prefix) * 10 + n % 10 == n) by (nonlinear_arith)
            requires
                dec_value(prefix) == n / 10,
                n >= 10,
        ;
        assert(dec_value(s) == n);
        assert(all_dec_digits(s));
    }
}

} // verus!
