//! Counters as decimal text: reading a signed 64-bit integer from its
//! digits, and writing one in canonical form.

use vstd::prelude::*;
use vstd::string::*;
use crate::error::RatingError;

verus! {

/// Whether `c` is one of the ten ASCII digits.
pub open spec fn is_digit(c: char) -> bool {
    '0' <= c <= '9'
}

/// Whether every character of `s` is a digit.
pub open spec fn all_digits(s: Seq<char>) -> bool {
    forall|i: int| 0 <= i < s.len() ==> is_digit(#[trigger] s[i])
}

/// The number that a digit stands for.
pub open spec fn digit_value(c: char) -> int {
    c as int - 48
}

/// The digit that stands for `d`, which is below ten.
pub open spec fn digit_char(d: nat) -> char {
    (48 + d) as u8 as char
}

/// The number that a run of digits, most significant first, stands for.
pub open spec fn digits_value(s: Seq<char>) -> int
    decreases s.len(),
{
    if s.len() == 0 {
        0
    } else {
        digits_value(s.drop_last()) * 10 + digit_value(s.last())
    }
}

/// Whether `s` starts with a sign.
pub open spec fn has_sign(s: Seq<char>) -> bool {
    s.len() > 0 && (s[0] == '-' || s[0] == '+')
}

/// The part of `s` behind its sign, if it has one.
pub open spec fn unsigned_part(s: Seq<char>) -> Seq<char> {
    if has_sign(s) {
        s.subrange(1, s.len() as int)
    } else {
        s
    }
}

/// The integer that `s` is the decimal text of: an optional sign, then at
/// least one digit and nothing else, the whole within 64 bits. Leading
/// zeros are accepted.
pub open spec fn spec_parse_i64(s: Seq<char>) -> Option<int> {
    let body = unsigned_part(s);
    let magnitude = digits_value(body);
    let value = if s.len() > 0 && s[0] == '-' {
        -magnitude
    } else {
        magnitude
    };
    if body.len() > 0 && all_digits(body) && i64::MIN <= value <= i64::MAX {
        Some(value)
    } else {
        None
    }
}

/// The digits of `n`, most significant first, without leading zeros.
pub open spec fn nat_decimal(n: nat) -> Seq<char>
    decreases n,
{
    if n < 10 {
        seq![digit_char(n)]
    } else {
        nat_decimal(n / 10).push(digit_char(n % 10))
    }
}

/// The canonical decimal text of `v`: `-` before a negative number, no
/// leading zeros.
pub open spec fn spec_decimal(v: int) -> Seq<char> {
    if v < 0 {
        seq!['-'] + nat_decimal((-v) as nat)
    } else {
        nat_decimal(v as nat)
    }
}

/// A run of digits stands for a number that is not negative.
pub proof fn lemma_digits_value_nonnegative(s: Seq<char>)
    requires
        all_digits(s),
    ensures
        digits_value(s) >= 0,
    decreases s.len(),
{
    if s.len() > 0 {
        lemma_digits_value_nonnegative(s.drop_last());
        assert(is_digit(s[s.len() - 1]));
    }
}

/// A run of digits stands for at least as much as any of its prefixes.
pub proof fn lemma_prefix_value_le(s: Seq<char>, k: int)
    requires
        all_digits(s),
        0 <= k <= s.len(),
    ensures
        0 <= digits_value(s.subrange(0, k)) <= digits_value(s),
    decreases s.len(),
{
    if k == s.len() {
        assert(s.subrange(0, k) =~= s);
        lemma_digits_value_nonnegative(s);
    } else {
        let shorter = s.drop_last();
        assert(shorter.subrange(0, k) =~= s.subrange(0, k));
        lemma_prefix_value_le(shorter, k);
        assert(is_digit(s[s.len() - 1]));
    }
}

/// Text with a character outside ASCII is no decimal integer.
proof fn lemma_non_ascii_rejected(s: Seq<char>)
    requires
        !vstd::utf8::is_ascii_chars(s),
    ensures
        spec_parse_i64(s) is None,
{
    let i = choose|i: int| 0 <= i < s.len() && !('\0' <= #[trigger] s[i] <= '\u{7f}');
    let body = unsigned_part(s);
    if has_sign(s) {
        assert(i >= 1);
        assert(body[i - 1] == s[i]);
        assert(!is_digit(body[i - 1]));
    } else {
        assert(!is_digit(body[i]));
    }
}

/// Reads `arg` as a signed 64-bit integer in base ten. Anything else is
/// an invalid argument, which carries the text.
pub fn parse_i64(arg: &str) -> (r: Result<i64, RatingError>)
    ensures
        match spec_parse_i64(arg@) {
            Some(v) => r matches Ok(x) && x == v,
            None => r matches Err(RatingError::InvalidArgument { text }) && text@ == arg@,
        },
{
    match parse_decimal(arg) {
        Some(v) => Ok(v),
        None => Err(RatingError::InvalidArgument { text: String::from_str(arg) }),
    }
}

/// Reads `arg` as a signed 64-bit integer in base ten, if it is one.
pub fn parse_decimal(arg: &str) -> (r: Option<i64>)
    ensures
        match spec_parse_i64(arg@) {
            Some(v) => r matches Some(x) && x == v,
            None => r is None,
        },
{
    if !arg.is_ascii() {
        proof {
            lemma_non_ascii_rejected(arg@);
        }
        return None;
    }
    broadcast use is_ascii_spec_bytes;

    let bytes = arg.as_bytes();
    let n: usize = bytes.len();
    assert(bytes@.len() == arg@.len());
    if n == 0 {
        return None;
    }
    let first: u8 = bytes[0];
    assert(first == arg@[0] as u8);
    let negative = first == 45;
    let start: usize = if first == 45 || first == 43 {
        1
    } else {
        0
    };
    assert(has_sign(arg@) <==> start == 1);
    if start == n {
        return None;
    }
    let ghost body = unsigned_part(arg@);
    assert(body =~= arg@.subrange(start as int, n as int));
    let mut acc: i64 = 0;
    let mut i: usize = start;
    assert(body.subrange(0, 0) =~= Seq::<char>::empty());
    while i < n
        invariant
            start <= i <= n,
            start < n,
            n == arg@.len(),
            bytes@.len() == n,
            vstd::utf8::is_ascii_chars(arg@),
            forall|j: int| 0 <= j < n ==> bytes@[j] == arg@[j] as u8,
            body == arg@.subrange(start as int, n as int),
            all_digits(body.subrange(0, i - start)),
            negative ==> acc == -digits_value(body.subrange(0, i - start)),
            !negative ==> acc == digits_value(body.subrange(0, i - start)),
            negative <==> (arg@[0] == '-'),
            body == unsigned_part(arg@),
        decreases n - i,
    {
        let b: u8 = bytes[i];
        let ghost c: char = arg@[i as int];
        assert(body[i - start] == c);
        assert(b == c as u8);
        assert('\0' <= c <= '\u{7f}');
        if b < 48 || b > 57 {
            assert(!is_digit(body[i - start]));
            return None;
        }
        assert(is_digit(c));
        let d: i64 = (b - 48) as i64;
        assert(d == digit_value(c));
        let ghost prefix = body.subrange(0, i - start);
        let ghost longer = body.subrange(0, i + 1 - start);
        assert(longer.drop_last() =~= prefix);
        assert(longer.last() == c);
        assert(digits_value(longer) == digits_value(prefix) * 10 + d);
        proof {
            lemma_digits_value_nonnegative(prefix);
            if all_digits(body) {
                lemma_prefix_value_le(body, i + 1 - start);
            }
        }
        let next: Option<i64> = if negative {
            match acc.checked_mul(10) {
                Some(m) => m.checked_sub(d),
                None => None,
            }
        } else {
            match acc.checked_mul(10) {
                Some(m) => m.checked_add(d),
                None => None,
            }
        };
        match next {
            Some(v) => {
                acc = v;
            },
            None => {
                return None;
            },
        }
        assert forall|j: int| 0 <= j < longer.len() implies is_digit(#[trigger] longer[j]) by {
            if j < prefix.len() {
                assert(longer[j] == prefix[j]);
            }
        }
        i += 1;
    }
    assert(body.subrange(0, n - start) =~= body);
    Some(acc)
}

/// The one-character text of a digit.
fn digit_str(d: u8) -> (out: &'static str)
    requires
        d < 10,
    ensures
        out@ == seq![digit_char(d as nat)],
{
    proof {
        reveal_strlit("0");
        reveal_strlit("1");
        reveal_strlit("2");
        reveal_strlit("3");
        reveal_strlit("4");
        reveal_strlit("5");
        reveal_strlit("6");
        reveal_strlit("7");
        reveal_strlit("8");
        reveal_strlit("9");
    }
    let out = match d {
        0 => "0",
        1 => "1",
        2 => "2",
        3 => "3",
        4 => "4",
        5 => "5",
        6 => "6",
        7 => "7",
        8 => "8",
        _ => "9",
    };
    assert(out@ =~= seq![digit_char(d as nat)]);
    out
}

/// Appends the digits of `n` to `out`.
fn push_digits(out: &mut String, n: u64)
    ensures
        final(out)@ == old(out)@ + nat_decimal(n as nat),
    decreases n,
{
    if n >= 10 {
        push_digits(out, n / 10);
    }
    out.append(digit_str((n % 10) as u8));
    assert(out@ =~= old(out)@ + nat_decimal(n as nat));
}

/// Writes `value` in canonical decimal form.
pub fn format_i64(value: i64) -> (out: String)
    ensures
        out@ == spec_decimal(value as int),
{
    let mut out = String::new();
    if value < 0 {
        proof {
            reveal_strlit("-");
        }
        out.append("-");
        assert(out@ =~= seq!['-']);
        let magnitude: u64 = ((-(value + 1)) as u64) + 1;
        push_digits(&mut out, magnitude);
    } else {
        push_digits(&mut out, value as u64);
        assert(out@ =~= spec_decimal(value as int));
    }
    out
}

/// The digits written for a number are digits, at least one of them, and
/// stand for that number.
pub proof fn lemma_nat_decimal_value(n: nat)
    ensures
        nat_decimal(n).len() >= 1,
        all_digits(nat_decimal(n)),
        digits_value(nat_decimal(n)) == n,
    decreases n,
{
    let s = nat_decimal(n);
    if n < 10 {
        assert(s.drop_last() =~= Seq::<char>::empty());
        assert(digits_value(s.drop_last()) == 0);
        assert(s.last() == digit_char(n));
    } else {
        lemma_nat_decimal_value(n / 10);
        assert(s.drop_last() =~= nat_decimal(n / 10));
        assert(s.last() == digit_char(n % 10));
        assert forall|i: int| 0 <= i < s.len() implies is_digit(#[trigger] s[i]) by {
            if i < s.len() - 1 {
                assert(s[i] == nat_decimal(n / 10)[i]);
            }
        }
    }
}

/// What is written is read back as the same number: for every 64-bit
/// `v`, the canonical text of `v` parses to `v`.
pub proof fn lemma_decimal_round_trip(v: int)
    requires
        i64::MIN <= v <= i64::MAX,
    ensures
        spec_parse_i64(spec_decimal(v)) == Some(v),
{
    let s = spec_decimal(v);
    if v < 0 {
        let m = (-v) as nat;
        lemma_nat_decimal_value(m);
        assert(s[0] == '-');
        assert(unsigned_part(s) =~= nat_decimal(m));
    } else {
        lemma_nat_decimal_value(v as nat);
        assert(is_digit(s[0]));
        assert(unsigned_part(s) =~= s);
    }
}

/// Canonical text is never empty, so a written counter is never taken
/// for an absent one.
pub proof fn lemma_decimal_nonempty(v: int)
    ensures
        spec_decimal(v).len() >= 1,
{
    if v < 0 {
        lemma_nat_decimal_value((-v) as nat);
    } else {
        lemma_nat_decimal_value(v as nat);
    }
}

} // verus!
