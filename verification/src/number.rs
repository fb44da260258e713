//! Decimal numerals: reading integers from text and writing them back.

use vstd::prelude::*;

verus! {

/// `c` is one of the ten ASCII digits.
pub open spec fn is_digit(c: char) -> bool {
    '0' <= c && c <= '9'
}

/// The number that the digit `c` stands for.
pub open spec fn digit_value(c: char) -> nat {
    (c as u32 - '0' as u32) as nat
}

/// The digit that writes `d`, for `d` below ten.
pub open spec fn digit_char(d: nat) -> char {
    ((d + '0' as u32) as u32) as char
}

/// Every character of `s` is a digit.
pub open spec fn all_digits(s: Seq<char>) -> bool {
    forall|i: int| 0 <= i < s.len() ==> is_digit(#[trigger] s[i])
}

/// The number that the digit string `s` writes in base ten; leading zeros
/// are allowed, and the empty string writes zero.
pub open spec fn decimal_value(s: Seq<char>) -> nat
    decreases s.len(),
{
    if s.len() == 0 {
        0
    } else {
        decimal_value(s.drop_last()) * 10 + digit_value(s.last())
    }
}

/// `s` is a numeral: one digit or more, and nothing else.
pub open spec fn is_numeral(s: Seq<char>) -> bool {
    s.len() > 0 && all_digits(s)
}

/// What `s` reads as an unsigned 64-bit integer: an optional `+`, then a
/// numeral whose value fits. Anything else reads as nothing.
pub open spec fn parsed_u64(s: Seq<char>) -> Option<u64> {
    let body = if s.len() > 0 && s[0] == '+' {
        s.skip(1)
    } else {
        s
    };
    if is_numeral(body) && decimal_value(body) <= u64::MAX {
        Some(decimal_value(body) as u64)
    } else {
        None
    }
}

/// What `s` reads as a signed 64-bit integer: an optional `+` or `-`, then a
/// numeral, the signed value fitting. Anything else reads as nothing.
pub open spec fn parsed_i64(s: Seq<char>) -> Option<i64> {
    let negative = s.len() > 0 && s[0] == '-';
    let body = if s.len() > 0 && (s[0] == '+' || s[0] == '-') {
        s.skip(1)
    } else {
        s
    };
    let value: int = if negative {
        -(decimal_value(body) as int)
    } else {
        decimal_value(body) as int
    };
    if is_numeral(body) && i64::MIN <= value && value <= i64::MAX {
        Some(value as i64)
    } else {
        None
    }
}

/// The shortest numeral that writes `n`.
pub open spec fn decimal_text(n: nat) -> Seq<char>
    decreases n,
{
    if n < 10 {
        seq![digit_char(n)]
    } else {
        decimal_text(n / 10).push(digit_char(n % 10))
    }
}

/// The numeral that writes the integer `v`, with `-` in front of a negative one.
pub open spec fn signed_decimal_text(v: int) -> Seq<char> {
    if v < 0 {
        seq!['-'] + decimal_text((-v) as nat)
    } else {
        decimal_text(v as nat)
    }
}

/// The two digits that write `n`, for `n` below one hundred.
pub open spec fn two_digit_text(n: nat) -> Seq<char> {
    seq![digit_char(n / 10), digit_char(n % 10)]
}

/// A longer numeral is worth at least as much as any of its prefixes.
pub proof fn lemma_prefix_value_grows(s: Seq<char>, k: int)
    requires
        0 <= k <= s.len(),
    ensures
        decimal_value(s.take(k)) <= decimal_value(s),
    decreases s.len() - k,
{
    if k == s.len() {
        assert(s.take(k) =~= s);
    } else {
        lemma_prefix_value_grows(s.drop_last(), k);
        assert(s.drop_last().take(k) =~= s.take(k));
    }
}

/// Reads the digits of `text` from position `from` to its end. Gives the
/// value when those characters form a numeral that fits 64 bits.
pub fn read_numeral(text: &Vec<char>, from: usize) -> (r: Option<u64>)
    requires
        from <= text.len(),
    ensures
        r is Some <==> is_numeral(text@.skip(from as int)) && decimal_value(
            text@.skip(from as int),
        ) <= u64::MAX,
        r matches Some(v) ==> v == decimal_value(text@.skip(from as int)),
{
    let ghost body = text@.skip(from as int);
    if from == text.len() {
        return None;
    }
    let mut acc: u64 = 0;
    let mut i: usize = from;
    while i < text.len()
        invariant
            from <= i <= text.len(),
            body == text@.skip(from as int),
            all_digits(body.take(i - from)),
            acc == decimal_value(body.take(i - from)),
        decreases text.len() - i,
    {
        let c = text[i];
        assert(body[i - from] == c);
        if c < '0' || c > '9' {
            return None;
        }
        let d: u64 = (c as u32 - '0' as u32) as u64;
        let ghost next = body.take(i - from + 1);
        assert(next.drop_last() =~= body.take(i - from));
        assert(next.last() == c);
        assert(all_digits(next)) by {
            assert forall|j: int| 0 <= j < next.len() implies is_digit(#[trigger] next[j]) by {
                if j < i - from {
                    assert(body.take(i - from)[j] == next[j]);
                }
            }
        }
        proof {
            lemma_prefix_value_grows(body, i - from + 1);
        }
        let scaled = match acc.checked_mul(10) {
            Some(v) => v,
            None => {
                return None;
            },
        };
        acc = match scaled.checked_add(d) {
            Some(v) => v,
            None => {
                return None;
            },
        };
        i += 1;
    }
    assert(body.take(i - from) =~= body);
    Some(acc)
}

/// Reads `text` as an unsigned 64-bit integer.
pub fn parse_u64(text: &Vec<char>) -> (r: Option<u64>)
    ensures
        r == parsed_u64(text@),
{
    if text.len() > 0 && text[0] == '+' {
        read_numeral(text, 1)
    } else {
        assert(text@.skip(0) =~= text@);
        read_numeral(text, 0)
    }
}

/// Reads `text` as a signed 64-bit integer.
pub fn parse_i64(text: &Vec<char>) -> (r: Option<i64>)
    ensures
        r == parsed_i64(text@),
{
    let negative = text.len() > 0 && text[0] == '-';
    let signed = text.len() > 0 && (text[0] == '+' || text[0] == '-');
    let from: usize = if signed {
        1
    } else {
        0
    };
    assert(text@.skip(0) =~= text@);
    match read_numeral(text, from) {
        None => None,
        Some(magnitude) => {
            if negative {
                if magnitude <= 9223372036854775808u64 {
                    Some((-(magnitude as i128)) as i64)
                } else {
                    None
                }
            } else if magnitude <= 9223372036854775807u64 {
                Some(magnitude as i64)
            } else {
                None
            }
        },
    }
}

/// The digit that writes `d`.
pub fn digit_of(d: u8) -> (c: char)
    requires
        d < 10,
    ensures
        c == digit_char(d as nat),
        is_digit(c),
        digit_value(c) == d,
{
    (d + 48u8) as char
}

/// Writes `n` as the shortest numeral.
pub fn decimal_chars(n: u128) -> (r: Vec<char>)
    ensures
        r@ == decimal_text(n as nat),
    decreases n,
{
    if n < 10 {
        let mut out: Vec<char> = Vec::new();
        out.push(digit_of(n as u8));
        assert(out@ =~= seq![digit_char(n as nat)]);
        out
    } else {
        let mut out = decimal_chars(n / 10);
        out.push(digit_of((n % 10) as u8));
        out
    }
}

/// Writes `n` as two digits, with a zero in front of a single one.
pub fn two_digit_chars(n: u8) -> (r: Vec<char>)
    requires
        n < 100,
    ensures
        r@ == two_digit_text(n as nat),
{
    let mut out: Vec<char> = Vec::new();
    out.push(digit_of(n / 10));
    out.push(digit_of(n % 10));
    assert(out@ =~= two_digit_text(n as nat));
    out
}

/// Writes `v` as a numeral, with `-` in front of a negative one.
pub fn signed_decimal_chars(v: i64) -> (r: Vec<char>)
    ensures
        r@ == signed_decimal_text(v as int),
{
    if v < 0 {
        let magnitude: u128 = (-(v as i128)) as u128;
        let mut out: Vec<char> = Vec::new();
        out.push('-');
        let mut digits = decimal_chars(magnitude);
        out.append(&mut digits);
        assert(out@ =~= seq!['-'] + decimal_text((-v) as nat));
        out
    } else {
        decimal_chars(v as u128)
    }
}

/// The numeral written for `n` holds digits only, at least one, and is
/// worth `n`.
pub proof fn lemma_decimal_text_reads_back(n: nat)
    ensures
        is_numeral(decimal_text(n)),
        decimal_value(decimal_text(n)) == n,
    decreases n,
{
    if n < 10 {
        let text = decimal_text(n);
        assert(text.drop_last() =~= Seq::<char>::empty());
        assert(decimal_value(text.drop_last()) == 0);
    } else {
        lemma_decimal_text_reads_back(n / 10);
        let head = decimal_text(n / 10);
        let text = decimal_text(n);
        assert(text.drop_last() =~= head);
        assert(text.last() == digit_char(n % 10));
        assert forall|i: int| 0 <= i < text.len() implies is_digit(#[trigger] text[i]) by {
            if i < head.len() {
                assert(text[i] == head[i]);
            }
        }
    }
}

/// Whatever is written for an unsigned 64-bit integer reads back as that integer.
pub proof fn lemma_u64_round_trip(n: u64)
    ensures
        parsed_u64(decimal_text(n as nat)) == Some(n),
{
    lemma_decimal_text_reads_back(n as nat);
}

/// Whatever is written for a signed 64-bit integer reads back as that integer.
pub proof fn lemma_i64_round_trip(v: i64)
    ensures
        parsed_i64(signed_decimal_text(v as int)) == Some(v),
{
    if v < 0 {
        let digits = decimal_text((-v) as nat);
        lemma_decimal_text_reads_back((-v) as nat);
        let text = signed_decimal_text(v as int);
        assert(text[0] == '-');
        assert(text.skip(1) =~= digits);
    } else {
        lemma_decimal_text_reads_back(v as nat);
    }
}

} // verus!
