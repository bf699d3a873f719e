//! Reading numbers and truth values from directive text, and writing numbers
//! as decimal text.

use vstd::prelude::*;
use vstd::string::*;
use vstd::utf8::*;

verus! {

/// Whether `c` is one of the ten decimal digits.
pub open spec fn is_digit(c: char) -> bool {
    '0' <= c && c <= '9'
}

/// The number that the digit `c` denotes.
pub open spec fn digit_value(c: char) -> nat {
    (c as nat - 48) as nat
}

/// Whether `s` holds decimal digits only.
pub open spec fn all_digits(s: Seq<char>) -> bool {
    forall|i: int| 0 <= i < s.len() ==> is_digit(#[trigger] s[i])
}

/// The number that a sequence of decimal digits denotes, most significant
/// digit first.
pub open spec fn digits_value(s: Seq<char>) -> nat
    decreases s.len(),
{
    if s.len() == 0 {
        0
    } else {
        digits_value(s.drop_last()) * 10 + digit_value(s.last())
    }
}

/// The number that `body` denotes, where it is a non-empty run of decimal
/// digits that denotes at most `limit`.
pub open spec fn magnitude_of(body: Seq<char>, limit: nat) -> Option<nat> {
    if body.len() > 0 && all_digits(body) && digits_value(body) <= limit {
        Some(digits_value(body))
    } else {
        None
    }
}

/// What an unsigned 32-bit decimal text denotes: an optional `+`, then one or
/// more digits, with a value that fits.
pub open spec fn u32_of_text(s: Seq<char>) -> Option<u32> {
    let body = if s.len() > 0 && s[0] == '+' {
        s.drop_first()
    } else {
        s
    };
    match magnitude_of(body, 0xffff_ffff) {
        Some(m) => Some(m as u32),
        None => None,
    }
}

/// What a signed 32-bit decimal text denotes: an optional `+` or `-`, then one
/// or more digits, with a value that fits.
pub open spec fn i32_of_text(s: Seq<char>) -> Option<i32> {
    if s.len() > 0 && s[0] == '-' {
        match magnitude_of(s.drop_first(), 0x8000_0000) {
            Some(m) => Some((-m) as i32),
            None => None,
        }
    } else {
        let body = if s.len() > 0 && s[0] == '+' {
            s.drop_first()
        } else {
            s
        };
        match magnitude_of(body, 0x7fff_ffff) {
            Some(m) => Some(m as i32),
            None => None,
        }
    }
}

/// What a truth-value text denotes: exactly `true` or exactly `false`.
pub open spec fn bool_of_text(s: Seq<char>) -> Option<bool> {
    if s == "true"@ {
        Some(true)
    } else if s == "false"@ {
        Some(false)
    } else {
        None
    }
}

proof fn lemma_digits_value_prefix(s: Seq<char>, k: int)
    requires
        0 <= k <= s.len(),
    ensures
        digits_value(s.take(k)) <= digits_value(s),
    decreases s.len() - k,
{
    if k == s.len() {
        assert(s.take(k) =~= s);
    } else {
        lemma_digits_value_prefix(s, k + 1);
        assert(s.take(k + 1).drop_last() =~= s.take(k));
    }
}

proof fn lemma_non_ascii_has_no_digits(s: Seq<char>, from: int)
    requires
        !is_ascii_chars(s),
        0 <= from <= 1,
        from <= s.len(),
        from == 1 ==> s[0] == '+' || s[0] == '-',
    ensures
        !all_digits(s.skip(from)),
{
    let i = choose|i: int| 0 <= i < s.len() && !('\0' <= #[trigger] s[i] && s[i] <= '\u{7f}');
    assert(i >= from);
    assert(s.skip(from)[i - from] == s[i]);
    assert(!is_digit(s.skip(from)[i - from]));
}

/// Reads the digits of `text` from index `from` to its end.
fn read_magnitude(text: &str, from: usize, limit: u64) -> (m: Option<u64>)
    requires
        is_ascii(text),
        from <= text@.len(),
        limit <= 0x1_0000_0000,
    ensures
        m is Some == magnitude_of(text@.skip(from as int), limit as nat) is Some,
        m is Some ==> m->0 as nat == magnitude_of(text@.skip(from as int), limit as nat)->0,
{
    proof {
        is_ascii_spec_bytes(text);
    }
    let n = text.unicode_len();
    let ghost body = text@.skip(from as int);
    if from == n {
        return None;
    }
    let mut acc: u64 = 0;
    let mut i: usize = from;
    while i < n
        invariant
            is_ascii(text),
            n == text@.len(),
            body == text@.skip(from as int),
            from <= i <= n,
            limit <= 0x1_0000_0000,
            all_digits(body.take(i - from)),
            acc as nat == digits_value(body.take(i - from)),
            acc <= limit,
        decreases n - i,
    {
        let b = text.get_ascii(i);
        assert(body[i - from] == text@[i as int]);
        if b < 48 || b > 57 {
            assert(!is_digit(body[i - from]));
            return None;
        }
        let next: u64 = acc * 10 + (b - 48) as u64;
        proof {
            assert(body.take(i + 1 - from).drop_last() =~= body.take(i - from));
            assert(body.take(i + 1 - from).last() == body[i - from]);
            assert(next as nat == digits_value(body.take(i + 1 - from)));
            assert forall|j: int| 0 <= j < i + 1 - from implies is_digit(
                #[trigger] body.take(i + 1 - from)[j],
            ) by {
                if j < i - from {
                    assert(body.take(i - from)[j] == body[j]);
                }
            }
        }
        if next > limit {
            proof {
                lemma_digits_value_prefix(body, i + 1 - from);
            }
            return None;
        }
        acc = next;
        i = i + 1;
    }
    assert(body.take(i - from) =~= body);
    Some(acc)
}

/// Reads an unsigned 32-bit decimal number.
pub fn parse_u32(text: &str) -> (value: Option<u32>)
    ensures
        value == u32_of_text(text@),
{
    if !text.is_ascii() {
        proof {
            if text@.len() > 0 && text@[0] == '+' {
                lemma_non_ascii_has_no_digits(text@, 1);
            } else {
                lemma_non_ascii_has_no_digits(text@, 0);
            }
        }
        return None;
    }
    proof {
        assert(text@.skip(0) =~= text@);
        assert(text@.skip(1) =~= text@.drop_first());
    }
    let from: usize = if text.unicode_len() > 0 && text.get_ascii(0) == 43 {
        1
    } else {
        0
    };
    match read_magnitude(text, from, 0xffff_ffff) {
        Some(m) => Some(m as u32),
        None => None,
    }
}

/// Reads a signed 32-bit decimal number.
pub fn parse_i32(text: &str) -> (value: Option<i32>)
    ensures
        value == i32_of_text(text@),
{
    if !text.is_ascii() {
        proof {
            if text@.len() > 0 && (text@[0] == '+' || text@[0] == '-') {
                lemma_non_ascii_has_no_digits(text@, 1);
            } else {
                lemma_non_ascii_has_no_digits(text@, 0);
            }
        }
        return None;
    }
    proof {
        assert(text@.skip(0) =~= text@);
        assert(text@.skip(1) =~= text@.drop_first());
    }
    if text.unicode_len() > 0 && text.get_ascii(0) == 45 {
        match read_magnitude(text, 1, 0x8000_0000) {
            Some(m) => {
                if m == 0x8000_0000 {
                    Some(i32::MIN)
                } else {
                    Some(0 - (m as i32))
                }
            },
            None => None,
        }
    } else {
        let from: usize = if text.unicode_len() > 0 && text.get_ascii(0) == 43 {
            1
        } else {
            0
        };
        match read_magnitude(text, from, 0x7fff_ffff) {
            Some(m) => Some(m as i32),
            None => None,
        }
    }
}

/// Whether two texts hold the same characters.
pub fn text_equals(text: &str, other: &str) -> (same: bool)
    ensures
        same == (text@ == other@),
{
    let n = text.unicode_len();
    if n != other.unicode_len() {
        return false;
    }
    let ascii = text.is_ascii();
    if ascii != other.is_ascii() {
        return false;
    }
    let mut i: usize = 0;
    while i < n
        invariant
            ascii == is_ascii(text),
            ascii == is_ascii(other),
            n == text@.len(),
            n == other@.len(),
            0 <= i <= n,
            text@.take(i as int) == other@.take(i as int),
        decreases n - i,
    {
        let same = if ascii {
            text.get_ascii(i) == other.get_ascii(i)
        } else {
            text.get_char(i) == other.get_char(i)
        };
        if !same {
            return false;
        }
        assert(text@[i as int] == other@[i as int]);
        assert(text@.take(i + 1) =~= text@.take(i as int).push(text@[i as int]));
        assert(other@.take(i + 1) =~= other@.take(i as int).push(other@[i as int]));
        i = i + 1;
    }
    assert(text@.take(n as int) =~= text@);
    assert(other@.take(n as int) =~= other@);
    true
}

/// Reads a truth value.
pub fn parse_bool(text: &str) -> (value: Option<bool>)
    ensures
        value == bool_of_text(text@),
{
    if text_equals(text, "true") {
        Some(true)
    } else if text_equals(text, "false") {
        Some(false)
    } else {
        None
    }
}


/// The character that writes a single decimal digit.
pub open spec fn digit_char(d: nat) -> char {
    if d == 0 {
        '0'
    } else if d == 1 {
        '1'
    } else if d == 2 {
        '2'
    } else if d == 3 {
        '3'
    } else if d == 4 {
        '4'
    } else if d == 5 {
        '5'
    } else if d == 6 {
        '6'
    } else if d == 7 {
        '7'
    } else if d == 8 {
        '8'
    } else {
        '9'
    }
}

/// A natural number in decimal, without leading zeros.
pub open spec fn decimal_text(n: nat) -> Seq<char>
    decreases n,
{
    if n < 10 {
        seq![digit_char(n)]
    } else {
        decimal_text(n / 10) + seq![digit_char(n % 10)]
    }
}

/// An integer in decimal, with a leading `-` where it is negative.
pub open spec fn signed_text(v: int) -> Seq<char> {
    if v < 0 {
        seq!['-'] + decimal_text((-v) as nat)
    } else {
        decimal_text(v as nat)
    }
}

/// A natural number in decimal, padded with a zero to two places.
pub open spec fn padded_text(n: nat) -> Seq<char> {
    if n < 10 {
        seq!['0'] + decimal_text(n)
    } else {
        decimal_text(n)
    }
}

fn digit_str(d: u32) -> (s: &'static str)
    requires
        d < 10,
    ensures
        s@ == seq![digit_char(d as nat)],
{
    proof {
        reveal_strlit("0");
        reveal_strlit("1");
        reveal_strlit("2");
        reveal_strlit("3");
        reveal_strlit("4");
        reveal_strlit("5");
        reveal_strlit("6");
        reveal_strlit("7");
        reveal_strlit("8");
        reveal_strlit("9");
    }
    let s = if d == 0 {
        "0"
    } else if d == 1 {
        "1"
    } else if d == 2 {
        "2"
    } else if d == 3 {
        "3"
    } else if d == 4 {
        "4"
    } else if d == 5 {
        "5"
    } else if d == 6 {
        "6"
    } else if d == 7 {
        "7"
    } else if d == 8 {
        "8"
    } else {
        "9"
    };
    assert(s@ =~= seq![digit_char(d as nat)]);
    s
}

/// Writes an unsigned number in decimal.
pub fn decimal(n: u32) -> (digits: String)
    ensures
        digits@ == decimal_text(n as nat),
{
    let mut rest: u32 = n / 10;
    let mut digits = String::from_str(digit_str(n % 10));
    while rest > 0
        invariant
            decimal_text(n as nat) == if rest > 0 {
                decimal_text(rest as nat) + digits@
            } else {
                digits@
            },
        decreases rest,
    {
        let ghost before = digits@;
        digits = String::from_str(digit_str(rest % 10)).concat(digits.as_str());
        proof {
            let head = seq![digit_char((rest % 10) as nat)];
            assert(digits@ == head + before);
            if rest >= 10 {
                assert(decimal_text((rest / 10) as nat) + (head + before) =~= (decimal_text(
                    (rest / 10) as nat,
                ) + head) + before);
            }
        }
        rest = rest / 10;
    }
    digits
}

/// Writes a signed number in decimal.
pub fn signed_decimal(v: i32) -> (digits: String)
    ensures
        digits@ == signed_text(v as int),
{
    if v < 0 {
        proof {
            reveal_strlit("-");
        }
        let magnitude: u32 = (0 - (v as i64)) as u32;
        let digits = String::from_str("-").concat(decimal(magnitude).as_str());
        assert("-"@ =~= seq!['-']);
        digits
    } else {
        decimal(v as u32)
    }
}

/// Writes an unsigned number in decimal, padded with a zero to two places.
pub fn padded_decimal(n: u32) -> (digits: String)
    ensures
        digits@ == padded_text(n as nat),
{
    if n < 10 {
        proof {
            reveal_strlit("0");
        }
        let digits = String::from_str("0").concat(decimal(n).as_str());
        assert("0"@ =~= seq!['0']);
        digits
    } else {
        decimal(n)
    }
}


proof fn lemma_decimal_text_value(n: nat)
    ensures
        decimal_text(n).len() > 0,
        all_digits(decimal_text(n)),
        digits_value(decimal_text(n)) == n,
    decreases n,
{
    reveal_with_fuel(digits_value, 2);
    let text = decimal_text(n);
    if n < 10 {
        assert(text.drop_last() =~= Seq::<char>::empty());
        assert(text.last() == digit_char(n));
    } else {
        lemma_decimal_text_value(n / 10);
        let head = decimal_text(n / 10);
        assert(text.drop_last() =~= head);
        assert(text.last() == digit_char(n % 10));
        assert forall|i: int| 0 <= i < text.len() implies is_digit(#[trigger] text[i]) by {
            if i < head.len() {
                assert(text[i] == head[i]);
            }
        }
    }
}

/// What `decimal` writes of a number, `parse_u32` reads as that number.
pub proof fn decimal_reads_back(n: u32)
    ensures
        u32_of_text(decimal_text(n as nat)) == Some(n),
{
    lemma_decimal_text_value(n as nat);
    assert(is_digit(decimal_text(n as nat)[0]));
}

/// What `signed_decimal` writes of a number, `parse_i32` reads as that
/// number.
pub proof fn signed_decimal_reads_back(v: i32)
    ensures
        i32_of_text(signed_text(v as int)) == Some(v),
{
    if v < 0 {
        let magnitude = (-(v as int)) as nat;
        lemma_decimal_text_value(magnitude);
        assert(signed_text(v as int).drop_first() =~= decimal_text(magnitude));
        assert(signed_text(v as int)[0] == '-');
    } else {
        lemma_decimal_text_value(v as nat);
        assert(is_digit(decimal_text(v as nat)[0]));
    }
}

} // verus!
