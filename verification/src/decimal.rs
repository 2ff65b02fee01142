use vstd::prelude::*;
use vstd::string::*;
use vstd::utf8::*;

verus! {

/// Whether `c` is one of the ten decimal digits.
pub open spec fn is_digit(c: char) -> bool {
    '0' <= c && c <= '9'
}

/// The number that the digit `c` stands for.
pub open spec fn digit_value(c: char) -> nat {
    (c as int - '0' as int) as nat
}

/// Whether every character of `s` is a decimal digit.
pub open spec fn all_digits(s: Seq<char>) -> bool {
    forall|i: int| 0 <= i < s.len() ==> is_digit(#[trigger] s[i])
}

/// The number that a run of digits denotes in base ten; leading zeros count
/// for nothing.
pub open spec fn digits_value(s: Seq<char>) -> nat
    decreases s.len(),
{
    if s.len() == 0 {
        0
    } else {
        digits_value(s.drop_last()) * 10 + digit_value(s.last())
    }
}

/// Whether `s` opens with a sign that a numeral of this signedness may carry:
/// `+` always, `-` only where negative numbers exist.
pub open spec fn has_sign(s: Seq<char>, signed: bool) -> bool {
    s.len() > 0 && (s[0] == '+' || (signed && s[0] == '-'))
}

/// The digits of a numeral, without its sign.
pub open spec fn numeral_body(s: Seq<char>, signed: bool) -> Seq<char> {
    if has_sign(s, signed) {
        s.skip(1)
    } else {
        s
    }
}

/// The integer that the numeral `s` denotes: an optional sign, then one or
/// more digits and nothing else. Anything of another shape denotes nothing.
pub open spec fn decimal_value(s: Seq<char>, signed: bool) -> Option<int> {
    let body = numeral_body(s, signed);
    if body.len() == 0 || !all_digits(body) {
        None
    } else if signed && s[0] == '-' {
        Some(-(digits_value(body) as int))
    } else {
        Some(digits_value(body) as int)
    }
}

/// The `i32` that `s` denotes, if it is a numeral whose value fits.
pub open spec fn decimal_i32(s: Seq<char>) -> Option<i32> {
    match decimal_value(s, true) {
        Some(v) => if i32::MIN <= v <= i32::MAX {
            Some(v as i32)
        } else {
            None
        },
        None => None,
    }
}

/// The `u128` that `s` denotes, if it is an unsigned numeral whose value fits.
pub open spec fn decimal_u128(s: Seq<char>) -> Option<u128> {
    match decimal_value(s, false) {
        Some(v) => if v <= u128::MAX {
            Some(v as u128)
        } else {
            None
        },
        None => None,
    }
}

/// What reading a run of digits can come to.
enum Magnitude {
    /// The run is empty or holds something that is no digit.
    Malformed,
    /// The run is a number above `u128::MAX`.
    TooLarge,
    /// The run is this number.
    Value(u128),
}

/// Appending one digit to a run multiplies its value by ten and adds the digit.
proof fn lemma_digits_step(s: Seq<char>, from: int, to: int)
    requires
        0 <= from <= to < s.len(),
    ensures
        digits_value(s.subrange(from, to + 1)) == digits_value(s.subrange(from, to)) * 10
            + digit_value(s[to]),
{
    let longer = s.subrange(from, to + 1);
    assert(longer.drop_last() =~= s.subrange(from, to));
    assert(longer.last() == s[to]);
}

/// A sequence with a character beyond ASCII is no numeral.
proof fn lemma_non_ascii_is_no_numeral(s: Seq<char>, signed: bool)
    requires
        !is_ascii_chars(s),
    ensures
        decimal_value(s, signed) is None,
{
    let j = choose|j: int| 0 <= j < s.len() && !('\0' <= #[trigger] s[j] <= '\u{7f}');
    let body = numeral_body(s, signed);
    if has_sign(s, signed) {
        assert(j > 0);
        assert(body[j - 1] == s[j]);
        assert(!is_digit(body[j - 1]));
    } else {
        assert(!is_digit(body[j]));
    }
}

/// Reads the digits of `text` from position `start` to its end.
fn read_magnitude(text: &str, start: usize) -> (m: Magnitude)
    requires
        is_ascii_chars(text@),
        start <= text@.len(),
    ensures
        m is Malformed <==> (text@.skip(start as int).len() == 0 || !all_digits(
            text@.skip(start as int),
        )),
        m is TooLarge ==> digits_value(text@.skip(start as int)) > u128::MAX,
        m matches Magnitude::Value(v) ==> v == digits_value(text@.skip(start as int)),
{
    broadcast use is_ascii_spec_bytes;

    let bytes = text.as_bytes();
    assert(is_ascii(text));
    assert(bytes@ =~= Seq::new(text@.len(), |k: int| text@.index(k) as u8));
    let n: usize = bytes.len();
    if start >= n {
        return Magnitude::Malformed;
    }
    let mut acc: u128 = 0;
    let mut over: bool = false;
    let mut i: usize = start;
    while i < n
        invariant
            start <= i <= n,
            n == text@.len(),
            is_ascii_chars(text@),
            bytes@ == text.spec_bytes(),
            bytes@ =~= Seq::new(text@.len(), |k: int| text@.index(k) as u8),
            all_digits(text@.subrange(start as int, i as int)),
            !over ==> acc == digits_value(text@.subrange(start as int, i as int)),
            over ==> digits_value(text@.subrange(start as int, i as int)) > u128::MAX,
        decreases n - i,
    {
        let b: u8 = bytes[i];
        assert(b == text@[i as int] as u8);
        assert('\0' <= text@[i as int] <= '\u{7f}');
        if b < 48 || b > 57 {
            proof {
                let body = text@.skip(start as int);
                assert(body[i - start] == text@[i as int]);
                assert(!is_digit(body[i - start]));
            }
            return Magnitude::Malformed;
        }
        let d: u128 = (b - 48) as u128;
        proof {
            lemma_digits_step(text@, start as int, i as int);
            assert(is_digit(text@[i as int]));
            assert(d == digit_value(text@[i as int]));
            assert forall|k: int| 0 <= k < i + 1 - start implies is_digit(
                #[trigger] text@.subrange(start as int, i + 1)[k],
            ) by {
                if k < i - start {
                    assert(text@.subrange(start as int, i as int)[k] == text@.subrange(
                        start as int,
                        i + 1,
                    )[k]);
                }
            }
        }
        if !over {
            match acc.checked_mul(10) {
                Some(tens) => match tens.checked_add(d) {
                    Some(next) => {
                        acc = next;
                    },
                    None => {
                        over = true;
                    },
                },
                None => {
                    over = true;
                },
            }
        }
        i = i + 1;
    }
    assert(text@.subrange(start as int, n as int) =~= text@.skip(start as int));
    if over {
        Magnitude::TooLarge
    } else {
        Magnitude::Value(acc)
    }
}

/// Reads `text` as an `i32` in base ten: an optional `+` or `-`, then digits.
/// Spaces, an empty text, a bare sign, or a value out of range give `None`.
pub fn parse_i32(text: &str) -> (r: Option<i32>)
    ensures
        r == decimal_i32(text@),
{
    broadcast use is_ascii_spec_bytes;

    if !text.is_ascii() {
        proof {
            lemma_non_ascii_is_no_numeral(text@, true);
        }
        return None;
    }
    let bytes = text.as_bytes();
    assert(bytes@ =~= Seq::new(text@.len(), |k: int| text@.index(k) as u8));
    let n: usize = bytes.len();
    let mut negative: bool = false;
    let mut start: usize = 0;
    if n > 0 {
        let first: u8 = bytes[0];
        assert(first == text@[0] as u8);
        assert('\0' <= text@[0] <= '\u{7f}');
        if first == 43 {
            start = 1;
        } else if first == 45 {
            start = 1;
            negative = true;
        }
    }
    assert(start == 1 <==> has_sign(text@, true));
    assert(text@.skip(0) =~= text@);
    match read_magnitude(text, start) {
        Magnitude::Value(v) => {
            if negative {
                if v <= 2147483648 {
                    Some((0 - (v as i64)) as i32)
                } else {
                    None
                }
            } else {
                if v <= 2147483647 {
                    Some(v as i32)
                } else {
                    None
                }
            }
        },
        Magnitude::TooLarge => None,
        Magnitude::Malformed => None,
    }
}

/// Reads `text` as a `u128` in base ten: an optional `+`, then digits.
/// Spaces, an empty text, a `-`, a bare sign, or a value out of range give
/// `None`.
pub fn parse_u128(text: &str) -> (r: Option<u128>)
    ensures
        r == decimal_u128(text@),
{
    broadcast use is_ascii_spec_bytes;

    if !text.is_ascii() {
        proof {
            lemma_non_ascii_is_no_numeral(text@, false);
        }
        return None;
    }
    let bytes = text.as_bytes();
    assert(bytes@ =~= Seq::new(text@.len(), |k: int| text@.index(k) as u8));
    let n: usize = bytes.len();
    let mut start: usize = 0;
    if n > 0 {
        let first: u8 = bytes[0];
        assert(first == text@[0] as u8);
        assert('\0' <= text@[0] <= '\u{7f}');
        if first == 43 {
            start = 1;
        }
    }
    assert(start == 1 <==> has_sign(text@, false));
    assert(text@.skip(0) =~= text@);
    match read_magnitude(text, start) {
        Magnitude::Value(v) => Some(v),
        Magnitude::TooLarge => None,
        Magnitude::Malformed => None,
    }
}

} // verus!
