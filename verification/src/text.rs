//! Byte-level text helpers: decimal integer fields read the way `str::parse`
//! reads them, numbers written in decimal, and string comparisons stated over
//! UTF-8 bytes or characters.
use vstd::prelude::*;
use vstd::string::StringSliceAdditionalSpecFns;

verus! {

/// An ASCII decimal digit.
pub open spec fn is_digit(b: u8) -> bool {
    48 <= b <= 57
}

pub open spec fn all_digits(s: Seq<u8>) -> bool {
    forall|i: int| 0 <= i < s.len() ==> is_digit(#[trigger] s[i])
}

/// The number written by a run of ASCII digits.
pub open spec fn digits_value(s: Seq<u8>) -> nat
    decreases s.len(),
{
    if s.len() == 0 {
        0
    } else {
        digits_value(s.drop_last()) * 10 + (s.last() - 48) as nat
    }
}

/// What an unsigned integer type's `from_str` reads from `s`: an optional `+`
/// followed by one or more ASCII digits, and nothing else (before any range check).
pub open spec fn unsigned_decimal(s: Seq<u8>) -> Option<nat> {
    let body = if s.len() > 0 && s[0] == 43 {
        s.drop_first()
    } else {
        s
    };
    if body.len() > 0 && all_digits(body) {
        Some(digits_value(body))
    } else {
        None
    }
}

/// What a signed integer type's `from_str` reads from `s`: an optional `+` or `-`
/// followed by one or more ASCII digits, and nothing else (before any range check).
pub open spec fn signed_decimal(s: Seq<u8>) -> Option<int> {
    if s.len() > 0 && s[0] == 45 {
        let body = s.drop_first();
        if body.len() > 0 && all_digits(body) {
            Some(-(digits_value(body) as int))
        } else {
            None
        }
    } else {
        match unsigned_decimal(s) {
            Some(v) => Some(v as int),
            None => None,
        }
    }
}

/// `u64::from_str` on `s`, as an `Option`.
pub open spec fn spec_parse_u64(s: Seq<u8>) -> Option<u64> {
    match unsigned_decimal(s) {
        Some(v) => if v <= u64::MAX {
            Some(v as u64)
        } else {
            None
        },
        None => None,
    }
}

/// `u32::from_str` on `s`, as an `Option`.
pub open spec fn spec_parse_u32(s: Seq<u8>) -> Option<u32> {
    match unsigned_decimal(s) {
        Some(v) => if v <= u32::MAX {
            Some(v as u32)
        } else {
            None
        },
        None => None,
    }
}

/// `i32::from_str` on `s`, as an `Option`.
pub open spec fn spec_parse_i32(s: Seq<u8>) -> Option<i32> {
    match signed_decimal(s) {
        Some(v) => if i32::MIN <= v <= i32::MAX {
            Some(v as i32)
        } else {
            None
        },
        None => None,
    }
}

/// `i64::from_str` on `s`, as an `Option`.
pub open spec fn spec_parse_i64(s: Seq<u8>) -> Option<i64> {
    match signed_decimal(s) {
        Some(v) => if i64::MIN <= v <= i64::MAX {
            Some(v as i64)
        } else {
            None
        },
        None => None,
    }
}

/// Reads the non-empty run of digits `bytes[start..end]`; `None` if the run is empty,
/// holds a non-digit, or does not fit in a `u64`.
fn parse_digits(bytes: &[u8], start: usize, end: usize) -> (r: Option<u64>)
    requires
        start <= end <= bytes@.len(),
    ensures
        ({
            let s = bytes@.subrange(start as int, end as int);
            r == if s.len() > 0 && all_digits(s) && digits_value(s) <= u64::MAX {
                Some(digits_value(s) as u64)
            } else {
                None::<u64>
            }
        }),
{
    if start == end {
        return None;
    }
    let ghost s = bytes@.subrange(start as int, end as int);
    let mut i = start;
    let mut value: u64 = 0;
    let mut overflow = false;
    while i < end
        invariant
            start <= i <= end <= bytes@.len(),
            s == bytes@.subrange(start as int, end as int),
            all_digits(bytes@.subrange(start as int, i as int)),
            !overflow ==> value as nat == digits_value(bytes@.subrange(start as int, i as int)),
            overflow ==> digits_value(bytes@.subrange(start as int, i as int)) > u64::MAX,
        decreases end - i,
    {
        let b = bytes[i];
        let ghost pre = bytes@.subrange(start as int, i as int);
        let ghost next = bytes@.subrange(start as int, i + 1);
        assert(next.drop_last() =~= pre);
        if !(48 <= b && b <= 57) {
            assert(s[i - start] == b);
            return None;
        }
        assert(next.last() == b);
        assert(digits_value(next) == digits_value(pre) * 10 + (b - 48) as nat);
        if !overflow {
            match value.checked_mul(10) {
                Some(t) => match t.checked_add((b - 48) as u64) {
                    Some(v) => {
                        value = v;
                    },
                    None => {
                        overflow = true;
                    },
                },
                None => {
                    overflow = true;
                },
            }
        }
        i = i + 1;
        assert(all_digits(bytes@.subrange(start as int, i as int)));
    }
    assert(bytes@.subrange(start as int, i as int) =~= s);
    if overflow {
        None
    } else {
        Some(value)
    }
}

/// Reads `bytes[start..end]` as `u64::from_str` does.
pub fn parse_u64_field(bytes: &[u8], start: usize, end: usize) -> (r: Option<u64>)
    requires
        start <= end <= bytes@.len(),
    ensures
        r == spec_parse_u64(bytes@.subrange(start as int, end as int)),
{
    let ghost s = bytes@.subrange(start as int, end as int);
    if start < end && bytes[start] == 43 {
        let r = parse_digits(bytes, start + 1, end);
        assert(s.drop_first() =~= bytes@.subrange(start + 1, end as int));
        r
    } else {
        parse_digits(bytes, start, end)
    }
}

/// Reads `bytes[start..end]` as `u32::from_str` does.
pub fn parse_u32_field(bytes: &[u8], start: usize, end: usize) -> (r: Option<u32>)
    requires
        start <= end <= bytes@.len(),
    ensures
        r == spec_parse_u32(bytes@.subrange(start as int, end as int)),
{
    match parse_u64_field(bytes, start, end) {
        Some(v) => if v <= u32::MAX as u64 {
            Some(v as u32)
        } else {
            None
        },
        None => None,
    }
}

/// Reads `bytes[start..end]` as `i64::from_str` does.
pub fn parse_i64_field(bytes: &[u8], start: usize, end: usize) -> (r: Option<i64>)
    requires
        start <= end <= bytes@.len(),
    ensures
        r == spec_parse_i64(bytes@.subrange(start as int, end as int)),
{
    let ghost s = bytes@.subrange(start as int, end as int);
    if start < end && bytes[start] == 45 {
        assert(s.drop_first() =~= bytes@.subrange(start + 1, end as int));
        match parse_digits(bytes, start + 1, end) {
            Some(m) => {
                if m <= 9223372036854775807u64 {
                    Some(-(m as i64))
                } else if m == 9223372036854775808u64 {
                    Some(i64::MIN)
                } else {
                    None
                }
            },
            None => None,
        }
    } else {
        match parse_u64_field(bytes, start, end) {
            Some(v) => if v <= i64::MAX as u64 {
                Some(v as i64)
            } else {
                None
            },
            None => None,
        }
    }
}

/// `text.parse::<i64>()`, as an `Option`.
pub fn parse_i64(text: &str) -> (r: Option<i64>)
    ensures
        r == spec_parse_i64(text.spec_bytes()),
{
    let bytes = text.as_bytes();
    let r = parse_i64_field(bytes, 0, bytes.len());
    assert(bytes@.subrange(0, bytes@.len() as int) =~= bytes@);
    r
}

/// `text.parse::<u32>()`, as an `Option`.
pub fn parse_u32(text: &str) -> (r: Option<u32>)
    ensures
        r == spec_parse_u32(text.spec_bytes()),
{
    let bytes = text.as_bytes();
    let r = parse_u32_field(bytes, 0, bytes.len());
    assert(bytes@.subrange(0, bytes@.len() as int) =~= bytes@);
    r
}

/// Whether two byte slices hold the same bytes.
fn bytes_equal(a: &[u8], b: &[u8]) -> (r: bool)
    ensures
        r == (a@ == b@),
{
    if a.len() != b.len() {
        return false;
    }
    let mut i: usize = 0;
    while i < a.len()
        invariant
            a@.len() == b@.len(),
            i <= a@.len(),
            forall|j: int| 0 <= j < i ==> a@[j] == b@[j],
        decreases a@.len() - i,
    {
        if a[i] != b[i] {
            return false;
        }
        i = i + 1;
    }
    assert(a@ =~= b@);
    true
}

/// String equality, `a == b`.
pub fn str_equal(a: &str, b: &str) -> (r: bool)
    ensures
        r == (a@ == b@),
{
    let r = bytes_equal(a.as_bytes(), b.as_bytes());
    proof {
        vstd::utf8::encode_utf8_decode_utf8(a@);
        vstd::utf8::encode_utf8_decode_utf8(b@);
    }
    r
}

/// `s.starts_with(prefix)`: the UTF-8 bytes of `prefix` begin the UTF-8 bytes of `s`.
pub fn str_starts_with(s: &str, prefix: &str) -> (r: bool)
    ensures
        r == prefix.spec_bytes().is_prefix_of(s.spec_bytes()),
{
    let sb = s.as_bytes();
    let pb = prefix.as_bytes();
    if pb.len() > sb.len() {
        return false;
    }
    let mut i: usize = 0;
    while i < pb.len()
        invariant
            pb@ == prefix.spec_bytes(),
            sb@ == s.spec_bytes(),
            pb@.len() <= sb@.len(),
            i <= pb@.len(),
            forall|j: int| 0 <= j < i ==> pb@[j] == sb@[j],
        decreases pb@.len() - i,
    {
        if pb[i] != sb[i] {
            assert(pb@[i as int] != sb@.subrange(0, pb@.len() as int)[i as int]);
            return false;
        }
        i = i + 1;
    }
    assert(pb@ =~= sb@.subrange(0, pb@.len() as int));
    true
}

/// The character of a decimal digit.
pub open spec fn digit_char(d: nat) -> char {
    if d == 0 {
        '0'
    } else if d == 1 {
        '1'
    } else if d == 2 {
        '2'
    } else if d == 3 {
        '3'
    } else if d == 4 {
        '4'
    } else if d == 5 {
        '5'
    } else if d == 6 {
        '6'
    } else if d == 7 {
        '7'
    } else if d == 8 {
        '8'
    } else {
        '9'
    }
}

/// `n` written in decimal, without leading zeros.
pub open spec fn decimal_text(n: nat) -> Seq<char>
    decreases n,
{
    if n < 10 {
        seq![digit_char(n)]
    } else {
        decimal_text(n / 10).push(digit_char(n % 10))
    }
}

} // verus!
