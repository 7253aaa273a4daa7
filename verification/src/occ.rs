//! OCC option symbols: `{underlying}{YYMMDD}{C|P}{strike x 1000, 8 digits}`,
//! e.g. `BAC260404P00038000` is the BAC put expiring 2026-04-04 at $38.00.
use crate::calendar::{is_calendar_date, CalendarDate};
use crate::text::{
    is_digit, all_digits, digits_value, parse_u32_field, parse_u64_field, signed_decimal, spec_parse_i32,
    spec_parse_u32, spec_parse_u64,
};
use vstd::prelude::*;
use vstd::string::StringSliceAdditionalSpecFns;

verus! {

/// `C` or `P`, the letters that mark a call or a put.
pub open spec fn is_contract_type_letter(b: u8) -> bool {
    b == 67 || b == 80
}

/// `i` is the position of the last `C` or `P` in `b`.
pub open spec fn is_last_contract_type_letter(b: Seq<u8>, i: int) -> bool {
    &&& 0 <= i < b.len()
    &&& is_contract_type_letter(b[i])
    &&& forall|j: int| i < j < b.len() ==> !is_contract_type_letter(#[trigger] b[j])
}

/// Where `symbol.rfind(|c| c == 'C' || c == 'P')` stops, as a byte position.
pub open spec fn last_contract_type_letter(b: Seq<u8>) -> Option<int> {
    if exists|i: int| is_last_contract_type_letter(b, i) {
        Some(choose|i: int| is_last_contract_type_letter(b, i))
    } else {
        None
    }
}

/// The year field: `"20"` followed by the first two date bytes, read as an `i32`.
pub open spec fn occ_year(date: Seq<u8>) -> Option<i32> {
    spec_parse_i32(seq![50u8, 48u8] + date.subrange(0, 2))
}

/// The expiration written in the six bytes before position `cp`, if those bytes
/// read as a year, a month and a day that exist together.
pub open spec fn occ_date_before(b: Seq<u8>, cp: int) -> Option<(int, int, int)> {
    let date = b.subrange(cp - 6, cp);
    match (occ_year(date), spec_parse_u32(date.subrange(2, 4)), spec_parse_u32(date.subrange(4, 6))) {
        (Some(y), Some(m), Some(d)) => if is_calendar_date(y as int, m as int, d as int) {
            Some((y as int, m as int, d as int))
        } else {
            None
        },
        _ => None,
    }
}

/// The expiration date that an OCC symbol's bytes spell, if any.
pub open spec fn spec_occ_expiration(b: Seq<u8>) -> Option<(int, int, int)> {
    match last_contract_type_letter(b) {
        Some(cp) => if cp < 6 {
            None
        } else {
            occ_date_before(b, cp)
        },
        None => None,
    }
}

/// The (expiration, is-a-call, strike in thousandths of a dollar) that an OCC
/// symbol's bytes spell, if any.
pub open spec fn spec_occ_symbol(b: Seq<u8>) -> Option<((int, int, int), bool, u64)> {
    match last_contract_type_letter(b) {
        Some(cp) => if cp < 6 {
            None
        } else {
            match occ_date_before(b, cp) {
                Some(date) => {
                    let strike = b.subrange(cp + 1, b.len() as int);
                    if strike.len() != 8 {
                        None
                    } else {
                        match spec_parse_u64(strike) {
                            Some(k) => Some((date, b[cp] == 67, k)),
                            None => None,
                        }
                    }
                },
                None => None,
            }
        },
        None => None,
    }
}

/// The strike (thousandths of a dollar) written in the eight bytes after the last
/// type letter, if they read as a `u64`; the date field is not examined.
pub open spec fn spec_occ_strike(b: Seq<u8>) -> Option<u64> {
    match last_contract_type_letter(b) {
        Some(cp) => {
            let strike = b.subrange(cp + 1, b.len() as int);
            if strike.len() != 8 {
                None
            } else {
                spec_parse_u64(strike)
            }
        },
        None => None,
    }
}

/// The positions where the symbol's date field is cut out of the string are
/// character boundaries (a symbol that breaks a multi-byte character there cannot
/// be sliced as `&str`).
pub open spec fn occ_date_cuts_on_char_boundaries(b: Seq<u8>) -> bool {
    match last_contract_type_letter(b) {
        Some(cp) => cp >= 6 ==> {
            &&& vstd::utf8::is_char_boundary(b, cp - 6)
            &&& vstd::utf8::is_char_boundary(b, cp - 4)
            &&& occ_year(b.subrange(cp - 6, cp)) is Some ==> vstd::utf8::is_char_boundary(b, cp - 2)
        },
        None => true,
    }
}

/// The contract type word for a type letter.
pub open spec fn contract_type_word(is_call: bool) -> Seq<char> {
    if is_call {
        "call"@
    } else {
        "put"@
    }
}

fn last_contract_type_index(b: &[u8]) -> (r: Option<usize>)
    ensures
        match r {
            Some(i) => last_contract_type_letter(b@) == Some(i as int),
            None => last_contract_type_letter(b@) is None,
        },
{
    let mut i = b.len();
    while i > 0
        invariant
            i <= b@.len(),
            forall|j: int| i <= j < b@.len() ==> !is_contract_type_letter(#[trigger] b@[j]),
        decreases i,
    {
        let c = b[i - 1];
        if c == 67 || c == 80 {
            let ghost k = (i - 1) as int;
            assert(is_last_contract_type_letter(b@, k));
            let ghost chosen = choose|x: int| is_last_contract_type_letter(b@, x);
            assert(chosen == k) by {
                if chosen < k {
                    assert(!is_contract_type_letter(b@[k]));
                } else if chosen > k {
                    assert(!is_contract_type_letter(b@[chosen]));
                }
            }
            return Some(i - 1);
        }
        i = i - 1;
    }
    assert forall|x: int| !is_last_contract_type_letter(b@, x) by {
        if 0 <= x < b@.len() {
            assert(!is_contract_type_letter(b@[x]));
        }
    }
    None
}

proof fn lemma_two_digit_year(a: u8, c: u8)
    ensures
        ({
            let s = seq![50u8, 48u8, a, c];
            &&& (48 <= a <= 57 && 48 <= c <= 57) ==> signed_decimal(s) == Some(
                2000 + (a - 48) * 10 + (c - 48),
            )
            &&& !(48 <= a <= 57 && 48 <= c <= 57) ==> signed_decimal(s) is None
        }),
{
    let s = seq![50u8, 48u8, a, c];
    assert(s.drop_last() =~= seq![50u8, 48u8, a]);
    assert(s.drop_last().drop_last() =~= seq![50u8, 48u8]);
    assert(s.drop_last().drop_last().drop_last() =~= seq![50u8]);
    assert(s.drop_last().drop_last().drop_last().drop_last() =~= Seq::<u8>::empty());
    reveal_with_fuel(digits_value, 5);
    if !(48 <= a <= 57) {
        assert(!crate::text::is_digit(s[2]));
    } else if !(48 <= c <= 57) {
        assert(!crate::text::is_digit(s[3]));
    } else {
        assert(all_digits(s));
    }
}

/// Reads the date field ending at byte `cp`.
fn read_occ_date(b: &[u8], cp: usize) -> (r: Option<CalendarDate>)
    requires
        6 <= cp <= b@.len(),
    ensures
        match occ_date_before(b@, cp as int) {
            Some(d) => r matches Some(x) && x@ == d,
            None => r is None,
        },
{
    let ghost date = b@.subrange(cp - 6, cp as int);
    let a = b[cp - 6];
    let c = b[cp - 5];
    proof {
        lemma_two_digit_year(a, c);
        assert(seq![50u8, 48u8] + date.subrange(0, 2) =~= seq![50u8, 48u8, a, c]);
        assert(date.subrange(2, 4) =~= b@.subrange(cp - 4, cp - 2));
        assert(date.subrange(4, 6) =~= b@.subrange(cp - 2, cp as int));
    }
    if !(48 <= a && a <= 57 && 48 <= c && c <= 57) {
        return None;
    }
    let year: i32 = 2000 + ((a - 48) as i32) * 10 + ((c - 48) as i32);
    let month = match parse_u32_field(b, cp - 4, cp - 2) {
        Some(m) => m,
        None => {
            return None;
        },
    };
    let day = match parse_u32_field(b, cp - 2, cp) {
        Some(d) => d,
        None => {
            return None;
        },
    };
    CalendarDate::from_ymd_opt(year, month, day)
}

/// Parses an OCC option symbol into its expiration date, contract type (`"call"` or
/// `"put"`) and strike price in thousandths of a dollar (`00038000` is $38.000).
///
/// The type letter is the last `C` or `P`; the six bytes before it are `YYMMDD`
/// (years 2000-2099) and the bytes after it must be the eight strike digits.
pub fn parse_occ_symbol(symbol: &str) -> (r: Option<(CalendarDate, String, u64)>)
    requires
        occ_date_cuts_on_char_boundaries(symbol.spec_bytes()),
    ensures
        match spec_occ_symbol(symbol.spec_bytes()) {
            Some((date, is_call, strike)) => r matches Some(t) && t.0@ == date && t.1@
                == contract_type_word(is_call) && t.2 == strike,
            None => r is None,
        },
{
    let b = symbol.as_bytes();
    let cp = match last_contract_type_index(b) {
        Some(i) => i,
        None => {
            return None;
        },
    };
    if cp < 6 {
        return None;
    }
    let expiration = match read_occ_date(b, cp) {
        Some(d) => d,
        None => {
            return None;
        },
    };
    let contract_type = if b[cp] == 67 {
        "call".to_owned()
    } else {
        "put".to_owned()
    };
    if b.len() - (cp + 1) != 8 {
        return None;
    }
    let strike = match parse_u64_field(b, cp + 1, b.len()) {
        Some(k) => k,
        None => {
            return None;
        },
    };
    Some((expiration, contract_type, strike))
}

/// Parses the expiration date out of an OCC option symbol; `None` for anything that
/// is not one (an equity symbol such as `BAC`, for instance). Unlike
/// [`parse_occ_symbol`] the strike field is not examined.
pub fn parse_occ_expiration(symbol: &str) -> (r: Option<CalendarDate>)
    requires
        occ_date_cuts_on_char_boundaries(symbol.spec_bytes()),
    ensures
        match spec_occ_expiration(symbol.spec_bytes()) {
            Some(date) => r matches Some(x) && x@ == date,
            None => r is None,
        },
{
    let b = symbol.as_bytes();
    let cp = match last_contract_type_index(b) {
        Some(i) => i,
        None => {
            return None;
        },
    };
    if cp < 6 {
        return None;
    }
    read_occ_date(b, cp)
}

/// Reads only the strike of an OCC symbol, in thousandths of a dollar.
pub fn parse_occ_strike(symbol: &str) -> (r: Option<u64>)
    ensures
        r == spec_occ_strike(symbol.spec_bytes()),
{
    let b = symbol.as_bytes();
    let cp = match last_contract_type_index(b) {
        Some(i) => i,
        None => {
            return None;
        },
    };
    if b.len() - (cp + 1) != 8 {
        return None;
    }
    parse_u64_field(b, cp + 1, b.len())
}

/// The readers agree: a symbol that parses as a full OCC symbol has that same
/// expiration when only its expiration is read and that same strike when only its
/// strike is read; a symbol without a readable expiration or strike is no OCC symbol.
pub proof fn lemma_symbol_fields_agree(b: Seq<u8>)
    ensures
        spec_occ_symbol(b) matches Some((date, _, k)) ==> spec_occ_expiration(b) == Some(date)
            && spec_occ_strike(b) == Some(k),
        spec_occ_expiration(b) is None ==> spec_occ_symbol(b) is None,
        spec_occ_strike(b) is None ==> spec_occ_symbol(b) is None,
{
}

/// The value of the ASCII digit byte `b`.
pub open spec fn digit_byte_value(b: u8) -> int {
    b - 48
}

proof fn lemma_digits_value_prefix(s: Seq<u8>, n: int)
    requires
        0 < n <= s.len(),
        all_digits(s),
    ensures
        digits_value(s.subrange(0, n)) == digits_value(s.subrange(0, n - 1)) * 10 + (s[n - 1] - 48),
{
    assert(s.subrange(0, n).drop_last() =~= s.subrange(0, n - 1));
}

/// An OCC symbol read field by field: whatever the underlying's letters, a symbol
/// made of six date digits `YYMMDD`, `C` or `P`, and eight strike digits reads as
/// the expiration 20YY-MM-DD (when that date exists), a call exactly when the
/// letter is `C`, and the strike the eight digits write, in thousandths of a dollar.
pub proof fn lemma_occ_symbol_layout(root: Seq<u8>, date: Seq<u8>, letter: u8, strike: Seq<u8>)
    requires
        date.len() == 6,
        all_digits(date),
        letter == 67 || letter == 80,
        strike.len() == 8,
        all_digits(strike),
    ensures
        ({
            let b = root + date + seq![letter] + strike;
            let y = 2000 + digit_byte_value(date[0]) * 10 + digit_byte_value(date[1]);
            let m = digit_byte_value(date[2]) * 10 + digit_byte_value(date[3]);
            let d = digit_byte_value(date[4]) * 10 + digit_byte_value(date[5]);
            let k = digit_byte_value(strike[0]) * 10000000 + digit_byte_value(strike[1]) * 1000000
                + digit_byte_value(strike[2]) * 100000 + digit_byte_value(strike[3]) * 10000
                + digit_byte_value(strike[4]) * 1000 + digit_byte_value(strike[5]) * 100
                + digit_byte_value(strike[6]) * 10 + digit_byte_value(strike[7]);
            &&& spec_occ_symbol(b) == if is_calendar_date(y, m, d) {
                Some(((y, m, d), letter == 67, k as u64))
            } else {
                None::<((int, int, int), bool, u64)>
            }
            &&& spec_occ_strike(b) == Some(k as u64)
        }),
{
    let b = root + date + seq![letter] + strike;
    let cp: int = root.len() as int + 6;
    assert(b[cp] == letter);
    assert forall|j: int| cp < j < b.len() implies !is_contract_type_letter(#[trigger] b[j]) by {
        assert(b[j] == strike[j - cp - 1]);
        assert(is_digit(strike[j - cp - 1]));
    }
    assert(is_last_contract_type_letter(b, cp));
    let found = choose|i: int| is_last_contract_type_letter(b, i);
    assert(is_last_contract_type_letter(b, found));
    assert(found == cp);
    assert(last_contract_type_letter(b) == Some(cp));
    let dt = b.subrange(cp - 6, cp);
    assert(dt =~= date);
    let st = b.subrange(cp + 1, b.len() as int);
    assert(st =~= strike);
    // year: "20" followed by two digits
    let ys = seq![50u8, 48u8] + date.subrange(0, 2);
    assert(all_digits(ys));
    lemma_digits_value_prefix(ys, 4);
    lemma_digits_value_prefix(ys, 3);
    lemma_digits_value_prefix(ys, 2);
    lemma_digits_value_prefix(ys, 1);
    assert(ys.subrange(0, 4) =~= ys);
    assert(ys.subrange(0, 0) =~= Seq::<u8>::empty());
    assert(ys[0] != 45 && ys[0] != 43);
    // month and day
    let ms = date.subrange(2, 4);
    let ds = date.subrange(4, 6);
    assert(all_digits(ms));
    assert(all_digits(ds));
    lemma_digits_value_prefix(ms, 2);
    lemma_digits_value_prefix(ms, 1);
    lemma_digits_value_prefix(ds, 2);
    lemma_digits_value_prefix(ds, 1);
    assert(ms.subrange(0, 2) =~= ms);
    assert(ds.subrange(0, 2) =~= ds);
    assert(ms.subrange(0, 0) =~= Seq::<u8>::empty());
    assert(ds.subrange(0, 0) =~= Seq::<u8>::empty());
    // strike
    lemma_digits_value_prefix(strike, 8);
    lemma_digits_value_prefix(strike, 7);
    lemma_digits_value_prefix(strike, 6);
    lemma_digits_value_prefix(strike, 5);
    lemma_digits_value_prefix(strike, 4);
    lemma_digits_value_prefix(strike, 3);
    lemma_digits_value_prefix(strike, 2);
    lemma_digits_value_prefix(strike, 1);
    assert(strike.subrange(0, 8) =~= strike);
    assert(strike.subrange(0, 0) =~= Seq::<u8>::empty());
    assert(is_digit(strike[0]));
}

} // verus!
