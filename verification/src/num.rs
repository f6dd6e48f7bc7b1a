//! Decimal parsing and formatting for the numeric response fields, with
//! exact specifications: a field parses if and only if the specification
//! says it does, and to the value the specification gives.

use vstd::prelude::*;
use vstd::string::StrSliceExecFns;
use vstd::string::StringExecFns;
use crate::text::spec_find;
use crate::text::find_from;

verus! {

/// `c` is a decimal digit.
pub open spec fn is_digit(c: char) -> bool {
    48 <= c as u32 <= 57
}

/// Every character of `s` is a decimal digit.
pub open spec fn all_digits(s: Seq<char>) -> bool {
    forall|j: int| 0 <= j < s.len() ==> is_digit(s[j])
}

/// The value of `s` read as decimal digits, most significant first.
pub open spec fn digits_val(s: Seq<char>) -> int
    decreases s.len(),
{
    if s.len() == 0 {
        0
    } else {
        digits_val(s.drop_last()) * 10 + (s.last() as u32 - 48)
    }
}

/// The digit character for a value below sixteen, lowercase.
pub open spec fn digit_char(v: int) -> char {
    if v == 0 {
        '0'
    } else if v == 1 {
        '1'
    } else if v == 2 {
        '2'
    } else if v == 3 {
        '3'
    } else if v == 4 {
        '4'
    } else if v == 5 {
        '5'
    } else if v == 6 {
        '6'
    } else if v == 7 {
        '7'
    } else if v == 8 {
        '8'
    } else if v == 9 {
        '9'
    } else if v == 10 {
        'a'
    } else if v == 11 {
        'b'
    } else if v == 12 {
        'c'
    } else if v == 13 {
        'd'
    } else if v == 14 {
        'e'
    } else if v == 15 {
        'f'
    } else {
        '0'
    }
}

/// The decimal digits of a non-negative number, most significant first.
pub open spec fn dec_digits(n: int) -> Seq<char>
    decreases n,
{
    if n < 10 {
        seq![digit_char(n)]
    } else {
        dec_digits(n / 10).push(digit_char(n % 10))
    }
}

/// What a run of decimal digits denotes as a `u64`: defined exactly when
/// the run is non-empty, all digits, and the value fits.
pub open spec fn spec_digits_u64(s: Seq<char>) -> Option<u64> {
    if s.len() > 0 && all_digits(s) && digits_val(s) <= u64::MAX {
        Some(digits_val(s) as u64)
    } else {
        None
    }
}

proof fn lemma_digits_val_nonneg(s: Seq<char>)
    requires
        all_digits(s),
    ensures
        digits_val(s) >= 0,
    decreases s.len(),
{
    if s.len() > 0 {
        assert(all_digits(s.drop_last()));
        lemma_digits_val_nonneg(s.drop_last());
    }
}

proof fn lemma_digits_val_take_le(s: Seq<char>, k: int)
    requires
        all_digits(s),
        0 <= k <= s.len(),
    ensures
        digits_val(s.take(k)) <= digits_val(s),
    decreases s.len() - k,
{
    if k == s.len() {
        assert(s.take(k) =~= s);
    } else {
        lemma_digits_val_take_le(s, k + 1);
        assert(s.take(k + 1).drop_last() =~= s.take(k));
        assert(all_digits(s.take(k + 1)));
        lemma_digits_val_nonneg(s.take(k));
        assert(digits_val(s.take(k + 1)) == digits_val(s.take(k)) * 10 + (s[k] as u32 - 48));
    }
}

/// Parses `s` as a non-empty run of decimal digits into a `u64`.
/// Returns `None` exactly when `s` is empty, holds a non-digit, or
/// denotes a value above `u64::MAX`.
pub fn digits_u64(s: &str) -> (r: Option<u64>)
    ensures
        r == spec_digits_u64(s@),
{
    let n: usize = s.unicode_len();
    if n == 0 {
        return None;
    }
    let mut val: u64 = 0;
    let mut i: usize = 0;
    while i < n
        invariant
            i <= n,
            n == s@.len(),
            n > 0,
            all_digits(s@.take(i as int)),
            val == digits_val(s@.take(i as int)),
        decreases n - i,
    {
        let c = s.get_char(i);
        let cv: u32 = c as u32;
        if cv < 48 || cv > 57 {
            proof {
                assert(!is_digit(s@[i as int]));
                assert(!all_digits(s@));
            }
            return None;
        }
        let d: u64 = (cv - 48) as u64;
        proof {
            assert(s@.take(i + 1).drop_last() =~= s@.take(i as int));
            assert(s@.take(i + 1).last() == s@[i as int]);
            assert(all_digits(s@.take(i + 1)));
            assert(digits_val(s@.take(i + 1)) == val * 10 + d);
        }
        if val > u64::MAX / 10 {
            proof {
                if all_digits(s@) {
                    lemma_digits_val_nonneg(s@.take(i as int));
                    lemma_digits_val_take_le(s@, i + 1);
                    assert(digits_val(s@) > u64::MAX);
                }
            }
            return None;
        }
        let v10: u64 = val * 10;
        if d > u64::MAX - v10 {
            proof {
                if all_digits(s@) {
                    lemma_digits_val_take_le(s@, i + 1);
                    assert(digits_val(s@) > u64::MAX);
                }
            }
            return None;
        }
        val = v10 + d;
        i = i + 1;
    }
    proof {
        assert(s@.take(n as int) =~= s@);
    }
    Some(val)
}

/// What `s` denotes as an unsigned decimal number with an optional
/// leading `+`, as Rust's own unsigned parse accepts it.
pub open spec fn spec_parse_u64(s: Seq<char>) -> Option<u64> {
    if s.len() > 0 && s[0] == '+' {
        spec_digits_u64(s.skip(1))
    } else {
        spec_digits_u64(s)
    }
}

/// Parses an unsigned decimal number with an optional leading `+`.
pub fn parse_u64(s: &str) -> (r: Option<u64>)
    ensures
        r == spec_parse_u64(s@),
{
    let n: usize = s.unicode_len();
    if n > 0 && s.get_char(0) == '+' {
        let rest = s.substring_char(1, n);
        proof {
            assert(rest@ =~= s@.skip(1));
        }
        digits_u64(rest)
    } else {
        digits_u64(s)
    }
}

/// [`spec_parse_u64`] restricted to values that fit a `usize`.
pub open spec fn spec_parse_usize(s: Seq<char>) -> Option<usize> {
    match spec_parse_u64(s) {
        Some(v) => if v <= usize::MAX {
            Some(v as usize)
        } else {
            None
        },
        None => None,
    }
}

/// Parses an unsigned decimal number that must fit a `usize`.
pub fn parse_usize(s: &str) -> (r: Option<usize>)
    ensures
        r == spec_parse_usize(s@),
{
    match parse_u64(s) {
        Some(v) => {
            if v <= usize::MAX as u64 {
                Some(v as usize)
            } else {
                None
            }
        },
        None => None,
    }
}

/// What `s` denotes as a signed decimal number in the range of an `i16`,
/// with an optional leading `+` or `-`.
pub open spec fn spec_parse_i16(s: Seq<char>) -> Option<i16> {
    if s.len() > 0 && s[0] == '-' {
        match spec_digits_u64(s.skip(1)) {
            Some(m) => if m <= 32768 {
                Some((-(m as int)) as i16)
            } else {
                None
            },
            None => None,
        }
    } else {
        match spec_parse_u64(s) {
            Some(m) => if m <= 32767 {
                Some(m as i16)
            } else {
                None
            },
            None => None,
        }
    }
}

/// Parses a signed decimal number into an `i16`.
pub fn parse_i16(s: &str) -> (r: Option<i16>)
    ensures
        r == spec_parse_i16(s@),
{
    let n: usize = s.unicode_len();
    if n > 0 && s.get_char(0) == '-' {
        let rest = s.substring_char(1, n);
        proof {
            assert(rest@ =~= s@.skip(1));
        }
        match digits_u64(rest) {
            Some(m) => {
                if m <= 32768 {
                    Some((-(m as i64)) as i16)
                } else {
                    None
                }
            },
            None => None,
        }
    } else {
        match parse_u64(s) {
            Some(m) => {
                if m <= 32767 {
                    Some(m as i16)
                } else {
                    None
                }
            },
            None => None,
        }
    }
}

/// What `s` denotes as a frequency in MHz with at most two digits after
/// an optional decimal point, scaled by one hundred to an integer count
/// of centi-MHz. The integer part must be non-empty; the result must fit
/// a `u32`.
pub open spec fn spec_parse_centi_mhz(s: Seq<char>) -> Option<u32> {
    match spec_find(s, '.') {
        None => match spec_digits_u64(s) {
            Some(v) => if v * 100 <= u32::MAX {
                Some((v * 100) as u32)
            } else {
                None
            },
            None => None,
        },
        Some(i) => {
            let frac = s.skip(i + 1);
            match spec_digits_u64(s.take(i)) {
                Some(v) => if all_digits(frac) && frac.len() <= 2 && v * 100 + frac_val(frac)
                    <= u32::MAX {
                    Some((v * 100 + frac_val(frac)) as u32)
                } else {
                    None
                },
                None => None,
            }
        },
    }
}

/// The value of up to two fraction digits, scaled to centi-units.
pub open spec fn frac_val(frac: Seq<char>) -> int {
    if frac.len() == 0 {
        0
    } else if frac.len() == 1 {
        (frac[0] as u32 - 48) * 10
    } else {
        (frac[0] as u32 - 48) * 10 + (frac[1] as u32 - 48)
    }
}

/// Parses a decimal frequency in MHz into centi-MHz.
pub fn parse_centi_mhz(s: &str) -> (r: Option<u32>)
    ensures
        r == spec_parse_centi_mhz(s@),
{
    let n: usize = s.unicode_len();
    match find_from(s, 0, '.') {
        None => {
            proof {
                assert(s@.skip(0) =~= s@);
            }
            match digits_u64(s) {
                Some(v) => {
                    if v <= u32::MAX as u64 / 100 {
                        Some((v * 100) as u32)
                    } else {
                        None
                    }
                },
                None => None,
            }
        },
        Some(i) => {
            proof {
                assert(s@.skip(0) =~= s@);
            }
            let int_part = s.substring_char(0, i);
            proof {
                assert(int_part@ =~= s@.take(i as int));
            }
            let frac_len: usize = n - (i + 1);
            if frac_len > 2 {
                match digits_u64(int_part) {
                    Some(_) => {
                        proof {
                            assert(s@.skip(i + 1).len() > 2);
                        }
                        None
                    },
                    None => None,
                }
            } else {
                let mut fv: u32 = 0;
                let mut frac_ok: bool = true;
                if frac_len >= 1 {
                    let c0: u32 = s.get_char(i + 1) as u32;
                    if c0 < 48 || c0 > 57 {
                        frac_ok = false;
                    } else {
                        fv = (c0 - 48) * 10;
                    }
                }
                if frac_ok && frac_len == 2 {
                    let c1: u32 = s.get_char(i + 2) as u32;
                    if c1 < 48 || c1 > 57 {
                        frac_ok = false;
                    } else {
                        fv = fv + (c1 - 48);
                    }
                }
                proof {
                    let frac = s@.skip(i + 1);
                    assert(frac.len() == frac_len);
                    if frac_len >= 1 {
                        assert(frac[0] == s@[i + 1]);
                    }
                    if frac_len == 2 {
                        assert(frac[1] == s@[i + 2]);
                    }
                    if frac_ok {
                        assert(all_digits(frac));
                        assert(fv == frac_val(frac));
                    } else {
                        assert(!all_digits(frac));
                    }
                }
                match digits_u64(int_part) {
                    Some(v) => {
                        if !frac_ok {
                            None
                        } else if v <= (u32::MAX as u64 - fv as u64) / 100 {
                            Some((v * 100 + fv as u64) as u32)
                        } else {
                            None
                        }
                    },
                    None => None,
                }
            }
        },
    }
}

/// The digit character for a value below sixteen, as a one-character
/// string slice.
pub fn digit_str(d: u8) -> (r: &'static str)
    requires
        d < 16,
    ensures
        r@ == seq![digit_char(d as int)],
{
    let r: &'static str = match d {
        0 => "0",
        1 => "1",
        2 => "2",
        3 => "3",
        4 => "4",
        5 => "5",
        6 => "6",
        7 => "7",
        8 => "8",
        9 => "9",
        10 => "a",
        11 => "b",
        12 => "c",
        13 => "d",
        14 => "e",
        _ => "f",
    };
    proof {
        reveal_strlit("0");
        reveal_strlit("1");
        reveal_strlit("2");
        reveal_strlit("3");
        reveal_strlit("4");
        reveal_strlit("5");
        reveal_strlit("6");
        reveal_strlit("7");
        reveal_strlit("8");
        reveal_strlit("9");
        reveal_strlit("a");
        reveal_strlit("b");
        reveal_strlit("c");
        reveal_strlit("d");
        reveal_strlit("e");
        reveal_strlit("f");
        assert(r@ =~= seq![digit_char(d as int)]);
    }
    r
}

/// Formats `n` as decimal digits, most significant first.
pub fn u32_dec(n: u32) -> (r: String)
    ensures
        r@ == dec_digits(n as int),
    decreases n,
{
    if n < 10 {
        String::from_str(digit_str(n as u8))
    } else {
        let mut s = u32_dec(n / 10);
        s.append(digit_str((n % 10) as u8));
        proof {
            assert(s@ =~= dec_digits(n as int));
        }
        s
    }
}

} // verus!
