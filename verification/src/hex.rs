//! The hex codec for binary radio payloads: each byte becomes exactly two
//! lowercase hex digits, concatenated without separators, and decoding is
//! the exact inverse.

use vstd::prelude::*;
use vstd::arithmetic::div_mod::lemma_fundamental_div_mod;
use crate::error::Error;
use crate::num::digit_char;
use vstd::string::StrSliceExecFns;
use vstd::string::StringExecFns;

verus! {

/// `c` is a hex digit in either case.
pub open spec fn is_hex_digit(c: char) -> bool {
    (48 <= c as u32 <= 57) || (97 <= c as u32 <= 102) || (65 <= c as u32 <= 70)
}

/// `c` is a hex digit as the encoder emits it: a decimal digit or a
/// lowercase letter `a` through `f`.
pub open spec fn is_lower_hex_digit(c: char) -> bool {
    (48 <= c as u32 <= 57) || (97 <= c as u32 <= 102)
}

/// The value of one hex digit.
pub open spec fn hex_val(c: char) -> int {
    if 48 <= c as u32 <= 57 {
        c as u32 - 48
    } else if 97 <= c as u32 <= 102 {
        c as u32 - 87
    } else if 65 <= c as u32 <= 70 {
        c as u32 - 55
    } else {
        0
    }
}

/// The hex text for a byte sequence: two lowercase digits per byte.
pub open spec fn spec_hexify(bs: Seq<u8>) -> Seq<char>
    decreases bs.len(),
{
    if bs.len() == 0 {
        Seq::<char>::empty()
    } else {
        seq![digit_char(bs[0] as int / 16), digit_char(bs[0] as int % 16)] + spec_hexify(
            bs.drop_first(),
        )
    }
}

/// The bytes a hex text denotes, or `None` when the text has odd length
/// or holds a character that is no hex digit.
pub open spec fn spec_unhexify(s: Seq<char>) -> Option<Seq<u8>>
    decreases s.len(),
{
    if s.len() == 0 {
        Some(Seq::<u8>::empty())
    } else if s.len() == 1 {
        None
    } else if is_hex_digit(s[0]) && is_hex_digit(s[1]) {
        match spec_unhexify(s.skip(2)) {
            None => None,
            Some(r) => Some(seq![(hex_val(s[0]) * 16 + hex_val(s[1])) as u8] + r),
        }
    } else {
        None
    }
}

proof fn lemma_digit_char_val(v: int)
    requires
        0 <= v < 16,
    ensures
        is_hex_digit(digit_char(v)),
        is_lower_hex_digit(digit_char(v)),
        hex_val(digit_char(v)) == v,
{
}

/// Concatenation distributes over the encoder.
proof fn lemma_hexify_append(a: Seq<u8>, b: Seq<u8>)
    ensures
        spec_hexify(a + b) == spec_hexify(a) + spec_hexify(b),
    decreases a.len(),
{
    if a.len() == 0 {
        assert(a + b =~= b);
        assert(spec_hexify(a) + spec_hexify(b) =~= spec_hexify(b));
    } else {
        lemma_hexify_append(a.drop_first(), b);
        assert((a + b).drop_first() =~= a.drop_first() + b);
        assert((a + b)[0] == a[0]);
        assert(spec_hexify(a + b) =~= spec_hexify(a) + spec_hexify(b));
    }
}

/// Encodes a byte sequence as lowercase hex text, two digits per byte.
pub fn hexify(buf: &[u8]) -> (r: String)
    ensures
        r@ == spec_hexify(buf@),
        r@.len() == 2 * buf@.len(),
{
    let mut out = String::new();
    let mut i: usize = 0;
    while i < buf.len()
        invariant
            i <= buf@.len(),
            out@ == spec_hexify(buf@.take(i as int)),
            out@.len() == 2 * i,
        decreases buf@.len() - i,
    {
        let b: u8 = buf[i];
        out.append(crate::num::digit_str(b / 16));
        out.append(crate::num::digit_str(b % 16));
        proof {
            lemma_hexify_append(buf@.take(i as int), seq![b]);
            assert(buf@.take(i + 1) =~= buf@.take(i as int) + seq![b]);
            assert(seq![b].drop_first() =~= Seq::<u8>::empty());
            assert(spec_hexify(Seq::<u8>::empty()) =~= Seq::<char>::empty());
            assert(seq![b][0] == b);
            assert(spec_hexify(seq![b]) =~= seq![
                digit_char(b as int / 16),
                digit_char(b as int % 16),
            ]);
            assert(out@ =~= spec_hexify(buf@.take(i + 1)));
        }
        i = i + 1;
    }
    proof {
        assert(buf@.take(buf@.len() as int) =~= buf@);
    }
    out
}

/// The value of one hex digit character, or `None` when it is no hex digit.
fn hex_val_char(c: char) -> (r: Option<u8>)
    ensures
        match r {
            Some(v) => is_hex_digit(c) && v == hex_val(c) && v < 16,
            None => !is_hex_digit(c),
        },
{
    let cv: u32 = c as u32;
    if 48 <= cv && cv <= 57 {
        Some((cv - 48) as u8)
    } else if 97 <= cv && cv <= 102 {
        Some((cv - 87) as u8)
    } else if 65 <= cv && cv <= 70 {
        Some((cv - 55) as u8)
    } else {
        None
    }
}

/// Decodes hex text into bytes. Fails with [`Error::Decode`] exactly when
/// the text has odd length or holds a character that is no hex digit.
pub fn unhexify(s: &str) -> (r: Result<Vec<u8>, Error>)
    ensures
        match spec_unhexify(s@) {
            Some(bs) => r matches Ok(v) && v@ == bs,
            None => r == Err::<Vec<u8>, Error>(Error::Decode),
        },
{
    let n: usize = s.unicode_len();
    let mut out: Vec<u8> = Vec::new();
    let mut i: usize = 0;
    proof {
        assert(s@.skip(0) =~= s@);
        match spec_unhexify(s@) {
            Some(rest) => {
                assert(Seq::<u8>::empty() + rest =~= rest);
            },
            None => {},
        }
    }
    while i < n
        invariant
            i <= n,
            n == s@.len(),
            i % 2 == 0,
            spec_unhexify(s@) == match spec_unhexify(s@.skip(i as int)) {
                Some(rest) => Some(out@ + rest),
                None => None::<Seq<u8>>,
            },
        decreases n - i,
    {
        if i + 1 == n {
            proof {
                assert(s@.skip(i as int).len() == 1);
            }
            return Err(Error::Decode);
        }
        let h0: u8 = match hex_val_char(s.get_char(i)) {
            Some(v) => v,
            None => {
                proof {
                    assert(s@.skip(i as int)[0] == s@[i as int]);
                    assert(spec_unhexify(s@.skip(i as int)) is None);
                }
                return Err(Error::Decode);
            },
        };
        let h1: u8 = match hex_val_char(s.get_char(i + 1)) {
            Some(v) => v,
            None => {
                proof {
                    assert(s@.skip(i as int)[1] == s@[i + 1]);
                    assert(spec_unhexify(s@.skip(i as int)) is None);
                }
                return Err(Error::Decode);
            },
        };
        let b: u8 = h0 * 16 + h1;
        out.push(b);
        proof {
            let t = s@.skip(i as int);
            assert(t[0] == s@[i as int]);
            assert(t[1] == s@[i + 1]);
            assert(t.skip(2) =~= s@.skip(i + 2));
            assert(b == hex_val(t[0]) * 16 + hex_val(t[1]));
            match spec_unhexify(s@.skip(i + 2)) {
                Some(rest) => {
                    assert(spec_unhexify(t) == Some(seq![b] + rest));
                    assert(out@ =~= out@.drop_last() + seq![b]);
                    assert(out@.drop_last() + (seq![b] + rest) =~= out@ + rest);
                },
                None => {
                    assert(spec_unhexify(t) is None);
                },
            }
        }
        i = i + 2;
    }
    proof {
        assert(s@.skip(n as int) =~= Seq::<char>::empty());
        assert(out@ + Seq::<u8>::empty() =~= out@);
    }
    Ok(out)
}

/// Law: decoding inverts encoding — for every byte sequence `bs`,
/// `spec_unhexify(spec_hexify(bs))` recovers exactly `bs`.
pub proof fn lemma_hex_round_trip(bs: Seq<u8>)
    ensures
        spec_unhexify(spec_hexify(bs)) == Some(bs),
    decreases bs.len(),
{
    if bs.len() == 0 {
        assert(spec_hexify(bs) =~= Seq::<char>::empty());
    } else {
        lemma_hex_round_trip(bs.drop_first());
        let b = bs[0];
        let h = spec_hexify(bs);
        lemma_digit_char_val(b as int / 16);
        lemma_digit_char_val(b as int % 16);
        assert(h.len() >= 2) by {
            lemma_hexify_shape(bs);
        }
        assert(h[0] == digit_char(b as int / 16));
        assert(h[1] == digit_char(b as int % 16));
        assert(h.skip(2) =~= spec_hexify(bs.drop_first()));
        lemma_fundamental_div_mod(b as int, 16);
        assert(hex_val(h[0]) * 16 + hex_val(h[1]) == b);
        assert(seq![b] + bs.drop_first() =~= bs);
    }
}

/// Law: the encoding of `bs` is exactly `2 * bs.len()` characters long and
/// every character is a lowercase hex digit.
pub proof fn lemma_hexify_shape(bs: Seq<u8>)
    ensures
        spec_hexify(bs).len() == 2 * bs.len(),
        forall|i: int|
            0 <= i < spec_hexify(bs).len() ==> is_lower_hex_digit(#[trigger] spec_hexify(bs)[i]),
    decreases bs.len(),
{
    if bs.len() > 0 {
        lemma_hexify_shape(bs.drop_first());
        lemma_digit_char_val(bs[0] as int / 16);
        lemma_digit_char_val(bs[0] as int % 16);
        assert forall|i: int| 0 <= i < spec_hexify(bs).len() implies is_lower_hex_digit(
            #[trigger] spec_hexify(bs)[i],
        ) by {
            if i >= 2 {
                assert(spec_hexify(bs)[i] == spec_hexify(bs.drop_first())[i - 2]);
            }
        }
    }
}

} // verus!
