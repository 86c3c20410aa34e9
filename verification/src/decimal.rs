//! Decimal text: emitting integers into JSON output and reading integer
//! literals out of parsed JSON numbers.

use vstd::prelude::*;

verus! {

/// The decimal digits of `n`, most significant first, without sign and
/// without leading zeros (`0` is rendered as the single digit `0`).
pub open spec fn dec_digits(n: nat) -> Seq<u8>
    decreases n,
{
    if n < 10 {
        seq![(48 + n) as u8]
    } else {
        dec_digits(n / 10) + seq![(48 + n % 10) as u8]
    }
}

/// The decimal rendering of a signed integer: a `-` sign when negative,
/// then the digits of its magnitude.
pub open spec fn dec_int(n: int) -> Seq<u8> {
    if n < 0 {
        seq![45u8] + dec_digits((-n) as nat)
    } else {
        dec_digits(n as nat)
    }
}

/// True when `s` is one or more decimal digit bytes.
pub open spec fn is_dec_digits(s: Seq<u8>) -> bool {
    s.len() > 0 && forall|i: int| 0 <= i < s.len() ==> 48 <= #[trigger] s[i] <= 57
}

/// The value of a digit string, read left to right.
pub open spec fn dec_val(s: Seq<u8>) -> nat
    decreases s.len(),
{
    if s.len() == 0 {
        0
    } else {
        dec_val(s.drop_last()) * 10 + (s.last() - 48) as nat
    }
}

/// What parsing a byte string as a `u64` yields: defined exactly when the
/// string is all digits and its value fits.
pub open spec fn spec_parse_u64(s: Seq<u8>) -> Option<u64> {
    if is_dec_digits(s) && dec_val(s) <= u64::MAX {
        Some(dec_val(s) as u64)
    } else {
        None
    }
}

/// What parsing a byte string as an `i64` yields: an optional `-` sign,
/// then digits, and the signed value must fit.
pub open spec fn spec_parse_i64(s: Seq<u8>) -> Option<i64> {
    if s.len() > 0 && s[0] == 45 {
        let d = s.drop_first();
        if is_dec_digits(d) && dec_val(d) <= 0x8000000000000000 {
            Some((0 - dec_val(d) as int) as i64)
        } else {
            None
        }
    } else {
        if is_dec_digits(s) && dec_val(s) <= i64::MAX {
            Some(dec_val(s) as i64)
        } else {
            None
        }
    }
}

/// Appends the decimal digits of `n` to `out`.
pub fn push_dec_u64(out: &mut Vec<u8>, n: u64)
    ensures
        final(out)@ == old(out)@ + dec_digits(n as nat),
    decreases n,
{
    if n < 10 {
        out.push((48 + n) as u8);
        proof {
            assert(out@ =~= old(out)@ + dec_digits(n as nat));
        }
    } else {
        push_dec_u64(out, n / 10);
        out.push((48 + n % 10) as u8);
        proof {
            assert(out@ =~= old(out)@ + dec_digits(n as nat));
        }
    }
}

/// Appends the decimal rendering of a signed integer to `out`.
pub fn push_dec_i64(out: &mut Vec<u8>, n: i64)
    ensures
        final(out)@ == old(out)@ + dec_int(n as int),
{
    if n < 0 {
        out.push(45);
        let magnitude: u64 = ((-(n + 1)) as u64) + 1;
        push_dec_u64(out, magnitude);
        proof {
            assert(out@ =~= old(out)@ + dec_int(n as int));
        }
    } else {
        push_dec_u64(out, n as u64);
    }
}

/// Parses a digit string into a `u64`; `None` when a byte is not a digit
/// or the value does not fit.
pub fn parse_u64(s: &[u8]) -> (r: Option<u64>)
    ensures
        r == spec_parse_u64(s@),
{
    if s.len() == 0 {
        return None;
    }
    let mut acc: u64 = 0;
    let mut i: usize = 0;
    while i < s.len()
        invariant
            0 <= i <= s@.len(),
            s@.len() > 0,
            forall|j: int| 0 <= j < i ==> 48 <= #[trigger] s@[j] <= 57,
            acc == dec_val(s@.subrange(0, i as int)),
        decreases s@.len() - i,
    {
        let b = s[i];
        if b < 48 || b > 57 {
            proof {
                assert(!is_dec_digits(s@));
            }
            return None;
        }
        let d = (b - 48) as u64;
        if acc > (u64::MAX - d) / 10 {
            proof {
                let m = u64::MAX as int;
                let dd = d as int;
                let q = (m - dd) / 10;
                vstd::arithmetic::div_mod::lemma_fundamental_div_mod(m - dd, 10);
                vstd::arithmetic::div_mod::lemma_mod_division_less_than_divisor(m - dd, 10);
                assert((acc as int) * 10 + dd > m) by (nonlinear_arith)
                    requires
                        acc as int >= q + 1,
                        m - dd == 10 * q + (m - dd) % 10,
                        0 <= (m - dd) % 10 < 10,
                ;
                assert(s@.subrange(0, i + 1).drop_last() =~= s@.subrange(0, i as int));
                assert(s@.subrange(0, i + 1).last() == s@[i as int]);
                lemma_dec_val_prefix_bound(s@, i + 1);
            }
            return None;
        }
        acc = acc * 10 + d;
        i += 1;
        proof {
            assert(s@.subrange(0, i as int).drop_last() =~= s@.subrange(0, i as int - 1));
        }
    }
    proof {
        assert(s@.subrange(0, s@.len() as int) =~= s@);
    }
    Some(acc)
}

/// If a prefix of the digits already exceeds `u64::MAX`, so does the whole
/// string's value.
proof fn lemma_dec_val_prefix_bound(s: Seq<u8>, i: int)
    requires
        0 < i <= s.len(),
        dec_val(s.subrange(0, i)) > u64::MAX,
    ensures
        dec_val(s) > u64::MAX,
    decreases s.len() - i,
{
    if i == s.len() {
        assert(s.subrange(0, i) =~= s);
    } else {
        assert(s.subrange(0, i + 1).drop_last() =~= s.subrange(0, i));
        assert(dec_val(s.subrange(0, i + 1)) >= dec_val(s.subrange(0, i)) * 10) by (nonlinear_arith)
            requires
                dec_val(s.subrange(0, i + 1)) == dec_val(s.subrange(0, i)) * 10 + (s.subrange(
                    0,
                    i + 1,
                ).last() - 48) as nat,
        ;
        lemma_dec_val_prefix_bound(s, i + 1);
    }
}

/// Parses an optionally signed digit string into an `i64`; `None` when the
/// shape is wrong or the value does not fit.
pub fn parse_i64(s: &[u8]) -> (r: Option<i64>)
    ensures
        r == spec_parse_i64(s@),
{
    if s.len() > 0 && s[0] == 45 {
        let rest = s.split_at(1).1;
        proof {
            assert(rest@ =~= s@.drop_first());
        }
        match parse_u64(rest) {
            Some(m) => {
                if m <= 0x7fffffffffffffff {
                    Some(-(m as i64))
                } else if m == 0x8000000000000000 {
                    Some(i64::MIN)
                } else {
                    None
                }
            },
            None => None,
        }
    } else {
        match parse_u64(s) {
            Some(v) => {
                if v <= 0x7fffffffffffffff {
                    Some(v as i64)
                } else {
                    None
                }
            },
            None => None,
        }
    }
}

} // verus!
