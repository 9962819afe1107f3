//! Decimal text handled by the rate editor: parsing the edit buffer into a
//! raw value, and rendering a canonical value back into the buffer when the
//! active unit changes.

use vstd::prelude::*;

verus! {

/// ASCII code of the digit `0`.
pub const DIGIT_ZERO: u8 = 48;

/// `b` is one of the ASCII digits `0` through `9`.
pub open spec fn is_ascii_digit(b: u8) -> bool {
    DIGIT_ZERO <= b <= DIGIT_ZERO + 9
}

/// Every byte of `s` is an ASCII digit.
pub open spec fn all_digits(s: Seq<u8>) -> bool {
    forall|i: int| 0 <= i < s.len() ==> is_ascii_digit(#[trigger] s[i])
}

/// The number denoted by a sequence of ASCII digits, most significant first.
/// The empty sequence denotes zero.
pub open spec fn digits_value(s: Seq<u8>) -> int
    decreases s.len(),
{
    if s.len() == 0 {
        0
    } else {
        digits_value(s.drop_last()) * 10 + (s.last() - DIGIT_ZERO)
    }
}

/// `s` is a well-formed decimal numeral whose value fits in a `u64`:
/// non-empty, digits only, value at most `u64::MAX`.
pub open spec fn parses_as_u64(s: Seq<u8>) -> bool {
    s.len() > 0 && all_digits(s) && digits_value(s) <= u64::MAX
}

/// The canonical decimal numeral of `v`: no sign, no leading zero except
/// for the single digit `0` itself.
pub open spec fn decimal_of(v: nat) -> Seq<u8>
    decreases v,
{
    if v < 10 {
        seq![(v + DIGIT_ZERO) as u8]
    } else {
        decimal_of(v / 10).push((v % 10 + DIGIT_ZERO) as u8)
    }
}

/// A numeral made only of digits denotes a non-negative number.
pub proof fn lemma_digits_value_non_negative(s: Seq<u8>)
    requires
        all_digits(s),
    ensures
        digits_value(s) >= 0,
    decreases s.len(),
{
    if s.len() > 0 {
        lemma_digits_value_non_negative(s.drop_last());
    }
}

/// Appending a digit to a numeral never shrinks its value.
pub proof fn lemma_digits_value_grows(s: Seq<u8>)
    requires
        all_digits(s),
        s.len() > 0,
    ensures
        digits_value(s) >= digits_value(s.drop_last()),
{
    lemma_digits_value_non_negative(s.drop_last());
}

/// The value of a prefix never exceeds the value of the whole numeral.
pub proof fn lemma_digits_value_prefix(s: Seq<u8>, i: int)
    requires
        all_digits(s),
        0 <= i <= s.len(),
    ensures
        digits_value(s.take(i)) <= digits_value(s),
    decreases s.len() - i,
{
    if i < s.len() {
        lemma_digits_value_prefix(s, i + 1);
        assert(s.take(i + 1).drop_last() =~= s.take(i));
        assert(all_digits(s.take(i + 1)));
        lemma_digits_value_grows(s.take(i + 1));
    } else {
        assert(s.take(i) =~= s);
    }
}

/// Parse a decimal numeral. Returns the denoted value exactly when the bytes
/// form a numeral whose value fits in a `u64`; returns `None` on empty input,
/// on any non-digit byte, and on overflow.
pub fn parse_u64(s: &Vec<u8>) -> (r: Option<u64>)
    ensures
        r is Some <==> parses_as_u64(s@),
        r is Some ==> r->0 == digits_value(s@),
{
    if s.len() == 0 {
        return None;
    }
    let mut acc: u64 = 0;
    let mut i: usize = 0;
    while i < s.len()
        invariant
            0 <= i <= s@.len(),
            all_digits(s@.take(i as int)),
            acc == digits_value(s@.take(i as int)),
        decreases s@.len() - i,
    {
        let b = s[i];
        if b < DIGIT_ZERO || b > DIGIT_ZERO + 9 {
            assert(!is_ascii_digit(s@[i as int]));
            return None;
        }
        let d = b - DIGIT_ZERO;
        proof {
            assert(s@.take(i + 1).drop_last() =~= s@.take(i as int));
            lemma_digits_value_non_negative(s@.take(i as int));
        }
        if acc > (u64::MAX - d as u64) / 10 {
            proof {
                assert(digits_value(s@.take(i + 1)) > u64::MAX) by {
                    let m = u64::MAX as int;
                    let dd = d as int;
                    // acc * 10 + dd > m follows from acc > (m - dd) / 10.
                    vstd::arithmetic::div_mod::lemma_fundamental_div_mod(m - dd, 10);
                    vstd::arithmetic::div_mod::lemma_mod_bound(m - dd, 10);
                    assert(acc >= (m - dd) / 10 + 1);
                    assert(acc * 10 >= ((m - dd) / 10 + 1) * 10) by (nonlinear_arith)
                        requires acc >= (m - dd) / 10 + 1;
                    assert(((m - dd) / 10 + 1) * 10 == 10 * ((m - dd) / 10) + 10);
                }
                if all_digits(s@) {
                    lemma_digits_value_prefix(s@, i + 1);
                }
            }
            return None;
        }
        assert(acc * 10 + d <= u64::MAX) by {
            let m = u64::MAX as int;
            let dd = d as int;
            vstd::arithmetic::div_mod::lemma_fundamental_div_mod(m - dd, 10);
            vstd::arithmetic::div_mod::lemma_mod_bound(m - dd, 10);
            assert(acc <= (m - dd) / 10);
            assert(acc * 10 <= ((m - dd) / 10) * 10) by (nonlinear_arith)
                requires acc <= (m - dd) / 10;
        }
        acc = acc * 10 + d as u64;
        i = i + 1;
    }
    proof {
        assert(s@.take(i as int) =~= s@);
    }
    Some(acc)
}

/// Render `v` as its canonical decimal numeral.
pub fn format_u64(v: u64) -> (r: Vec<u8>)
    ensures
        r@ == decimal_of(v as nat),
    decreases v,
{
    if v < 10 {
        let mut r: Vec<u8> = Vec::new();
        r.push(v as u8 + DIGIT_ZERO);
        proof {
            assert(r@ =~= decimal_of(v as nat));
        }
        r
    } else {
        let mut r = format_u64(v / 10);
        r.push((v % 10) as u8 + DIGIT_ZERO);
        proof {
            assert(r@ =~= decimal_of(v as nat));
        }
        r
    }
}

/// The canonical numeral of any value is a numeral: non-empty and all digits.
pub proof fn lemma_decimal_is_numeral(v: nat)
    ensures
        decimal_of(v).len() > 0,
        all_digits(decimal_of(v)),
    decreases v,
{
    if v >= 10 {
        lemma_decimal_is_numeral(v / 10);
        vstd::arithmetic::div_mod::lemma_mod_bound(v as int, 10);
        assert forall|i: int| 0 <= i < decimal_of(v).len() implies
            is_ascii_digit(#[trigger] decimal_of(v)[i]) by {
            if i < decimal_of(v / 10).len() {
                assert(decimal_of(v)[i] == decimal_of(v / 10)[i]);
            }
        }
    }
}

/// Rendering and parsing round-trip: the canonical numeral of `v` parses
/// back to `v` exactly.
pub proof fn lemma_decimal_round_trip(v: u64)
    ensures
        parses_as_u64(decimal_of(v as nat)),
        digits_value(decimal_of(v as nat)) == v,
{
    lemma_decimal_is_numeral(v as nat);
    lemma_decimal_value(v as nat);
}

/// The canonical numeral of `v` denotes `v`.
pub proof fn lemma_decimal_value(v: nat)
    ensures
        digits_value(decimal_of(v)) == v,
    decreases v,
{
    if v < 10 {
        assert(decimal_of(v) == seq![(v + DIGIT_ZERO) as u8]);
        assert(decimal_of(v).drop_last() =~= Seq::<u8>::empty());
        assert(decimal_of(v).last() == (v + DIGIT_ZERO) as u8);
        assert(digits_value(Seq::<u8>::empty()) == 0);
        assert(digits_value(decimal_of(v)) == digits_value(decimal_of(v).drop_last()) * 10
            + (decimal_of(v).last() - DIGIT_ZERO));
    } else {
        lemma_decimal_value(v / 10);
        vstd::arithmetic::div_mod::lemma_mod_bound(v as int, 10);
        assert(decimal_of(v).drop_last() =~= decimal_of(v / 10));
        assert(decimal_of(v).last() == (v % 10 + DIGIT_ZERO) as u8);
        vstd::arithmetic::div_mod::lemma_fundamental_div_mod(v as int, 10);
        assert(digits_value(decimal_of(v)) == digits_value(decimal_of(v / 10)) * 10 + (v % 10));
    }
}

} // verus!
