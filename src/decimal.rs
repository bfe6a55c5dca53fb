//! Decimal numbers in request parameters.
use vstd::prelude::*;
use crate::error::ErrorKind;

verus! {

pub open spec fn is_digit(c: char) -> bool {
    '0' <= c && c <= '9'
}

/// A non-empty run of ASCII digits.
pub open spec fn is_decimal(s: Seq<char>) -> bool {
    s.len() > 0 && forall|i: int| 0 <= i < s.len() ==> is_digit(#[trigger] s[i])
}

/// Value of a run of digits, most significant first.
pub open spec fn digits_value(s: Seq<char>) -> nat
    decreases s.len(),
{
    if s.len() == 0 {
        0
    } else {
        digits_value(s.drop_last()) * 10 + ((s.last() as u32) - ('0' as u32)) as nat
    }
}

/// Result of reading `s` as an unsigned 64-bit decimal number.
pub open spec fn parse_spec(s: Seq<char>) -> Result<u64, ErrorKind> {
    if !is_decimal(s) {
        Err(ErrorKind::Parse)
    } else if digits_value(s) > u64::MAX {
        Err(ErrorKind::Validation)
    } else {
        Ok(digits_value(s) as u64)
    }
}

proof fn lemma_prefix_value_grows(s: Seq<char>, i: int, j: int)
    requires
        0 <= i <= j <= s.len(),
        forall|k: int| 0 <= k < s.len() ==> is_digit(#[trigger] s[k]),
    ensures
        digits_value(s.take(i)) <= digits_value(s.take(j)),
    decreases j - i,
{
    if i < j {
        lemma_prefix_value_grows(s, i, j - 1);
        assert(s.take(j).drop_last() =~= s.take(j - 1));
    }
}

/// Reads `s` as an unsigned decimal number: a parse error unless it is a
/// non-empty run of digits, a validation error when the value does not fit
/// in 64 bits.
pub fn parse_decimal(s: &str) -> (r: Result<u64, ErrorKind>)
    ensures
        r == parse_spec(s@),
{
    let n = s.unicode_len();
    let mut acc: u64 = 0;
    let mut too_large = false;
    let mut i: usize = 0;
    while i < n
        invariant
            n == s@.len(),
            i <= n,
            forall|k: int| 0 <= k < i ==> is_digit(#[trigger] s@[k]),
            !too_large ==> acc as nat == digits_value(s@.take(i as int)),
            too_large ==> digits_value(s@.take(i as int)) > u64::MAX,
        decreases n - i,
    {
        let c = s.get_char(i);
        if c < '0' || c > '9' {
            return Err(ErrorKind::Parse);
        }
        let d: u64 = ((c as u32) - ('0' as u32)) as u64;
        proof {
            assert(s@.take(i + 1).drop_last() =~= s@.take(i as int));
            assert(s@.take(i + 1).last() == c);
            assert(forall|k: int| 0 <= k < s@.take(i + 1).len() ==> is_digit(#[trigger] s@.take(i + 1)[k]));
            lemma_prefix_value_grows(s@.take(i + 1), i as int, i + 1);
            assert(s@.take(i + 1).take(i as int) =~= s@.take(i as int));
            assert(s@.take(i + 1).take(i + 1) =~= s@.take(i + 1));
        }
        if !too_large {
            if acc > (u64::MAX - d) / 10 {
                assert(acc * 10 + d > u64::MAX) by (nonlinear_arith)
                    requires
                        acc > (u64::MAX - d) / 10,
                        d <= 9,
                ;
                too_large = true;
            } else {
                assert(acc * 10 + d <= u64::MAX) by (nonlinear_arith)
                    requires
                        acc <= (u64::MAX - d) / 10,
                        d <= 9,
                ;
                acc = acc * 10 + d;
            }
        }
        i = i + 1;
    }
    assert(s@.take(n as int) =~= s@);
    if n == 0 {
        Err(ErrorKind::Parse)
    } else if too_large {
        Err(ErrorKind::Validation)
    } else {
        Ok(acc)
    }
}

} // verus!
