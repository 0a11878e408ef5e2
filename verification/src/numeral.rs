//! Decimal renderings of unsigned numbers, and parsing them back.
//!
//! The pipeline turns numbers into text (the application id in a signed
//! assertion, branch names derived from a pull-request number) and reads
//! numbers out of text it does not trust (the review position an external
//! service reports). Both directions carry exact contracts, and rendering
//! followed by parsing is proved to give the number back.

use vstd::prelude::*;
use vstd::string::StrSliceExecFns;

verus! {

/// Relies on std's String::push: appends the character to the string.
pub assume_specification[ String::push ](s: &mut String, c: char)
    ensures
        final(s)@ == old(s)@.push(c),
;

/// The digit character for a value below ten.
pub open spec fn dec_digit(d: int) -> char {
    if d == 0 {
        '0'
    } else if d == 1 {
        '1'
    } else if d == 2 {
        '2'
    } else if d == 3 {
        '3'
    } else if d == 4 {
        '4'
    } else if d == 5 {
        '5'
    } else if d == 6 {
        '6'
    } else if d == 7 {
        '7'
    } else if d == 8 {
        '8'
    } else {
        '9'
    }
}

/// The value of a digit character.
pub open spec fn dec_val(c: char) -> int {
    c as u32 - '0' as u32
}

/// Whether a character is a decimal digit.
pub open spec fn is_dec_digit(c: char) -> bool {
    '0' as u32 <= c as u32 && c as u32 <= '9' as u32
}

/// The usual decimal rendering of a non-negative number: no sign, and no
/// leading zero except for the number zero itself.
pub open spec fn dec_rendering(n: int) -> Seq<char>
    recommends
        n >= 0,
    decreases n,
{
    if n < 10 {
        seq![dec_digit(n)]
    } else {
        dec_rendering(n / 10).push(dec_digit(n % 10))
    }
}

/// The number a sequence of digit characters denotes.
pub open spec fn digits_val(s: Seq<char>) -> int
    decreases s.len(),
{
    if s.len() == 0 {
        0
    } else {
        digits_val(s.drop_last()) * 10 + dec_val(s.last())
    }
}

/// The parse of a decimal numeral: defined exactly on non-empty all-digit
/// text whose value fits in a `u64`. Leading zeros are accepted.
pub open spec fn parsed_u64(s: Seq<char>) -> Option<u64> {
    if s.len() > 0 && (forall|i: int| 0 <= i < s.len() ==> is_dec_digit(#[trigger] s[i]))
        && digits_val(s) <= u64::MAX {
        Some(digits_val(s) as u64)
    } else {
        None
    }
}

proof fn lemma_dec_digit_val(d: int)
    requires
        0 <= d < 10,
    ensures
        is_dec_digit(dec_digit(d)),
        dec_val(dec_digit(d)) == d,
{
}

/// A decimal rendering is never empty, consists of digit characters, and
/// denotes the number it was rendered from.
pub proof fn lemma_dec_rendering_digits(n: int)
    requires
        n >= 0,
    ensures
        dec_rendering(n).len() >= 1,
        forall|i: int|
            0 <= i < dec_rendering(n).len() ==> is_dec_digit(#[trigger] dec_rendering(n)[i]),
        digits_val(dec_rendering(n)) == n,
    decreases n,
{
    if n < 10 {
        lemma_dec_digit_val(n);
        let r = dec_rendering(n);
        assert(r =~= seq![dec_digit(n)]);
        assert(r.drop_last() =~= Seq::<char>::empty());
        assert(digits_val(r) == digits_val(r.drop_last()) * 10 + dec_val(r.last()));
        assert(digits_val(Seq::<char>::empty()) == 0);
    } else {
        lemma_dec_rendering_digits(n / 10);
        lemma_dec_digit_val(n % 10);
        let r = dec_rendering(n);
        assert(r =~= dec_rendering(n / 10).push(dec_digit(n % 10)));
        assert(r.drop_last() =~= dec_rendering(n / 10));
        assert(r.last() == dec_digit(n % 10));
        assert(digits_val(r) == digits_val(r.drop_last()) * 10 + dec_val(r.last()));
        assert(digits_val(r) == (n / 10) * 10 + n % 10);
    }
}

/// Rendering a number and parsing the text back yields the number again.
pub proof fn lemma_dec_rendering_roundtrip(n: u64)
    ensures
        parsed_u64(dec_rendering(n as int)) == Some(n),
{
    lemma_dec_rendering_digits(n as int);
}

/// Two different numbers never share a decimal rendering.
pub proof fn lemma_dec_rendering_injective(a: u64, b: u64)
    requires
        dec_rendering(a as int) == dec_rendering(b as int),
    ensures
        a == b,
{
    lemma_dec_rendering_roundtrip(a);
    lemma_dec_rendering_roundtrip(b);
}

fn dec_digit_exec(d: u64) -> (c: char)
    requires
        d < 10,
    ensures
        c == dec_digit(d as int),
{
    if d == 0 {
        '0'
    } else if d == 1 {
        '1'
    } else if d == 2 {
        '2'
    } else if d == 3 {
        '3'
    } else if d == 4 {
        '4'
    } else if d == 5 {
        '5'
    } else if d == 6 {
        '6'
    } else if d == 7 {
        '7'
    } else if d == 8 {
        '8'
    } else {
        '9'
    }
}

/// The decimal rendering of a number.
pub fn u64_to_dec(n: u64) -> (r: String)
    ensures
        r@ == dec_rendering(n as int),
{
    let mut digits: Vec<char> = Vec::new();
    let mut rest: u64 = n;
    loop
        invariant_except_break
            dec_rendering(n as int) == dec_rendering(rest as int) + digits@,
        ensures
            dec_rendering(n as int) == digits@,
        decreases rest,
    {
        let ghost pre = digits@;
        let d = dec_digit_exec(rest % 10);
        digits.insert(0, d);
        proof {
            assert(digits@ =~= seq![d] + pre);
        }
        if rest < 10 {
            proof {
                assert(dec_rendering(rest as int) =~= seq![dec_digit(rest as int)]);
                assert(dec_rendering(rest as int) + pre =~= digits@);
            }
            break;
        }
        proof {
            assert(dec_rendering(rest as int) =~= dec_rendering(rest as int / 10).push(
                dec_digit(rest as int % 10)));
            assert(dec_rendering(rest as int / 10) + digits@ =~= dec_rendering(rest as int)
                + pre);
        }
        rest = rest / 10;
    }
    let mut out = String::new();
    let mut i: usize = 0;
    while i < digits.len()
        invariant
            i <= digits.len(),
            out@ == digits@.subrange(0, i as int),
        decreases digits.len() - i,
    {
        out.push(digits[i]);
        proof {
            assert(digits@.subrange(0, i + 1) =~= digits@.subrange(0, i as int).push(
                digits@[i as int]));
        }
        i = i + 1;
    }
    proof {
        assert(digits@.subrange(0, digits@.len() as int) =~= digits@);
    }
    out
}

proof fn lemma_digits_val_nonneg(s: Seq<char>)
    requires
        forall|i: int| 0 <= i < s.len() ==> is_dec_digit(#[trigger] s[i]),
    ensures
        digits_val(s) >= 0,
    decreases s.len(),
{
    if s.len() > 0 {
        lemma_digits_val_nonneg(s.drop_last());
    }
}

proof fn lemma_digits_val_prefix_le(s: Seq<char>, i: int)
    requires
        0 <= i <= s.len(),
        forall|j: int| 0 <= j < s.len() ==> is_dec_digit(#[trigger] s[j]),
    ensures
        digits_val(s.subrange(0, i)) <= digits_val(s),
    decreases s.len() - i,
{
    if i < s.len() {
        lemma_digits_val_prefix_le(s, i + 1);
        let p = s.subrange(0, i);
        let q = s.subrange(0, i + 1);
        assert(q.drop_last() =~= p);
        assert(digits_val(q) == digits_val(p) * 10 + dec_val(q.last()));
        lemma_digits_val_nonneg(p);
    } else {
        assert(s.subrange(0, i) =~= s);
    }
}

/// Parse a decimal numeral: `Some` exactly on non-empty all-digit text whose
/// value fits in a `u64`.
pub fn parse_u64(s: &str) -> (r: Option<u64>)
    ensures
        r == parsed_u64(s@),
{
    let n = s.unicode_len();
    if n == 0 {
        return None;
    }
    let mut val: u64 = 0;
    let mut i: usize = 0;
    while i < n
        invariant
            n == s@.len(),
            n > 0,
            i <= n,
            forall|j: int| 0 <= j < i ==> is_dec_digit(#[trigger] s@[j]),
            val == digits_val(s@.subrange(0, i as int)),
        decreases n - i,
    {
        let c = s.get_char(i);
        let cv = c as u32;
        if cv < 48 || cv > 57 {
            return None;
        }
        let d = (cv - 48) as u64;
        proof {
            assert(s@.subrange(0, i + 1).drop_last() =~= s@.subrange(0, i as int));
            assert(digits_val(s@.subrange(0, i + 1)) == val * 10 + d);
        }
        if val > (u64::MAX - d) / 10 {
            proof {
                assert(val * 10 + d > u64::MAX) by (nonlinear_arith)
                    requires
                        val > (u64::MAX - d) / 10,
                        d < 10,
                ;
                if forall|j: int| 0 <= j < s@.len() ==> is_dec_digit(#[trigger] s@[j]) {
                    lemma_digits_val_prefix_le(s@, i + 1);
                }
            }
            return None;
        }
        val = val * 10 + d;
        i = i + 1;
    }
    proof {
        assert(s@.subrange(0, n as int) =~= s@);
    }
    Some(val)
}

} // verus!
