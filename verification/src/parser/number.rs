//! Exact value of number tokens.

use vstd::prelude::*;
use super::ast::Decimal;
use super::lexer::{is_digit, scan_digits};

verus! {

/// Value of a digit character (zero for any other character).
pub open spec fn digit_value(c: char) -> nat {
    if is_digit(c) {
        ((c as int) - 48) as nat
    } else {
        0
    }
}

fn exec_digit_value(c: char) -> (r: u64)
    ensures
        r == digit_value(c),
        r <= 9,
{
    if '0' <= c && c <= '9' {
        (c as u64) - 48
    } else {
        0
    }
}

/// Value of a string of decimal digits (most significant first).
pub open spec fn digits_value(s: Seq<char>) -> nat
    decreases s.len(),
{
    if s.len() == 0 {
        0
    } else {
        digits_value(s.drop_last()) * 10 + digit_value(s.last())
    }
}

/// The digit string without its trailing zeros.
pub open spec fn strip_zeros(f: Seq<char>) -> Seq<char>
    decreases f.len(),
{
    if f.len() > 0 && f.last() == '0' {
        strip_zeros(f.drop_last())
    } else {
        f
    }
}

/// How many leading digits of `ds`, from the `k`-th on, can be taken while
/// their value still fits in `i64`.
pub open spec fn kept_digits(ds: Seq<char>, k: nat) -> nat
    decreases ds.len() - k,
{
    if k < ds.len() && digits_value(ds.take(k + 1 as int)) <= i64::MAX {
        kept_digits(ds, k + 1)
    } else {
        k
    }
}

/// The decimal written by a number token `-?digits(.digits)?`.
///
/// The digits are kept from the left for as long as their value fits in
/// `i64`; the digits after them are dropped. Dropped fraction digits
/// shorten the decimal; dropped integer digits are made up for by a
/// negative scale, so the number keeps its magnitude. Trailing zeros after
/// the decimal point are dropped too.
pub open spec fn decimal_of_text(t: Seq<char>) -> Decimal {
    let neg = t.len() > 0 && t[0] == '-';
    let body = if neg { t.drop_first() } else { t };
    let n = scan_digits(body, 0);
    let int_part = body.take(n);
    let raw_frac = if n < body.len() { body.skip(n + 1) } else { Seq::<char>::empty() };
    let ds = int_part + raw_frac;
    let k = kept_digits(ds, 0);
    let m: int = if k < n {
        digits_value(ds.take(k as int)) as int
    } else {
        digits_value(int_part + strip_zeros(raw_frac.take(k - n))) as int
    };
    let scale: int = if k < n {
        k - n
    } else {
        strip_zeros(raw_frac.take(k - n)).len() as int
    };
    Decimal { mantissa: (if neg { -m } else { m }) as i64, scale: scale as i64 }
}

proof fn lemma_digits_value_prefix(s: Seq<char>, k: int)
    requires
        0 <= k <= s.len(),
    ensures
        digits_value(s.take(k)) <= digits_value(s),
    decreases s.len() - k,
{
    if k < s.len() {
        lemma_digits_value_prefix(s, k + 1);
        assert(s.take(k + 1).drop_last() =~= s.take(k));
        assert(digits_value(s.take(k + 1)) == digits_value(s.take(k)) * 10 + digit_value(
            s.take(k + 1).last(),
        ));
    } else {
        assert(s.take(k) =~= s);
    }
}

proof fn lemma_scan_digits_shift(cs: Seq<char>, b: int, e: int, k: int)
    requires
        0 <= b <= k <= e <= cs.len(),
    ensures
        scan_digits(cs.subrange(b, e), k - b) == if k < e && is_digit(cs[k]) {
            scan_digits(cs.subrange(b, e), k + 1 - b)
        } else {
            k - b
        },
{
}

proof fn lemma_strip_zeros_nonzero_or_empty(f: Seq<char>)
    ensures
        strip_zeros(f).len() == 0 || strip_zeros(f).last() != '0',
        strip_zeros(f).len() <= f.len(),
        strip_zeros(f) =~= f.take(strip_zeros(f).len() as int),
    decreases f.len(),
{
    if f.len() > 0 && f.last() == '0' {
        lemma_strip_zeros_nonzero_or_empty(f.drop_last());
    }
}

/// Each digit appended multiplies the value by ten and adds the digit.
proof fn lemma_digits_value_push(s: Seq<char>, c: char)
    ensures
        digits_value(s.push(c)) == digits_value(s) * 10 + digit_value(c),
{
    assert(s.push(c).drop_last() =~= s);
}

/// The decimal written by the characters `start..end` of `cs`.
#[verifier::spinoff_prover]
#[verifier::rlimit(80)]
pub fn decimal_of(cs: &Vec<char>, start: usize, end: usize) -> (r: Decimal)
    requires
        start < end <= cs.len(),
        cs.len() <= isize::MAX,
    ensures
        r == decimal_of_text(cs@.subrange(start as int, end as int)),
{
    let ghost t = cs@.subrange(start as int, end as int);
    let neg = cs[start] == '-';
    let b: usize = if neg { start + 1 } else { start };
    let ghost body = if neg { t.drop_first() } else { t };
    assert(body =~= cs@.subrange(b as int, end as int));
    // Integer digits: b..n.
    let mut n = b;
    while n < end && '0' <= cs[n] && cs[n] <= '9'
        invariant
            b <= n <= end <= cs.len(),
            body =~= cs@.subrange(b as int, end as int),
            scan_digits(body, 0) == scan_digits(body, n - b),
        decreases end - n,
    {
        proof {
            lemma_scan_digits_shift(cs@, b as int, end as int, n as int);
        }
        n = n + 1;
    }
    proof {
        lemma_scan_digits_shift(cs@, b as int, end as int, n as int);
    }
    assert(scan_digits(body, 0) == n - b);
    let ghost int_part = body.take(n - b);
    assert(int_part =~= cs@.subrange(b as int, n as int));
    // Fraction digits: fs..end.
    let fs: usize = if n < end { n + 1 } else { end };
    let ghost raw_frac = if (n - b) < body.len() { body.skip(n - b + 1) } else { Seq::<char>::empty() };
    assert(raw_frac =~= cs@.subrange(fs as int, end as int));
    let ghost ds = int_part + raw_frac;
    let ni: usize = n - b;
    let total: usize = ni + (end - fs);
    assert(ds.len() == total);
    // Digits kept from the left while their value fits in `i64`.
    let mut acc: u64 = 0;
    let mut k: usize = 0;
    let mut full = false;
    assert(ds.take(0) =~= Seq::<char>::empty());
    while k < total && !full
        invariant
            b <= n <= end <= cs.len(),
            fs <= end,
            ni == n - b,
            total == ni + (end - fs),
            ds.len() == total,
            ds == int_part + raw_frac,
            int_part =~= cs@.subrange(b as int, n as int),
            raw_frac =~= cs@.subrange(fs as int, end as int),
            k <= total,
            acc == digits_value(ds.take(k as int)),
            acc <= i64::MAX,
            kept_digits(ds, 0) == kept_digits(ds, k as nat),
            full ==> k < total && digits_value(ds.take(k + 1)) > i64::MAX,
        decreases total - k + (if full { 0int } else { 1int }),
    {
        let pos: usize = if k < ni { b + k } else { fs + (k - ni) };
        assert(ds[k as int] == cs@[pos as int]);
        let d: u64 = exec_digit_value(cs[pos]);
        assert(ds.take(k + 1) =~= ds.take(k as int).push(ds[k as int]));
        proof {
            lemma_digits_value_push(ds.take(k as int), ds[k as int]);
        }
        if acc > (9223372036854775807u64 - d) / 10 {
            assert(acc * 10 + d > 9223372036854775807u64) by (nonlinear_arith)
                requires
                    acc > (9223372036854775807u64 - d) / 10,
                    d <= 9,
            ;
            full = true;
        } else {
            assert(acc * 10 + d <= 9223372036854775807u64) by (nonlinear_arith)
                requires
                    acc <= (9223372036854775807u64 - d) / 10,
                    d <= 9,
            ;
            acc = acc * 10 + d;
            k = k + 1;
        }
    }
    assert(kept_digits(ds, k as nat) == k);
    assert(kept_digits(ds, 0) == k);
    assert(body.take(scan_digits(body, 0)) == int_part);
    let mantissa: u64;
    let scale: i64;
    if k < ni {
        mantissa = acc;
        scale = 0i64 - ((ni - k) as i64);
        assert(mantissa == digits_value(ds.take(k as int)) && scale == k - ni);
    } else {
        // Kept fraction digits: fs..fe, then without their trailing zeros.
        let mut fe: usize = fs + (k - ni);
        let ghost kept = raw_frac.take(k - ni);
        assert(kept =~= cs@.subrange(fs as int, fe as int));
        assert(ds.take(k as int) =~= int_part + kept);
        while fe > fs && cs[fe - 1] == '0'
            invariant
                fs <= fe <= end <= cs.len(),
                strip_zeros(kept) == strip_zeros(cs@.subrange(fs as int, fe as int)),
                acc == digits_value(int_part + cs@.subrange(fs as int, fe as int)),
                acc <= i64::MAX,
            decreases fe - fs,
        {
            let ghost f = cs@.subrange(fs as int, fe as int);
            assert(f.drop_last() =~= cs@.subrange(fs as int, fe - 1));
            assert(int_part + f =~= (int_part + f.drop_last()).push('0'));
            proof {
                lemma_digits_value_push(int_part + f.drop_last(), '0');
            }
            acc = acc / 10;
            fe = fe - 1;
        }
        proof {
            lemma_strip_zeros_nonzero_or_empty(cs@.subrange(fs as int, fe as int));
        }
        assert(strip_zeros(cs@.subrange(fs as int, fe as int)) =~= cs@.subrange(fs as int, fe as int));
        mantissa = acc;
        scale = (fe - fs) as i64;
        assert(mantissa == digits_value(int_part + strip_zeros(raw_frac.take(k - ni))));
        assert(scale == strip_zeros(raw_frac.take(k - ni)).len());
    }
    let m: i64 = mantissa as i64;
    Decimal { mantissa: if neg { -m } else { m }, scale }
}

} // verus!
