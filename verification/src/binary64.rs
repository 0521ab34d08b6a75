//! Reading an IEEE 754 binary64 number from its bit pattern (what
//! `f64::to_bits` gives): comparing it with a whole number and writing it
//! rounded to a whole number, as `{:.0}` does.

use crate::text::{decimal, push_decimal, push_str};
use crate::utils::round_half_even;
use vstd::arithmetic::power2::{lemma2_to64, lemma2_to64_rest, lemma_pow2_pos, lemma_pow2_strictly_increases, lemma_pow2_unfold, pow2};
use vstd::prelude::*;

verus! {

/// The 52 fraction bits.
pub open spec fn fraction_bits(bits: u64) -> nat {
    (bits as nat) % 4503599627370496
}

/// The 11 exponent bits.
pub open spec fn exponent_bits(bits: u64) -> nat {
    ((bits as nat) / 4503599627370496) % 2048
}

/// The sign bit is set.
pub open spec fn is_negative(bits: u64) -> bool {
    bits as nat >= 9223372036854775808
}

pub open spec fn is_nan(bits: u64) -> bool {
    exponent_bits(bits) == 2047 && fraction_bits(bits) != 0
}

pub open spec fn is_infinite(bits: u64) -> bool {
    exponent_bits(bits) == 2047 && fraction_bits(bits) == 0
}

/// For a finite number: its magnitude is `significand * 2^scale`.
pub open spec fn significand(bits: u64) -> nat {
    if exponent_bits(bits) == 0 {
        fraction_bits(bits)
    } else {
        fraction_bits(bits) + 4503599627370496
    }
}

pub open spec fn scale(bits: u64) -> int {
    if exponent_bits(bits) == 0 {
        -1074
    } else {
        exponent_bits(bits) - 1075
    }
}

/// A finite number's magnitude is below `t`.
pub open spec fn magnitude_below(bits: u64, t: nat) -> bool {
    let m = significand(bits);
    let e = scale(bits);
    if e >= 0 {
        m * pow2(e as nat) < t
    } else {
        m < t * pow2((-e) as nat)
    }
}

/// The number is less than `t` (false for NaN).
pub open spec fn less_than(bits: u64, t: nat) -> bool {
    if is_nan(bits) {
        false
    } else if is_negative(bits) {
        is_infinite(bits) || significand(bits) != 0 || t > 0
    } else if is_infinite(bits) {
        false
    } else {
        magnitude_below(bits, t)
    }
}

/// The number is at least `t` (false for NaN).
pub open spec fn at_least(bits: u64, t: nat) -> bool {
    !is_nan(bits) && !less_than(bits, t)
}

/// A finite number's magnitude rounded to a whole number, ties to even.
pub open spec fn rounded_magnitude(bits: u64) -> nat {
    let m = significand(bits);
    let e = scale(bits);
    if e >= 0 {
        m * pow2(e as nat)
    } else {
        round_half_even(m, pow2((-e) as nat))
    }
}

/// The number written with no decimals: `NaN`, `inf`, `-inf`, or the
/// rounded magnitude with a `-` in front when the sign bit is set.
pub open spec fn whole_number_text(bits: u64) -> Seq<char> {
    if is_nan(bits) {
        "NaN"@
    } else {
        let mag = if is_infinite(bits) { "inf"@ } else { decimal(rounded_magnitude(bits)) };
        if is_negative(bits) { "-"@ + mag } else { mag }
    }
}

fn pow2_u128(k: u64) -> (p: u128)
    requires
        k <= 64,
    ensures
        p == pow2(k as nat),
        p >= 1,
{
    let mut p: u128 = 1;
    let mut i: u64 = 0;
    proof {
        lemma2_to64();
    }
    while i < k
        invariant
            i <= k <= 64,
            p == pow2(i as nat),
            pow2(64) == 0x10000000000000000,
        decreases k - i,
    {
        proof {
            lemma_pow2_strictly_increases(i as nat, 64);
            lemma_pow2_unfold((i + 1) as nat);
        }
        p = p * 2;
        i = i + 1;
    }
    proof {
        lemma_pow2_pos(k as nat);
    }
    p
}

struct Parts {
    negative: bool,
    exponent: u64,
    fraction: u64,
}

fn parts(bits: u64) -> (r: Parts)
    ensures
        r.negative == is_negative(bits),
        r.exponent == exponent_bits(bits),
        r.fraction == fraction_bits(bits),
{
    Parts {
        negative: bits >= 9223372036854775808,
        exponent: (bits / 4503599627370496) % 2048,
        fraction: bits % 4503599627370496,
    }
}

/// Whether the number with bit pattern `bits` is less than `t`.
pub fn bits_less_than(bits: u64, t: u8) -> (r: bool)
    ensures
        r == less_than(bits, t as nat),
{
    let p = parts(bits);
    if p.exponent == 2047 && p.fraction != 0 {
        return false;
    }
    if p.negative {
        return p.exponent == 2047 || p.exponent != 0 || p.fraction != 0 || t > 0;
    }
    if p.exponent == 2047 {
        return false;
    }
    let m: u64 = if p.exponent == 0 { p.fraction } else { p.fraction + 4503599627370496 };
    if p.exponent >= 1075 {
        proof {
            lemma_pow2_pos((exponent_bits(bits) - 1075) as nat);
            assert(m * pow2((exponent_bits(bits) - 1075) as nat) >= m) by (nonlinear_arith)
                requires
                    pow2((exponent_bits(bits) - 1075) as nat) >= 1,
            ;
        }
        return false;
    }
    let k: u64 = if p.exponent == 0 { 1074 } else { 1075 - p.exponent };
    assert(k as int == -scale(bits));
    if k >= 64 {
        proof {
            lemma2_to64();
            if k > 64 {
                lemma_pow2_strictly_increases(64, k as nat);
            }
            assert(t > 0 ==> m < t * pow2(k as nat)) by (nonlinear_arith)
                requires
                    pow2(k as nat) >= 0x10000000000000000,
                    m < 0x10000000000000000,
            ;
            assert(t == 0 ==> t * pow2(k as nat) == 0);
        }
        return t > 0;
    }
    let pk = pow2_u128(k);
    proof {
        lemma2_to64();
        lemma_pow2_strictly_increases(k as nat, 64);
        assert((t as u128) * pk <= 255 * 0x10000000000000000) by (nonlinear_arith)
            requires
                pk < 0x10000000000000000,
                t <= 255,
        ;
    }
    (m as u128) < (t as u128) * pk
}

/// Whether the number with bit pattern `bits` is at least `t`.
pub fn bits_at_least(bits: u64, t: u8) -> (r: bool)
    ensures
        r == at_least(bits, t as nat),
{
    let p = parts(bits);
    let nan = p.exponent == 2047 && p.fraction != 0;
    !nan && !bits_less_than(bits, t)
}

/// The number whose decimal digits, least significant first, are `ds`.
spec fn digits_value(ds: Seq<u8>) -> nat
    decreases ds.len(),
{
    if ds.len() == 0 {
        0
    } else {
        ds[0] as nat + 10 * digits_value(ds.drop_first())
    }
}

/// Every entry is a decimal digit and the most significant one is not zero.
spec fn proper_digits(ds: Seq<u8>) -> bool {
    &&& forall|i: int| 0 <= i < ds.len() ==> #[trigger] ds[i] < 10
    &&& ds.len() > 0 ==> ds.last() != 0
}

/// The digits of twice the number `ds` plus `carry`, computed digit by
/// digit from the least significant one.
spec fn doubled(ds: Seq<u8>, carry: nat) -> Seq<u8>
    decreases ds.len(),
{
    if ds.len() == 0 {
        if carry == 0 { Seq::empty() } else { seq![carry as u8] }
    } else {
        let x: nat = (2 * ds[0] + carry) as nat;
        seq![(x % 10) as u8] + doubled(ds.drop_first(), x / 10)
    }
}

proof fn lemma_doubled(ds: Seq<u8>, carry: nat)
    requires
        forall|i: int| 0 <= i < ds.len() ==> #[trigger] ds[i] < 10,
        carry <= 1,
    ensures
        digits_value(doubled(ds, carry)) == 2 * digits_value(ds) + carry,
        forall|i: int| 0 <= i < doubled(ds, carry).len() ==> #[trigger] doubled(ds, carry)[i] < 10,
        ds.len() > 0 && ds.last() != 0 ==> doubled(ds, carry).len() > 0 && doubled(ds, carry).last() != 0,
        ds.len() == 0 && carry == 1 ==> doubled(ds, carry) == seq![1u8],
    decreases ds.len(),
{
    if ds.len() == 0 {
        let r = doubled(ds, carry);
        if carry == 1 {
            assert(r =~= seq![1u8]);
            assert(r.drop_first() =~= Seq::<u8>::empty());
            assert(digits_value(r.drop_first()) == 0);
            assert(digits_value(r) == 1);
        } else {
            assert(r =~= Seq::<u8>::empty());
        }
    } else {
        let x: nat = (2 * ds[0] + carry) as nat;
        let rest = ds.drop_first();
        assert forall|i: int| 0 <= i < rest.len() implies #[trigger] rest[i] < 10 by {
            assert(rest[i] == ds[i + 1]);
        }
        lemma_doubled(rest, x / 10);
        let r = doubled(ds, carry);
        assert(r == seq![(x % 10) as u8] + doubled(rest, x / 10));
        assert(r.drop_first() =~= doubled(rest, x / 10));
        assert(r[0] == (x % 10) as u8);
        assert(x % 10 + 10 * (x / 10) == x);
        assert(digits_value(r) == (x % 10) + 10 * digits_value(doubled(rest, x / 10)));
        assert(digits_value(ds) == ds[0] + 10 * digits_value(rest));
        assert(digits_value(doubled(rest, x / 10)) == 2 * digits_value(rest) + x / 10);
        assert(digits_value(r) == 2 * digits_value(ds) + carry);
        assert forall|i: int| 0 <= i < r.len() implies #[trigger] r[i] < 10 by {
            if i > 0 {
                assert(r[i] == doubled(rest, x / 10)[i - 1]);
            }
        }
        if ds.last() != 0 {
            if rest.len() > 0 {
                assert(rest.last() == ds.last());
                assert(r.last() == doubled(rest, x / 10).last());
            } else {
                assert(ds.len() == 1 && ds[0] == ds.last());
                if x / 10 == 0 {
                    assert(r =~= seq![(x % 10) as u8]);
                } else {
                    assert(doubled(rest, x / 10) == seq![1u8]);
                    assert(r.last() == 1u8);
                }
            }
        }
    }
}

proof fn lemma_digits_positive(ds: Seq<u8>)
    requires
        proper_digits(ds),
        ds.len() > 0,
    ensures
        digits_value(ds) >= 1,
        ds.len() >= 2 ==> digits_value(ds) >= 10,
    decreases ds.len(),
{
    if ds.len() >= 2 {
        let rest = ds.drop_first();
        assert(rest.last() == ds.last());
        assert forall|i: int| 0 <= i < rest.len() implies #[trigger] rest[i] < 10 by {
            assert(rest[i] == ds[i + 1]);
        }
        lemma_digits_positive(rest);
    }
}

/// The text of a number given by its proper digits.
spec fn digits_text(ds: Seq<u8>) -> Seq<char> {
    Seq::new(ds.len(), |i: int| crate::text::digit_char(ds[ds.len() - 1 - i] as int))
}

proof fn lemma_digits_text(ds: Seq<u8>)
    requires
        proper_digits(ds),
        ds.len() > 0,
    ensures
        decimal(digits_value(ds)) == digits_text(ds),
    decreases ds.len(),
{
    let n = digits_value(ds);
    lemma_digits_positive(ds);
    if ds.len() == 1 {
        assert(ds.drop_first() =~= Seq::<u8>::empty());
        assert(digits_value(ds.drop_first()) == 0);
        assert(n == ds[0]);
        assert(decimal(n) =~= digits_text(ds));
    } else {
        let rest = ds.drop_first();
        assert(rest.last() == ds.last());
        assert forall|i: int| 0 <= i < rest.len() implies #[trigger] rest[i] < 10 by {
            assert(rest[i] == ds[i + 1]);
        }
        lemma_digits_text(rest);
        assert(n / 10 == digits_value(rest) && n % 10 == ds[0]);
        assert(decimal(n) == decimal(n / 10).push(crate::text::digit_char((n % 10) as int)));
        assert(decimal(n) =~= digits_text(ds));
    }
}

/// The digits of `n`, least significant first.
fn digits_of(n: u64) -> (ds: Vec<u8>)
    ensures
        digits_value(ds@) == n,
        proper_digits(ds@),
    decreases n,
{
    if n == 0 {
        Vec::new()
    } else {
        let mut ds: Vec<u8> = Vec::new();
        ds.push((n % 10) as u8);
        let mut rest = digits_of(n / 10);
        let ghost r = rest@;
        ds.append(&mut rest);
        proof {
            assert(ds@ =~= seq![(n % 10) as u8] + r);
            assert(ds@.drop_first() =~= r);
            if r.len() > 0 {
                assert(ds@.last() == r.last());
            }
        }
        ds
    }
}

/// Twice the number with digits `ds`.
fn double_digits(ds: &Vec<u8>) -> (r: Vec<u8>)
    requires
        proper_digits(ds@),
    ensures
        r@ == doubled(ds@, 0),
{
    let mut r: Vec<u8> = Vec::new();
    let mut carry: u8 = 0;
    let n = ds.len();
    let mut i: usize = 0;
    assert(ds@.skip(0) =~= ds@);
    while i < n
        invariant
            n == ds@.len(),
            i <= n,
            carry <= 1,
            proper_digits(ds@),
            doubled(ds@, 0) == r@ + doubled(ds@.skip(i as int), carry as nat),
        decreases n - i,
    {
        let d = ds[i];
        let x: u8 = 2 * d + carry;
        proof {
            let s = ds@.skip(i as int);
            assert(s[0] == d);
            assert(s.drop_first() =~= ds@.skip(i + 1));
            assert(doubled(s, carry as nat) == seq![(x % 10) as u8] + doubled(ds@.skip(i + 1), (x / 10) as nat));
        }
        r.push(x % 10);
        carry = x / 10;
        i += 1;
        proof {
            assert(doubled(ds@, 0) =~= r@ + doubled(ds@.skip(i as int), carry as nat));
        }
    }
    assert(ds@.skip(n as int) =~= Seq::<u8>::empty());
    if carry > 0 {
        r.push(carry);
    }
    assert(r@ =~= doubled(ds@, 0));
    r
}

/// Appends `m * 2^e` in decimal.
fn push_scaled(s: &mut String, m: u64, e: u64)
    requires
        m > 0,
    ensures
        final(s)@ == old(s)@ + decimal(m as nat * pow2(e as nat)),
{
    let mut ds = digits_of(m);
    let mut k: u64 = 0;
    proof {
        assert(pow2(0) == 1) by {
            lemma2_to64();
        }
    }
    while k < e
        invariant
            k <= e,
            proper_digits(ds@),
            ds@.len() > 0,
            digits_value(ds@) == m as nat * pow2(k as nat),
        decreases e - k,
    {
        proof {
            lemma_doubled(ds@, 0);
            lemma_pow2_unfold((k + 1) as nat);
            assert(m as nat * pow2((k + 1) as nat) == 2 * (m as nat * pow2(k as nat))) by (nonlinear_arith)
                requires
                    pow2((k + 1) as nat) == 2 * pow2(k as nat),
            ;
        }
        ds = double_digits(&ds);
        k += 1;
    }
    proof {
        lemma_digits_text(ds@);
    }
    let n = ds.len();
    let mut j: usize = 0;
    let ghost start = s@;
    while j < n
        invariant
            n == ds@.len(),
            j <= n,
            proper_digits(ds@),
            s@ == start + digits_text(ds@).take(j as int),
        decreases n - j,
    {
        let d = ds[n - 1 - j];
        crate::text::push_digit(s, d as u128);
        j += 1;
        assert(s@ =~= start + digits_text(ds@).take(j as int));
    }
    assert(digits_text(ds@).take(n as int) =~= digits_text(ds@));
}

/// Appends the number with bit pattern `bits`, rounded to a whole number.
pub fn push_whole_number(s: &mut String, bits: u64)
    ensures
        final(s)@ == old(s)@ + whole_number_text(bits),
{
    let p = parts(bits);
    if p.exponent == 2047 && p.fraction != 0 {
        push_str(s, "NaN");
        return;
    }
    if p.negative {
        push_str(s, "-");
    }
    if p.exponent == 2047 {
        push_str(s, "inf");
        assert(s@ =~= old(s)@ + whole_number_text(bits));
        return;
    }
    let m: u64 = if p.exponent == 0 { p.fraction } else { p.fraction + 4503599627370496 };
    assert(m == significand(bits));
    if p.exponent >= 1075 {
        // A whole number `m * 2^e`, possibly far beyond 128 bits.
        let e = p.exponent - 1075;
        push_scaled(s, m, e);
        assert(s@ =~= old(s)@ + whole_number_text(bits));
        return;
    }
    let k: u64 = if p.exponent == 0 { 1074 } else { 1075 - p.exponent };
    assert(k as int == -scale(bits));
    let rounded: u128 = if k >= 64 {
        proof {
            lemma2_to64();
            lemma2_to64_rest();
            if k > 64 {
                lemma_pow2_strictly_increases(64, k as nat);
            }
            let u = pow2(k as nat);
            assert(m as nat / u == 0 && m as nat % u == m) by (nonlinear_arith)
                requires
                    u >= 0x10000000000000000,
                    m < 0x20000000000000,
            ;
        }
        0
    } else {
        let pk = pow2_u128(k);
        crate::utils::rounded_div(m as u128, pk)
    };
    assert(rounded == rounded_magnitude(bits));
    push_decimal(s, rounded);
    assert(s@ =~= old(s)@ + whole_number_text(bits));
}

} // verus!
