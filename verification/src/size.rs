//! Sizes written as decimal numbers with a binary unit.
//!
//! A number like `4.45` is taken as the nearest double precision number, is
//! scaled by a power of two and cut down to whole bytes. All of it is done in
//! integers: the decimal digits are doubled as often as the unit and the 53
//! significant bits ask for, which loses nothing, and rounding happens once.

use vstd::prelude::*;

use crate::text::{self, Deep, Text};

verus! {

// ------------------------------------------------------------ specifications

/// `n` doubled `k` times.
pub open spec fn doubled(n: nat, k: nat) -> nat
    decreases k,
{
    if k == 0 {
        n
    } else {
        2 * doubled(n, (k - 1) as nat)
    }
}

pub open spec fn pow10(k: nat) -> nat
    decreases k,
{
    if k == 0 {
        1
    } else {
        10 * pow10((k - 1) as nat)
    }
}

/// The whole number nearest to `num / den`, the even one of two.
pub open spec fn half_even(num: nat, den: nat) -> nat {
    let low = num / den;
    let rest = num % den;
    if 2 * rest < den || (2 * rest == den && low % 2 == 0) {
        low
    } else {
        low + 1
    }
}

/// The smallest `b` from `k` on with `num / den < 2^b`, at most 64.
pub open spec fn magnitude(num: nat, den: nat, k: nat) -> nat
    decreases 64 - k,
{
    if k >= 64 || num < doubled(den, k) {
        k
    } else {
        magnitude(num, den, k + 1)
    }
}

/// `num / den`, rounded to 53 significant bits and cut down to a whole number
/// of at most 64 bits.
pub open spec fn rounded(num: nat, den: nat) -> nat {
    if 2 * num < den {
        0
    } else if num >= doubled(den, 64) {
        u64::MAX as nat
    } else {
        let b = magnitude(num, den, 0);
        if b <= 53 {
            half_even(doubled(num, (53 - b) as nat), den) / doubled(1, (53 - b) as nat)
        } else {
            let unit = doubled(1, (b - 53) as nat);
            let near = half_even(num, doubled(den, (b - 53) as nat)) * unit;
            if near > u64::MAX {
                u64::MAX as nat
            } else {
                near
            }
        }
    }
}

/// A number as it is written in decimal.
pub enum Decimal {
    NotANumber,
    Infinite { negative: bool },
    /// `0.digits` times ten to the power of `exponent` plus the number of
    /// digits: the digits as a whole number, times a power of ten.
    Finite { negative: bool, digits: Seq<char>, exponent: int },
}

/// An exponent: a sign and digits.
pub open spec fn exponent_spec(s: Seq<char>) -> Option<int> {
    let signed = s.len() > 0 && (s[0] == '-' || s[0] == '+');
    let digits = if signed {
        s.skip(1)
    } else {
        s
    };
    if digits.len() == 0 || !text::all_digits(digits) {
        None
    } else if signed && s[0] == '-' {
        Some(-(text::digits_value(digits) as int))
    } else {
        Some(text::digits_value(digits) as int)
    }
}

/// A number without its sign: digits with at most one point among them, and
/// an exponent behind an `e`.
pub open spec fn unsigned_spec(s: Seq<char>, negative: bool) -> Option<Decimal> {
    let end = text::find_set(s, "eE"@, true) as int;
    let (whole, fraction) = match s.take(end).cut("."@) {
        Some(parts) => parts,
        None => (s.take(end), seq![]),
    };
    let digits = whole + fraction;
    let exponent = if end < s.len() {
        exponent_spec(s.skip(end + 1))
    } else {
        Some(0)
    };
    if digits.len() == 0 || !text::all_digits(digits) || exponent is None {
        None
    } else {
        Some(Decimal::Finite { negative, digits, exponent: exponent->0 - fraction.len() })
    }
}

/// The number that a text writes, if it writes one.
pub open spec fn decimal_spec(s: Seq<char>) -> Option<Decimal> {
    let signed = s.len() > 0 && (s[0] == '-' || s[0] == '+');
    let negative = s.len() > 0 && s[0] == '-';
    let body = if signed {
        s.skip(1)
    } else {
        s
    };
    let word = body.lower();
    if word == "nan"@ {
        Some(Decimal::NotANumber)
    } else if word == "inf"@ || word == "infinity"@ {
        Some(Decimal::Infinite { negative })
    } else {
        unsigned_spec(body, negative)
    }
}

/// The whole bytes in `number` units of two to the power of `shift` bytes: no
/// number and negative ones are none, too many are as many as fit.
pub open spec fn bytes_spec(number: Decimal, shift: nat) -> u64 {
    match number {
        Decimal::NotANumber => 0,
        Decimal::Infinite { negative } => if negative {
            0
        } else {
            u64::MAX
        },
        Decimal::Finite { negative, digits, exponent } => if negative {
            0
        } else if exponent >= 0 {
            rounded(
                doubled(text::digits_value(digits) * pow10(exponent as nat), shift),
                1,
            ) as u64
        } else {
            rounded(
                doubled(text::digits_value(digits), shift),
                pow10((-exponent) as nat),
            ) as u64
        },
    }
}

/// A size: a number, with commas for readability, and a unit. Without a unit
/// the number counts bytes.
pub open spec fn size_spec(
    value: Seq<char>,
    unit: spec_fn(Seq<char>) -> Option<u8>,
) -> Option<u64> {
    let words = value.words();
    if words.len() == 0 {
        None
    } else {
        match decimal_spec(words[0].replace(',', ""@)) {
            None => None,
            Some(number) => match unit(
                if words.len() > 1 {
                    words[1]
                } else {
                    "B"@
                },
            ) {
                None => None,
                Some(shift) => Some(bytes_spec(number, shift as nat)),
            },
        }
    }
}

// ---------------------------------------------------------------- arithmetic

proof fn lemma_pow10_positive(k: nat)
    ensures
        pow10(k) > 0,
    decreases k,
{
    if k > 0 {
        lemma_pow10_positive((k - 1) as nat);
    }
}

proof fn lemma_pow10_adds(a: nat, b: nat)
    ensures
        pow10(a + b) == pow10(a) * pow10(b),
    decreases b,
{
    if b == 0 {
        assert(pow10(a) * 1 == pow10(a));
    } else {
        lemma_pow10_adds(a, (b - 1) as nat);
        assert((a + b - 1) as nat == a + (b - 1) as nat);
        assert(10 * (pow10(a) * pow10((b - 1) as nat)) == pow10(a) * (10 * pow10((b - 1) as nat)))
            by (nonlinear_arith);
    }
}

proof fn lemma_pow10_grows(a: nat, b: nat)
    requires
        a <= b,
    ensures
        pow10(a) <= pow10(b),
    decreases b - a,
{
    if a < b {
        lemma_pow10_grows(a, (b - 1) as nat);
    }
}

proof fn lemma_doubled_scales(n: nat, k: nat)
    ensures
        doubled(n, k) == n * doubled(1, k),
        doubled(1, k) > 0,
    decreases k,
{
    if k > 0 {
        lemma_doubled_scales(n, (k - 1) as nat);
        let d = doubled(1, (k - 1) as nat);
        assert(2 * (n * d) == n * (2 * d)) by (nonlinear_arith);
    } else {
        assert(n * 1 == n);
    }
}

proof fn lemma_doubled_grows(n: nat, a: nat, b: nat)
    requires
        a <= b,
    ensures
        doubled(n, a) <= doubled(n, b),
    decreases b - a,
{
    if a < b {
        lemma_doubled_grows(n, a, (b - 1) as nat);
    }
}

/// Doubling twice over.
proof fn lemma_doubled_again(n: nat, a: nat, b: nat)
    ensures
        doubled(doubled(n, a), b) == doubled(n, a + b),
    decreases b,
{
    if b > 0 {
        lemma_doubled_again(n, a, (b - 1) as nat);
        assert((a + b - 1) as nat == a + (b - 1) as nat);
    }
}

/// Quotient and remainder, from what makes them.
proof fn lemma_div_mod(num: nat, den: nat, q: nat, r: nat)
    requires
        num == q * den + r,
        r < den,
    ensures
        num / den == q,
        num % den == r,
{
    vstd::arithmetic::div_mod::lemma_fundamental_div_mod_converse(
        num as int,
        den as int,
        q as int,
        r as int,
    );
}

proof fn lemma_div_mod_back(num: nat, den: nat)
    requires
        den > 0,
    ensures
        num == (num / den) * den + num % den,
        num % den < den,
{
    vstd::arithmetic::div_mod::lemma_fundamental_div_mod(num as int, den as int);
    assert((num / den) * den == den * (num / den)) by (nonlinear_arith);
}

// -------------------------------------------------------------------- digits

/// The number that digits write, the least one first.
pub open spec fn ascending(s: Seq<u8>) -> nat
    decreases s.len(),
{
    if s.len() == 0 {
        0
    } else {
        ascending(s.drop_last()) + s.last() as nat * pow10((s.len() - 1) as nat)
    }
}

pub open spec fn are_digits(s: Seq<u8>) -> bool {
    forall|i: int| 0 <= i < s.len() ==> #[trigger] s[i] < 10
}

proof fn lemma_push(s: Seq<u8>, d: u8)
    ensures
        ascending(s.push(d)) == ascending(s) + d as nat * pow10(s.len()),
{
    assert(s.push(d).drop_last() =~= s);
}

proof fn lemma_ascending_bound(s: Seq<u8>)
    requires
        are_digits(s),
    ensures
        ascending(s) < pow10(s.len()),
    decreases s.len(),
{
    if s.len() > 0 {
        lemma_ascending_bound(s.drop_last());
        let p = pow10((s.len() - 1) as nat);
        let d = s.last() as nat;
        assert(d * p <= 9 * p) by (nonlinear_arith)
            requires
                d <= 9,
        ;
    }
}

/// The digits above position `k` count powers of ten of those below.
proof fn lemma_parts(s: Seq<u8>, k: nat)
    requires
        k <= s.len(),
    ensures
        ascending(s) == ascending(s.skip(k as int)) * pow10(k) + ascending(s.take(k as int)),
    decreases s.len(),
{
    if k == s.len() {
        assert(s.take(k as int) =~= s);
        assert(s.skip(k as int) =~= seq![]);
    } else {
        let front = s.drop_last();
        lemma_parts(front, k);
        assert(front.take(k as int) =~= s.take(k as int));
        assert(front.skip(k as int) =~= s.skip(k as int).drop_last());
        let high = s.skip(k as int);
        let d = s.last() as nat;
        let above = (s.len() - 1 - k) as nat;
        assert(high.last() == s.last());
        lemma_pow10_adds(k, above);
        assert(k + above == (s.len() - 1) as nat);
        assert((ascending(high.drop_last()) + d * pow10(above)) * pow10(k) == ascending(
            high.drop_last(),
        ) * pow10(k) + d * (pow10(k) * pow10(above))) by (nonlinear_arith);
    }
}

/// Doubles a number.
fn double(s: &Vec<u8>) -> (r: Vec<u8>)
    requires
        are_digits(s@),
    ensures
        are_digits(r@),
        ascending(r@) == 2 * ascending(s@),
        r@.len() >= s@.len(),
{
    let mut out: Vec<u8> = Vec::new();
    let mut carry: u8 = 0;
    let mut i: usize = 0;
    assert(s@.take(0) =~= seq![]);
    while i < s.len()
        invariant
            i <= s.len(),
            out@.len() == i,
            are_digits(s@),
            are_digits(out@),
            carry <= 1,
            ascending(out@) + carry as nat * pow10(i as nat) == 2 * ascending(s@.take(i as int)),
        decreases s.len() - i,
    {
        let ghost before = out@;
        let ghost old_carry = carry as nat;
        assert(s@[i as int] < 10);
        let twice: u8 = 2 * s[i] + carry;
        let digit: u8 = twice % 10;
        out.push(digit);
        carry = twice / 10;
        proof {
            lemma_push(before, digit);
            assert(s@.take(i + 1).drop_last() =~= s@.take(i as int));
            let p = pow10(i as nat);
            let d = s@[i as int] as nat;
            assert(digit as nat + 10 * carry as nat == 2 * d + old_carry);
            assert(digit as nat * p + carry as nat * (10 * p) == (2 * d + old_carry) * p)
                by (nonlinear_arith)
                requires
                    digit as nat + 10 * carry as nat == 2 * d + old_carry,
            ;
            assert((2 * d + old_carry) * p == 2 * (d * p) + old_carry * p) by (nonlinear_arith);
        }
        i += 1;
    }
    assert(s@.take(s@.len() as int) =~= s@);
    if carry > 0 {
        let ghost before = out@;
        out.push(carry);
        proof {
            lemma_push(before, carry);
        }
    } else {
        assert(0 * pow10(i as nat) == 0);
    }
    out
}

/// Doubles a number `k` times.
fn double_times(s: Vec<u8>, k: u64) -> (r: Vec<u8>)
    requires
        are_digits(s@),
    ensures
        are_digits(r@),
        ascending(r@) == doubled(ascending(s@), k as nat),
        r@.len() >= s@.len(),
{
    let mut out = s;
    let mut i: u64 = 0;
    while i < k
        invariant
            i <= k,
            are_digits(out@),
            ascending(out@) == doubled(ascending(s@), i as nat),
            out@.len() >= s@.len(),
        decreases k - i,
    {
        out = double(&out);
        i += 1;
    }
    out
}

/// The digits above position `k` as a number, if it is small.
fn high_part(s: &Vec<u8>, k: usize) -> (r: Option<u128>)
    requires
        are_digits(s@),
        k <= s@.len(),
    ensures
        match r {
            Some(value) => value == ascending(s@.skip(k as int)) && value
                < 0x1_0000_0000_0000_0000_0000,
            None => ascending(s@.skip(k as int)) >= 0x1_0000_0000_0000_0000,
        },
{
    let mut value: u128 = 0;
    let mut i: usize = s.len();
    assert(s@.skip(s@.len() as int) =~= seq![]);
    while i > k
        invariant
            k <= i <= s.len(),
            are_digits(s@),
            value == ascending(s@.skip(i as int)),
            value < 0x1_0000_0000_0000_0000_0000,
        decreases i,
    {
        proof {
            let tail = s@.skip(i - 1);
            lemma_parts(tail, 1);
            assert(tail.skip(1) =~= s@.skip(i as int));
            assert(tail.take(1) =~= seq![s@[i - 1]]);
            assert(Seq::<u8>::empty().push(s@[i - 1]) =~= seq![s@[i - 1]]);
            lemma_push(Seq::<u8>::empty(), s@[i - 1]);
            assert(pow10(0) == 1 && pow10(1) == 10) by {
                reveal_with_fuel(pow10, 2);
            }
            let low = s@.skip(k as int);
            lemma_parts(low, (i - k) as nat);
            assert(low.skip(i - k) =~= s@.skip(i as int));
            let above = ascending(s@.skip(i as int));
            let p = pow10((i - k) as nat);
            lemma_pow10_positive((i - k) as nat);
            assert(above * p >= above) by (nonlinear_arith)
                requires
                    p > 0,
            ;
        }
        if value >= 0x1_0000_0000_0000_0000 {
            return None;
        }
        value = value * 10 + s[i - 1] as u128;
        i -= 1;
    }
    Some(value)
}

/// Whether the digits below position `k` are all zero.
fn low_part_is_zero(s: &Vec<u8>, k: usize) -> (r: bool)
    requires
        are_digits(s@),
        k <= s@.len(),
    ensures
        r == (ascending(s@.take(k as int)) == 0),
{
    let mut i: usize = 0;
    assert(s@.take(0) =~= seq![]);
    while i < k
        invariant
            i <= k <= s.len(),
            are_digits(s@),
            ascending(s@.take(i as int)) == 0,
        decreases k - i,
    {
        proof {
            assert(s@.take(i + 1).drop_last() =~= s@.take(i as int));
            assert(s@.take(i + 1).last() == s@[i as int]);
            let p = pow10(i as nat);
            let d = s@[i as int] as nat;
            lemma_pow10_positive(i as nat);
            assert(d > 0 ==> d * p > 0) by (nonlinear_arith)
                requires
                    p > 0,
            ;
            assert(d == 0 ==> d * p == 0) by (nonlinear_arith);
            let all = s@.take(k as int);
            lemma_parts(all, (i + 1) as nat);
            assert(all.take(i + 1) =~= s@.take(i + 1));
        }
        if s[i] != 0 {
            return false;
        }
        i += 1;
    }
    true
}

// ------------------------------------------------------------------ rounding

/// The power of two that a quotient stays below.
fn bits(q: u128, Ghost(num): Ghost<nat>, Ghost(den): Ghost<nat>) -> (b: u64)
    requires
        den > 0,
        q == num / den,
        q < 0x1_0000_0000_0000_0000,
    ensures
        b == magnitude(num, den, 0),
        b <= 64,
        q < doubled(1, b as nat),
        b > 0 ==> q >= doubled(1, (b - 1) as nat),
{
    let mut b: u64 = 0;
    let mut p: u128 = 1;
    proof {
        lemma_doubled_64();
    }
    while b < 64 && q >= p
        invariant
            den > 0,
            q == num / den,
            q < 0x1_0000_0000_0000_0000,
            doubled(1, 64) == 0x1_0000_0000_0000_0000,
            b <= 64,
            p == doubled(1, b as nat),
            p <= 0x1_0000_0000_0000_0000,
            magnitude(num, den, 0) == magnitude(num, den, b as nat),
            b > 0 ==> q >= doubled(1, (b - 1) as nat),
        decreases 64 - b,
    {
        proof {
            lemma_quotient_below(num, den, b as nat);
            lemma_doubled_grows(1, (b + 1) as nat, 64);
        }
        p = p * 2;
        b += 1;
    }
    proof {
        lemma_quotient_below(num, den, b as nat);
    }
    b
}

proof fn lemma_doubled_64()
    ensures
        doubled(1, 64) == 0x1_0000_0000_0000_0000,
        doubled(1, 53) == 0x20_0000_0000_0000,
{
    reveal_with_fuel(doubled, 65);
}

proof fn lemma_quotient_below(num: nat, den: nat, k: nat)
    requires
        den > 0,
    ensures
        num < doubled(den, k) <==> num / den < doubled(1, k),
{
    lemma_doubled_scales(den, k);
    lemma_div_mod_back(num, den);
    let q = num / den;
    let p = doubled(1, k);
    assert(q < p ==> q * den + den <= den * p) by (nonlinear_arith);
    assert(q >= p ==> q * den >= den * p) by (nonlinear_arith);
}

/// Rounding to whole numbers, read off the quotient of twice the number.
proof fn lemma_half_even(num: nat, den: nat)
    requires
        den > 0,
    ensures
        ({
            let twice = (2 * num) / den;
            let exact = (2 * num) % den == 0;
            half_even(num, den) == if twice % 2 == 1 && (!exact || (twice / 2) % 2 == 1) {
                twice / 2 + 1
            } else {
                twice / 2
            }
        }),
{
    lemma_div_mod_back(num, den);
    let q = num / den;
    let r = num % den;
    if 2 * r < den {
        assert(2 * num == (2 * q) * den + 2 * r) by (nonlinear_arith)
            requires
                num == q * den + r,
        ;
        lemma_div_mod(2 * num, den, 2 * q, 2 * r);
    } else {
        let rest = (2 * r - den) as nat;
        assert(2 * num == (2 * q + 1) * den + rest) by (nonlinear_arith)
            requires
                num == q * den + r,
                rest == 2 * r - den,
        ;
        lemma_div_mod(2 * num, den, 2 * q + 1, rest);
    }
}

/// Rounding to a multiple of `unit`, read off the quotient.
proof fn lemma_half_even_unit(num: nat, den: nat, unit: nat)
    requires
        den > 0,
        unit > 0,
        unit % 2 == 0,
    ensures
        ({
            let q = num / den;
            let rest = q % unit;
            let half = unit / 2;
            let m = q / unit;
            half_even(num, den * unit) == if rest > half || (rest == half && (num % den != 0 || m
                % 2 == 1)) {
                m + 1
            } else {
                m
            }
        }),
{
    lemma_div_mod_back(num, den);
    let q = num / den;
    let r = num % den;
    lemma_div_mod_back(q, unit);
    let m = q / unit;
    let rest = q % unit;
    let half = unit / 2;
    let left = rest * den + r;
    assert(left < den * unit) by (nonlinear_arith)
        requires
            rest + 1 <= unit,
            r < den,
            left == rest * den + r,
    ;
    assert(num == m * (den * unit) + left) by (nonlinear_arith)
        requires
            num == q * den + r,
            q == m * unit + rest,
            left == rest * den + r,
    ;
    lemma_div_mod(num, den * unit, m, left);
    assert(unit == 2 * half);
    assert(rest < half ==> 2 * left < den * unit) by (nonlinear_arith)
        requires
            left == rest * den + r,
            r < den,
            unit == 2 * half,
    ;
    assert(rest > half ==> 2 * left > den * unit) by (nonlinear_arith)
        requires
            left == rest * den + r,
            den > 0,
            unit == 2 * half,
    ;
    assert(rest == half ==> 2 * left == den * unit + 2 * r) by (nonlinear_arith)
        requires
            left == rest * den + r,
            unit == 2 * half,
    ;
}

/// A power of two.
fn power(k: u64) -> (r: u128)
    requires
        k <= 53,
    ensures
        r == doubled(1, k as nat),
        0 < r <= 0x20_0000_0000_0000,
{
    let mut p: u128 = 1;
    let mut i: u64 = 0;
    proof {
        lemma_doubled_64();
        lemma_doubled_grows(1, k as nat, 53);
    }
    while i < k
        invariant
            i <= k <= 53,
            p == doubled(1, i as nat),
            0 < p,
            doubled(1, 53) == 0x20_0000_0000_0000,
        decreases k - i,
    {
        proof {
            lemma_doubled_grows(1, (i + 1) as nat, 53);
        }
        p = p * 2;
        i += 1;
    }
    p
}

proof fn lemma_doubled_54(num: nat, den: nat, b: nat)
    requires
        den > 0,
        b <= 53,
        num < doubled(den, b),
    ensures
        doubled(num, (54 - b) as nat) / den < 0x40_0000_0000_0000,
{
    let shift = (54 - b) as nat;
    let twice = doubled(num, shift);
    lemma_doubled_64();
    lemma_doubled_scales(num, shift);
    lemma_doubled_scales(doubled(den, b), shift);
    lemma_doubled_again(den, b, shift);
    let p = doubled(1, shift);
    let bound = doubled(den, b);
    assert(num * p < bound * p) by (nonlinear_arith)
        requires
            num < bound,
            p > 0,
    ;
    lemma_quotient_below(twice, den, 54);
    assert(doubled(1, 54) == 2 * doubled(1, 53));
}

/// Rounds a quotient that has less than 54 bits: the digits after the point
/// still count.
fn round_fine(s: Vec<u8>, k: usize, b: u64) -> (r: u64)
    requires
        are_digits(s@),
        k <= s@.len(),
        b <= 53,
        ascending(s@) < doubled(pow10(k as nat), b as nat),
    ensures
        r == half_even(doubled(ascending(s@), (53 - b) as nat), pow10(k as nat)) / doubled(
            1,
            (53 - b) as nat,
        ),
{
    let ghost num = ascending(s@);
    let ghost den = pow10(k as nat);
    let twice_digits = double_times(s, 54 - b);
    let ghost twice = ascending(twice_digits@);
    proof {
        lemma_pow10_positive(k as nat);
        lemma_parts(twice_digits@, k as nat);
        lemma_ascending_bound(twice_digits@.take(k as int));
        lemma_div_mod(
            twice,
            den,
            ascending(twice_digits@.skip(k as int)),
            ascending(twice_digits@.take(k as int)),
        );
        lemma_doubled_54(num, den, b as nat);
        lemma_half_even(doubled(num, (53 - b) as nat), den);
    }
    let halves = match high_part(&twice_digits, k) {
        Some(halves) => halves,
        None => 0,
    };
    assert(halves == twice / den);
    let whole = low_part_is_zero(&twice_digits, k);
    let near: u128 = if halves % 2 == 1 && (!whole || (halves / 2) % 2 == 1) {
        halves / 2 + 1
    } else {
        halves / 2
    };
    let divisor = power(53 - b);
    assert(near / divisor <= near) by (nonlinear_arith)
        requires
            divisor > 0,
    ;
    (near / divisor) as u64
}

/// Rounds a quotient of at least 54 bits: its last bits fall away.
fn round_coarse(q: u128, exact: bool, b: u64, Ghost(num): Ghost<nat>, Ghost(den): Ghost<nat>) -> (r:
    u64)
    requires
        den > 0,
        53 < b <= 64,
        q == num / den,
        q < 0x1_0000_0000_0000_0000,
        exact == (num % den == 0),
    ensures
        ({
            let unit = doubled(1, (b - 53) as nat);
            let near = half_even(num, doubled(den, (b - 53) as nat)) * unit;
            r == if near > u64::MAX {
                u64::MAX as nat
            } else {
                near
            }
        }),
{
    let unit = power(b - 53);
    proof {
        assert(unit == 2 * doubled(1, (b - 54) as nat));
        lemma_half_even_unit(num, den, unit as nat);
        lemma_doubled_scales(den, (b - 53) as nat);
        lemma_doubled_grows(1, (b - 53) as nat, 11);
        assert(doubled(1, 11) == 2048) by {
            reveal_with_fuel(doubled, 12);
        }
    }
    let m: u128 = q / unit;
    let rest: u128 = q % unit;
    let half: u128 = unit / 2;
    let near: u128 = if rest > half || (rest == half && (!exact || m % 2 == 1)) {
        m + 1
    } else {
        m
    };
    assert(near * unit <= 0x1_0000_0000_0000_0000 * 2048) by (nonlinear_arith)
        requires
            near <= 0x1_0000_0000_0000_0000,
            unit <= 2048,
    ;
    let result: u128 = near * unit;
    if result > u64::MAX as u128 {
        u64::MAX
    } else {
        result as u64
    }
}

/// The digits of `num / den`, where `den` is ten to the power of `k`, rounded
/// and cut down.
fn round(s: Vec<u8>, k: usize) -> (r: u64)
    requires
        are_digits(s@),
        k <= s@.len(),
    ensures
        r == rounded(ascending(s@), pow10(k as nat)),
{
    let ghost num = ascending(s@);
    let ghost den = pow10(k as nat);
    proof {
        lemma_pow10_positive(k as nat);
        lemma_parts(s@, k as nat);
        lemma_ascending_bound(s@.take(k as int));
        lemma_div_mod(num, den, ascending(s@.skip(k as int)), ascending(s@.take(k as int)));
        lemma_quotient_below(num, den, 64);
        lemma_quotient_below(num, den, 0);
        lemma_doubled_64();
    }
    let q = match high_part(&s, k) {
        Some(q) => q,
        None => {
            return u64::MAX;
        },
    };
    if q >= 0x1_0000_0000_0000_0000 {
        return u64::MAX;
    }
    let exact = low_part_is_zero(&s, k);
    let b = bits(q, Ghost(num), Ghost(den));
    proof {
        lemma_quotient_below(num, den, b as nat);
        if b > 0 {
            lemma_doubled_grows(1, 0, (b - 1) as nat);
        } else {
            lemma_below_half(num, den);
        }
    }
    if b <= 53 {
        round_fine(s, k, b)
    } else {
        round_coarse(q, exact, b, Ghost(num), Ghost(den))
    }
}

proof fn lemma_below_half(num: nat, den: nat)
    requires
        den > 0,
        magnitude(num, den, 0) == 0,
    ensures
        2 * num < den ==> half_even(doubled(num, 53), den) / doubled(1, 53) == 0,
{
    if 2 * num < den {
        lemma_doubled_64();
        let n = doubled(num, 53);
        lemma_doubled_scales(num, 53);
        lemma_div_mod_back(n, den);
        let q = n / den;
        let p = doubled(1, 53);
        assert(2 * n < den * p) by (nonlinear_arith)
            requires
                n == num * p,
                2 * num < den,
                p > 0,
        ;
        assert(2 * q < p) by (nonlinear_arith)
            requires
                2 * n < den * p,
                n == q * den + n % den,
                den > 0,
        ;
        assert(half_even(n, den) <= q + 1);
        assert(half_even(n, den) < p);
        lemma_div_mod(half_even(n, den), p, 0, half_even(n, den));
    }
}

// ------------------------------------------------------------------- reading

/// Where an exponent is as good as endless.
pub open spec fn far() -> nat {
    0x10_0000_0000_0000_0000_0000_0000
}

/// The number that digits write, or [`far`] if it is at least that.
fn capped(digits: &[char]) -> (r: u128)
    requires
        text::all_digits(digits@),
    ensures
        r == text::digits_value(digits@) || (r == far() && text::digits_value(digits@) >= far()),
        r <= far(),
{
    let mut value: u128 = 0;
    let mut i: usize = 0;
    assert(digits@.take(0) =~= seq![]);
    while i < digits.len()
        invariant
            i <= digits.len(),
            text::all_digits(digits@),
            value == text::digits_value(digits@.take(i as int)),
            value < far(),
        decreases digits.len() - i,
    {
        let ghost next = digits@.take(i + 1);
        assert(next.drop_last() =~= digits@.take(i as int));
        assert(text::is_digit(digits@[i as int]));
        let d: u128 = digits[i] as u128 - '0' as u128;
        assert(text::digits_value(next) == value * 10 + d);
        proof {
            text::lemma_digits_grow(digits@, i + 1);
        }
        value = value * 10 + d;
        if value >= 0x10_0000_0000_0000_0000_0000_0000 {
            return 0x10_0000_0000_0000_0000_0000_0000;
        }
        i += 1;
    }
    assert(digits@.take(digits@.len() as int) =~= digits@);
    value
}

/// Whether all characters are digits.
fn all_digits(s: &[char]) -> (r: bool)
    ensures
        r == text::all_digits(s@),
{
    let mut i: usize = 0;
    while i < s.len()
        invariant
            i <= s.len(),
            forall|j: int| 0 <= j < i ==> text::is_digit(#[trigger] s@[j]),
        decreases s.len() - i,
    {
        if !text::digit(s[i]) {
            assert(!text::is_digit(s@[i as int]));
            return false;
        }
        i += 1;
    }
    true
}

/// An exponent, as far as it matters.
fn exponent(s: &[char]) -> (r: Option<i128>)
    ensures
        match r {
            Some(e) => exponent_spec(s@) is Some && -far() <= e <= far() && (e == exponent_spec(
                s@,
            )->0 || (e == far() && exponent_spec(s@)->0 >= far()) || (e == -far()
                && exponent_spec(s@)->0 <= -far())),
            None => exponent_spec(s@) is None,
        },
{
    let signed = s.len() > 0 && (s[0] == '-' || s[0] == '+');
    let digits = if signed {
        text::tail(s, 1)
    } else {
        s
    };
    if digits.len() == 0 || !all_digits(digits) {
        return None;
    }
    let value = capped(digits) as i128;
    if signed && s[0] == '-' {
        Some(-value)
    } else {
        Some(value)
    }
}

/// A finite number: its digits, and its exponent as far as it matters.
struct Finite {
    negative: bool,
    digits: Vec<char>,
    exponent: i128,
}

/// Whether an exponent is right, or on the same side as the right one and out
/// of reach.
pub open spec fn near_exponent(e: int, exact: int) -> bool {
    ||| e == exact
    ||| e > 0x8_0000_0000_0000_0000_0000_0000 && exact > 0x8_0000_0000_0000_0000_0000_0000
    ||| e < -0x8_0000_0000_0000_0000_0000_0000 && exact < -0x8_0000_0000_0000_0000_0000_0000
}

impl Finite {
    spec fn is(self, number: Decimal) -> bool {
        match number {
            Decimal::Finite { negative, digits, exponent } => self.negative == negative
                && self.digits@ == digits && near_exponent(self.exponent as int, exponent)
                && digits.len() > 0 && text::all_digits(digits),
            _ => false,
        }
    }
}

fn unsigned(s: &[char], negative: bool) -> (r: Option<Finite>)
    ensures
        match r {
            Some(f) => unsigned_spec(s@, negative) is Some && f.is(
                unsigned_spec(s@, negative)->0,
            ),
            None => unsigned_spec(s@, negative) is None,
        },
{
    let marks = text::chars("eE");
    let end = text::position(s, &marks, true);
    let mantissa = text::head(s, end);
    let empty: [char; 0] = [];
    assert(empty@ =~= seq![]);
    let (whole, fraction): (&[char], &[char]) = match text::cut(mantissa, ".") {
        Some((whole, fraction)) => (whole, fraction),
        None => (mantissa, &empty),
    };
    let mut digits: Vec<char> = Vec::new();
    text::extend(&mut digits, whole);
    text::extend(&mut digits, fraction);
    assert(digits@ =~= whole@ + fraction@);
    let exponent = if end < s.len() {
        exponent(text::tail(s, end + 1))
    } else {
        Some(0)
    };
    if digits.len() == 0 || !all_digits(&digits) {
        return None;
    }
    match exponent {
        Some(e) => Some(Finite { negative, digits, exponent: e - fraction.len() as i128 }),
        None => None,
    }
}

// ------------------------------------------------------------------- scaling

proof fn lemma_front_digit(s: Seq<char>)
    requires
        s.len() > 0,
    ensures
        text::digits_value(s) == (s[0] as nat - '0' as nat) as nat * pow10((s.len() - 1) as nat)
            + text::digits_value(s.skip(1)),
    decreases s.len(),
{
    if s.len() == 1 {
        assert(s.drop_last() =~= seq![]);
        assert(s.skip(1) =~= seq![]);
        assert(pow10(0) == 1);
        assert(text::digits_value(s) == (s[0] as nat - '0' as nat) as nat) by {
            reveal_with_fuel(text::digits_value, 2);
        }
        assert(text::digits_value(s.skip(1)) == 0);
        let d = (s[0] as nat - '0' as nat) as nat;
        assert(d * 1 == d);
    } else {
        lemma_front_digit(s.drop_last());
        assert(s.drop_last().skip(1) =~= s.skip(1).drop_last());
        assert(s.skip(1).last() == s.last());
        let d = (s[0] as nat - '0' as nat) as nat;
        let p = pow10((s.len() - 2) as nat);
        assert((d * p + text::digits_value(s.skip(1).drop_last())) * 10 == d * (10 * p)
            + text::digits_value(s.skip(1).drop_last()) * 10) by (nonlinear_arith);
    }
}

/// The digits of a number followed by `zeros` zeros, the least one first.
fn ascend(digits: &Vec<char>, zeros: usize) -> (r: Vec<u8>)
    requires
        text::all_digits(digits@),
        zeros <= 20,
    ensures
        are_digits(r@),
        r@.len() == digits@.len() + zeros,
        ascending(r@) == text::digits_value(digits@) * pow10(zeros as nat),
{
    let mut out: Vec<u8> = Vec::new();
    while out.len() < zeros
        invariant
            out@.len() <= zeros,
            are_digits(out@),
            ascending(out@) == 0,
        decreases zeros - out.len(),
    {
        let ghost before = out@;
        out.push(0);
        proof {
            lemma_push(before, 0);
            assert(0 * pow10(before.len()) == 0);
        }
    }
    let mut i: usize = digits.len();
    assert(digits@.skip(digits@.len() as int) =~= seq![]);
    assert(0 * pow10(zeros as nat) == 0);
    while i > 0
        invariant
            i <= digits.len(),
            text::all_digits(digits@),
            are_digits(out@),
            out@.len() == zeros + digits@.len() - i,
            ascending(out@) == text::digits_value(digits@.skip(i as int)) * pow10(zeros as nat),
        decreases i,
    {
        let ghost before = out@;
        assert(text::is_digit(digits@[i - 1]));
        let d: u8 = (digits[i - 1] as u32 - '0' as u32) as u8;
        out.push(d);
        proof {
            lemma_push(before, d);
            let tail = digits@.skip(i - 1);
            lemma_front_digit(tail);
            assert(tail.skip(1) =~= digits@.skip(i as int));
            let n = (tail.len() - 1) as nat;
            lemma_pow10_adds(n, zeros as nat);
            assert(before.len() == n + zeros as nat);
            let rest = text::digits_value(digits@.skip(i as int));
            assert((d as nat * pow10(n) + rest) * pow10(zeros as nat) == rest * pow10(zeros as nat)
                + d as nat * (pow10(n) * pow10(zeros as nat))) by (nonlinear_arith);
        }
        i -= 1;
    }
    assert(digits@.skip(0) =~= digits@);
    out
}

/// Whether a number is zero.
fn is_zero(digits: &Vec<char>) -> (r: bool)
    requires
        text::all_digits(digits@),
    ensures
        r == (text::digits_value(digits@) == 0),
{
    let mut i: usize = 0;
    assert(digits@.take(0) =~= seq![]);
    while i < digits.len()
        invariant
            i <= digits.len(),
            text::all_digits(digits@),
            text::digits_value(digits@.take(i as int)) == 0,
        decreases digits.len() - i,
    {
        assert(digits@.take(i + 1).drop_last() =~= digits@.take(i as int));
        assert(text::is_digit(digits@[i as int]));
        if digits[i] != '0' {
            proof {
                text::lemma_digits_grow(digits@, i + 1);
            }
            return false;
        }
        i += 1;
    }
    assert(digits@.take(digits@.len() as int) =~= digits@);
    true
}

proof fn lemma_digits_bound(s: Seq<char>)
    requires
        text::all_digits(s),
    ensures
        text::digits_value(s) < pow10(s.len()),
    decreases s.len(),
{
    if s.len() > 0 {
        assert forall|i: int| 0 <= i < s.drop_last().len() implies text::is_digit(
            #[trigger] s.drop_last()[i],
        ) by {
            assert(s.drop_last()[i] == s[i]);
        }
        lemma_digits_bound(s.drop_last());
        assert(text::is_digit(s[s.len() - 1]));
    }
}

proof fn lemma_small_doublings()
    ensures
        doubled(1, 30) == 1_073_741_824,
        pow10(20) == 100_000_000_000_000_000_000,
        pow10(12) == 1_000_000_000_000,
{
    reveal_with_fuel(doubled, 31);
    reveal_with_fuel(pow10, 21);
}

/// A number of more than twenty digits does not fit.
proof fn lemma_too_large(m: nat, e: nat, shift: nat)
    requires
        m > 0,
        e >= 20,
    ensures
        rounded(doubled(m * pow10(e), shift), 1) == u64::MAX,
{
    lemma_small_doublings();
    lemma_doubled_64();
    lemma_pow10_grows(20, e);
    let n = m * pow10(e);
    assert(n >= pow10(e)) by (nonlinear_arith)
        requires
            n == m * pow10(e),
            m > 0,
    ;
    lemma_doubled_grows(n, 0, shift);
    lemma_doubled_scales(1, 64);
}

/// A number this far below one is none.
proof fn lemma_too_small(s: Seq<char>, k: nat, shift: nat)
    requires
        text::all_digits(s),
        k >= s.len() + 12,
        shift <= 30,
    ensures
        rounded(doubled(text::digits_value(s), shift), pow10(k)) == 0,
{
    lemma_small_doublings();
    lemma_digits_bound(s);
    let m = text::digits_value(s);
    lemma_pow10_grows(s.len() + 12, k);
    lemma_pow10_adds(s.len(), 12);
    lemma_doubled_grows(m, shift, 30);
    lemma_doubled_scales(m, 30);
    let p = pow10(s.len());
    assert(2 * (m * 1_073_741_824) < p * 1_000_000_000_000) by (nonlinear_arith)
        requires
            m < p,
    ;
}

/// The whole bytes in a finite, positive number of units.
fn scale(digits: &Vec<char>, exponent: i128, shift: u8, Ghost(exact): Ghost<int>) -> (r: u64)
    requires
        text::all_digits(digits@),
        shift <= 30,
        near_exponent(exponent as int, exact),
    ensures
        r == bytes_spec(
            Decimal::Finite { negative: false, digits: digits@, exponent: exact },
            shift as nat,
        ),
{
    let count: usize = digits.len();
    if is_zero(digits) {
        proof {
            lemma_zero(if exact >= 0 { pow10(exact as nat) } else { 1 }, shift as nat);
            if exact < 0 {
                lemma_pow10_positive((-exact) as nat);
            }
        }
        return 0;
    }
    if exponent >= 20 {
        proof {
            lemma_too_large(text::digits_value(digits@), exact as nat, shift as nat);
        }
        return u64::MAX;
    }
    if exponent >= 0 {
        let zeros = exponent as usize;
        let s = double_times(ascend(digits, zeros), shift as u64);
        return round(s, 0);
    }
    if exponent < -0x8_0000_0000_0000_0000_0000_0000 || -exponent >= count as i128 + 12 {
        proof {
            lemma_too_small(digits@, (-exact) as nat, shift as nat);
        }
        return 0;
    }
    let below: i128 = -exponent;
    let mut s = ascend(digits, 0);
    assert(pow10(0) == 1);
    while (s.len() as i128) < below
        invariant
            are_digits(s@),
            ascending(s@) == text::digits_value(digits@),
        decreases below - s.len(),
    {
        let ghost before = s@;
        s.push(0);
        proof {
            lemma_push(before, 0);
            assert(0 * pow10(before.len()) == 0);
        }
    }
    let s = double_times(s, shift as u64);
    round(s, below as usize)
}

proof fn lemma_zero(p: nat, shift: nat)
    ensures
        doubled(0 * p, shift) == 0,
        doubled(0, shift) == 0,
{
    lemma_doubled_scales(0, shift);
    assert(0 * p == 0);
    assert(0 * doubled(1, shift) == 0);
}

/// The size that a text writes, given what its units are worth.
pub fn size<F: Fn(&[char]) -> Option<u8>>(
    value: &[char],
    unit: F,
    Ghost(g): Ghost<spec_fn(Seq<char>) -> Option<u8>>,
) -> (r: Option<u64>)
    requires
        forall|u: &[char]| #[trigger] unit.requires((u,)),
        forall|u: &[char], o: Option<u8>| #[trigger]
            unit.ensures((u,), o) ==> o == g(u@) && (o is Some ==> o->0 <= 30),
    ensures
        r == size_spec(value@, g),
{
    let words = text::words(value);
    if words.len() == 0 {
        return None;
    }
    let number = text::replace(words[0], ',', "");
    let s: &[char] = &number;
    let signed = s.len() > 0 && (s[0] == '-' || s[0] == '+');
    let negative = s.len() > 0 && s[0] == '-';
    let body = if signed {
        text::tail(s, 1)
    } else {
        s
    };
    let plain = text::chars("B");
    let word = text::lower(body);
    let not_a_number = text::is(&word, "nan");
    let infinite = text::is(&word, "inf") || text::is(&word, "infinity");
    let finite = if not_a_number || infinite {
        None
    } else {
        match unsigned(body, negative) {
            Some(finite) => Some(finite),
            None => {
                return None;
            },
        }
    };
    let shift = match unit(
        if words.len() > 1 {
            words[1]
        } else {
            &plain
        },
    ) {
        Some(shift) => shift,
        None => {
            return None;
        },
    };
    match finite {
        Some(finite) => {
            if finite.negative {
                return Some(0);
            }
            let ghost exact = decimal_spec(number@)->0->exponent;
            Some(scale(&finite.digits, finite.exponent, shift, Ghost(exact)))
        },
        None => {
            if not_a_number || negative {
                Some(0)
            } else {
                Some(u64::MAX)
            }
        },
    }
}

// ---------------------------------------------------------------------- laws

/// Whole numbers of bytes that fit 53 bits are not rounded.
pub proof fn whole_sizes_are_exact(n: nat)
    requires
        n < doubled(1, 53),
    ensures
        rounded(n, 1) == n,
{
    lemma_doubled_64();
    lemma_doubled_grows(1, 53, 64);
    let b = magnitude(n, 1, 0);
    lemma_magnitude(n, 0);
    let k = (53 - b) as nat;
    lemma_doubled_scales(n, k);
    let scale = doubled(1, k);
    lemma_doubled_grows(1, 0, k);
    assert(doubled(n, k) == n * scale);
    assert(half_even(n * scale, 1) == n * scale);
    assert((n * scale) / scale == n) by (nonlinear_arith)
        requires
            scale > 0,
    ;
}

proof fn lemma_magnitude(n: nat, k: nat)
    requires
        n < doubled(1, 53),
        k <= 53,
    ensures
        magnitude(n, 1, k) <= 53,
    decreases 64 - k,
{
    if k < 53 && n >= doubled(1, k) {
        lemma_magnitude(n, k + 1);
    }
}

} // verus!
