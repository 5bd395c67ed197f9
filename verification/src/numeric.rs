//! Numbers are IEEE-754 binary64 values carried as their raw bit patterns in
//! `u64`. Classification, equality, ordering and negation are decided by the
//! bits alone and are defined and verified here directly. Rounding arithmetic,
//! decimal parsing and decimal formatting are delegated to the deterministic
//! soft-float implementation in `rustc_apfloat`.
use vstd::prelude::*;

use rustc_apfloat::Float;

verus! {

/// Bit that holds the sign of an encoded value.
pub const SIGN_MASK: u64 = 0x8000_0000_0000_0000;

/// Bits that hold the biased exponent of an encoded value.
pub const EXP_MASK: u64 = 0x7FF0_0000_0000_0000;

/// Bits that hold the fraction of an encoded value.
pub const FRAC_MASK: u64 = 0x000F_FFFF_FFFF_FFFF;

/// Encoding of positive infinity.
pub const INF_BITS: u64 = 0x7FF0_0000_0000_0000;

/// The encoded value is a NaN: exponent all ones, fraction non-zero.
pub open spec fn is_nan_bits(b: u64) -> bool {
    b & EXP_MASK == EXP_MASK && b & FRAC_MASK != 0
}

/// The encoded value is a zero of either sign.
pub open spec fn is_zero_bits(b: u64) -> bool {
    b & (EXP_MASK | FRAC_MASK) == 0
}

/// The encoded value is neither an infinity nor a NaN.
pub open spec fn is_finite_bits(b: u64) -> bool {
    b & EXP_MASK != EXP_MASK
}

/// The sign bit of an encoded value.
pub open spec fn sign_bits(b: u64) -> bool {
    b & SIGN_MASK != 0
}

/// The magnitude bits of an encoded value, with the sign removed.
pub open spec fn mag_bits(b: u64) -> u64 {
    b & (EXP_MASK | FRAC_MASK)
}

/// IEEE-754 equality on encodings: NaN equals nothing, the two zeros are
/// equal to each other, and every other value has a unique encoding.
pub open spec fn num_eq_bits(a: u64, b: u64) -> bool {
    &&& !is_nan_bits(a)
    &&& !is_nan_bits(b)
    &&& (a == b || (is_zero_bits(a) && is_zero_bits(b)))
}

/// IEEE-754 strict order on encodings, decided by sign and magnitude.
pub open spec fn num_lt_bits(a: u64, b: u64) -> bool {
    &&& !is_nan_bits(a)
    &&& !is_nan_bits(b)
    &&& !(is_zero_bits(a) && is_zero_bits(b))
    &&& if sign_bits(a) != sign_bits(b) {
        sign_bits(a)
    } else if !sign_bits(a) {
        mag_bits(a) < mag_bits(b)
    } else {
        mag_bits(a) > mag_bits(b)
    }
}

/// IEEE-754 non-strict order on encodings.
pub open spec fn num_le_bits(a: u64, b: u64) -> bool {
    num_lt_bits(a, b) || num_eq_bits(a, b)
}

/// IEEE-754 negation flips exactly the sign bit.
pub open spec fn neg_bits(b: u64) -> u64 {
    b ^ SIGN_MASK
}

/// The encoded value is mathematically an integer. Infinities and NaNs are
/// not; a non-zero value below one in magnitude is not; otherwise the bits of
/// the fraction that lie below the binary point must all be zero.
pub open spec fn is_integral_bits(b: u64) -> bool {
    let e = (b >> 52) & 0x7FF;
    if b & EXP_MASK == EXP_MASK {
        false
    } else if is_zero_bits(b) {
        true
    } else if e < 1023 {
        false
    } else if e >= 1075 {
        true
    } else {
        b & (low_mask((1075 - e) as nat)) == 0
    }
}

/// A mask of the `k` lowest bits, for `k <= 52`.
pub open spec fn low_mask(k: nat) -> u64 {
    ((1u64 << (k as u64)) - 1) as u64
}

/// The biased exponent field of an encoded value.
pub open spec fn exp_field(b: u64) -> u64 {
    (b >> 52) & 0x7FF
}

/// The magnitude of an integral encoded value as an unsigned integer, read
/// off the significand by shifting. Meaningful for magnitudes below `2^63`,
/// that is for a biased exponent of at most `1085`.
pub open spec fn small_int_bits(b: u64) -> u64 {
    let e = exp_field(b);
    if is_zero_bits(b) {
        0u64
    } else if e <= 1075 {
        ((b & FRAC_MASK) | 0x0010_0000_0000_0000) >> ((1075 - e) as u64)
    } else {
        (((b & FRAC_MASK) | 0x0010_0000_0000_0000) << ((e - 1075) as u64)) as u64
    }
}

/// Result of rounding IEEE-754 addition of two encoded values.
pub uninterp spec fn add_bits(a: u64, b: u64) -> u64;

/// Result of rounding IEEE-754 subtraction of two encoded values.
pub uninterp spec fn sub_bits(a: u64, b: u64) -> u64;

/// Result of rounding IEEE-754 multiplication of two encoded values.
pub uninterp spec fn mul_bits(a: u64, b: u64) -> u64;

/// Result of rounding IEEE-754 division of two encoded values.
pub uninterp spec fn div_bits(a: u64, b: u64) -> u64;

/// Encoding of an unsigned integer, rounded to nearest-even.
pub uninterp spec fn int_to_bits(n: u128) -> u64;

/// Encoding that a decimal numeral parses to, or `None` where the text is not
/// a numeral.
pub uninterp spec fn text_to_bits(s: Seq<char>) -> Option<u64>;

/// Decimal text that an encoded value displays as, at full precision.
pub uninterp spec fn bits_to_text(b: u64) -> Seq<char>;

/// Decimal text of an encoded value at a given positive number of
/// significant digits.
pub uninterp spec fn bits_to_text_prec(b: u64, prec: u64) -> Seq<char>;

/// The display text of an encoded value: the fewest significant digits,
/// searched upward from one, whose plain decimal text parses back to the
/// same encoding. Every finite value has such a text within the search
/// bound, since a plain numeral needs at most one digit per decimal place
/// of the widest finite value; for the infinities and NaN no precision
/// gives one, and the full-precision text stands.
pub open spec fn display_text(b: u64, prec: u64) -> Seq<char>
    decreases (if prec <= 340 { (341 - prec) as nat } else { 0 }),
{
    if prec > 340 {
        bits_to_text(b)
    } else if text_to_bits(bits_to_text_prec(b, prec)) == Some(b) && !crate::strings::has_char(
        bits_to_text_prec(b, prec),
        'E',
    ) {
        bits_to_text_prec(b, prec)
    } else {
        display_text(b, (prec + 1) as u64)
    }
}

/// Relies on `rustc_apfloat`'s `Double` addition (`add_r`, nearest-even):
/// deterministic correctly rounded IEEE-754 binary64 addition.
#[verifier::external_body]
pub fn num_add(a: u64, b: u64) -> (r: u64)
    ensures
        r == add_bits(a, b),
{
    let x = rustc_apfloat::ieee::Double::from_bits(a as u128);
    let y = rustc_apfloat::ieee::Double::from_bits(b as u128);
    (x + y).value.to_bits() as u64
}

/// Relies on `rustc_apfloat`'s `Double` subtraction (`sub_r`, nearest-even).
#[verifier::external_body]
pub fn num_sub(a: u64, b: u64) -> (r: u64)
    ensures
        r == sub_bits(a, b),
{
    let x = rustc_apfloat::ieee::Double::from_bits(a as u128);
    let y = rustc_apfloat::ieee::Double::from_bits(b as u128);
    (x - y).value.to_bits() as u64
}

/// Relies on `rustc_apfloat`'s `Double` multiplication (`mul_r`, nearest-even).
#[verifier::external_body]
pub fn num_mul(a: u64, b: u64) -> (r: u64)
    ensures
        r == mul_bits(a, b),
{
    let x = rustc_apfloat::ieee::Double::from_bits(a as u128);
    let y = rustc_apfloat::ieee::Double::from_bits(b as u128);
    (x * y).value.to_bits() as u64
}

/// Relies on `rustc_apfloat`'s `Double` division (`div_r`, nearest-even).
#[verifier::external_body]
pub fn num_div(a: u64, b: u64) -> (r: u64)
    ensures
        r == div_bits(a, b),
{
    let x = rustc_apfloat::ieee::Double::from_bits(a as u128);
    let y = rustc_apfloat::ieee::Double::from_bits(b as u128);
    (x / y).value.to_bits() as u64
}

/// Relies on `rustc_apfloat`'s `Double::from_u128` (nearest-even), the
/// rounding conversion from an unsigned integer.
#[verifier::external_body]
pub fn num_from_int(n: u128) -> (r: u64)
    ensures
        r == int_to_bits(n),
{
    rustc_apfloat::ieee::Double::from_u128(n).value.to_bits() as u64
}

/// Relies on `rustc_apfloat`'s `FromStr` for `Double` (nearest-even), the
/// correctly rounded decimal parser.
#[verifier::external_body]
pub fn num_parse(s: &str) -> (r: Option<u64>)
    ensures
        r == text_to_bits(s@),
{
    match s.parse::<rustc_apfloat::ieee::Double>() {
        Ok(d) => Some(d.to_bits() as u64),
        Err(_) => None,
    }
}

/// Relies on `rustc_apfloat`'s `Display` for `Double`, which prints enough
/// decimal digits that a finite value parses back to the same encoding (its
/// documentation states the output round-trips).
#[verifier::external_body]
pub fn num_full_text(b: u64) -> (r: String)
    ensures
        r@ == bits_to_text(b),
        is_finite_bits(b) ==> text_to_bits(r@) == Some(b),
{
    format!("{}", rustc_apfloat::ieee::Double::from_bits(b as u128))
}

/// Relies on `rustc_apfloat`'s `Display` for `Double` with an explicit
/// precision and a width wide enough that every finite magnitude prints in
/// plain decimal rather than exponent notation. The formatter requires a
/// positive precision: at zero its digit-dropping loop can discard every
/// digit and fail its non-empty-buffer assertion.
#[verifier::external_body]
pub fn num_text_prec(b: u64, prec: u64) -> (r: String)
    requires
        1 <= prec,
    ensures
        r@ == bits_to_text_prec(b, prec),
{
    format!("{:400.*}", prec as usize, rustc_apfloat::ieee::Double::from_bits(b as u128))
}

/// The display text of an encoded value: the fewest significant digits
/// that parse back to the same encoding, or the full-precision text where
/// none do.
pub fn num_to_text(b: u64) -> (r: String)
    ensures
        r@ == display_text(b, 1),
        is_finite_bits(b) ==> text_to_bits(r@) == Some(b),
{
    let mut prec: u64 = 1;
    while prec <= 340
        invariant
            1 <= prec,
            display_text(b, 1) == display_text(b, prec),
        decreases 341 - prec,
    {
        let t = num_text_prec(b, prec);
        match num_parse(t.as_str()) {
            Some(b2) => {
                if b2 == b && !crate::strings::str_has_char(t.as_str(), 'E') {
                    return t;
                }
            },
            None => {},
        }
        prec = prec + 1;
    }
    num_full_text(b)
}

/// Exact equality test for IEEE-754 equality of two encoded values.
pub fn num_eq(a: u64, b: u64) -> (r: bool)
    ensures
        r == num_eq_bits(a, b),
{
    !is_nan(a) && !is_nan(b) && (a == b || (is_zero(a) && is_zero(b)))
}

/// Exact strict-order test on two encoded values.
pub fn num_lt(a: u64, b: u64) -> (r: bool)
    ensures
        r == num_lt_bits(a, b),
{
    if is_nan(a) || is_nan(b) || (is_zero(a) && is_zero(b)) {
        false
    } else if (a & SIGN_MASK != 0) != (b & SIGN_MASK != 0) {
        a & SIGN_MASK != 0
    } else if a & SIGN_MASK == 0 {
        (a & (EXP_MASK | FRAC_MASK)) < (b & (EXP_MASK | FRAC_MASK))
    } else {
        (a & (EXP_MASK | FRAC_MASK)) > (b & (EXP_MASK | FRAC_MASK))
    }
}

/// Exact non-strict-order test on two encoded values.
pub fn num_le(a: u64, b: u64) -> (r: bool)
    ensures
        r == num_le_bits(a, b),
{
    num_lt(a, b) || num_eq(a, b)
}

/// NaN test, decided by the bits.
pub fn is_nan(b: u64) -> (r: bool)
    ensures
        r == is_nan_bits(b),
{
    b & EXP_MASK == EXP_MASK && b & FRAC_MASK != 0
}

/// Zero test, true of both signed zeros.
pub fn is_zero(b: u64) -> (r: bool)
    ensures
        r == is_zero_bits(b),
{
    b & (EXP_MASK | FRAC_MASK) == 0
}

/// Negation by flipping the sign bit.
pub fn num_neg(b: u64) -> (r: u64)
    ensures
        r == neg_bits(b),
{
    b ^ SIGN_MASK
}

/// Integrality test, decided by the bits.
pub fn num_is_integral(b: u64) -> (r: bool)
    ensures
        r == is_integral_bits(b),
{
    let e: u64 = (b >> 52) & 0x7FF;
    if b & EXP_MASK == EXP_MASK {
        false
    } else if b & (EXP_MASK | FRAC_MASK) == 0 {
        true
    } else if e < 1023 {
        false
    } else if e >= 1075 {
        true
    } else {
        let s = 1075 - e;
        assert(1u64 << s >= 1) by (bit_vector)
            requires
                1 <= s <= 52,
        ;
        b & ((1u64 << s) - 1) == 0
    }
}

/// Reads the integer magnitude out of integral bits whose biased exponent is
/// at most `1085`, so that the magnitude fits in `u64`.
pub fn num_small_int(b: u64) -> (r: u64)
    requires
        is_integral_bits(b),
        exp_field(b) <= 1085,
    ensures
        r == small_int_bits(b),
{
    let e: u64 = (b >> 52) & 0x7FF;
    if b & (EXP_MASK | FRAC_MASK) == 0 {
        0
    } else if e <= 1075 {
        ((b & FRAC_MASK) | 0x0010_0000_0000_0000) >> (1075 - e)
    } else {
        ((b & FRAC_MASK) | 0x0010_0000_0000_0000) << (e - 1075)
    }
}

/// The encoding of one.
pub open spec fn one_bits() -> u64 {
    int_to_bits(1)
}

/// Power of an encoded base to a non-negative integer exponent, computed by
/// binary exponentiation over rounding multiplication.
pub open spec fn pow_bits(base: u64, k: nat) -> u64
    decreases k,
{
    if k == 0 {
        one_bits()
    } else if k % 2 == 0 {
        mul_bits(pow_bits(base, k / 2), pow_bits(base, k / 2))
    } else {
        mul_bits(pow_bits(base, (k - 1) as nat), base)
    }
}

/// Result of the `^` operator on two encoded values: defined when the
/// exponent is integral with magnitude below `2^63`, as the binary power,
/// with a negative exponent taking the reciprocal.
pub open spec fn exponent_result(a: u64, b: u64) -> Option<u64> {
    if !is_integral_bits(b) || exp_field(b) > 1085 {
        None
    } else {
        let k = small_int_bits(b);
        if sign_bits(b) && !is_zero_bits(b) {
            Some(div_bits(one_bits(), pow_bits(a, k as nat)))
        } else {
            Some(pow_bits(a, k as nat))
        }
    }
}

/// Binary exponentiation to a non-negative integer exponent.
pub fn num_powi(base: u64, k: u64) -> (r: u64)
    ensures
        r == pow_bits(base, k as nat),
    decreases k,
{
    if k == 0 {
        num_from_int(1)
    } else if k % 2 == 0 {
        let h = num_powi(base, k / 2);
        num_mul(h, h)
    } else {
        let h = num_powi(base, k - 1);
        num_mul(h, base)
    }
}

/// The `^` operator on encoded values; `None` where the exponent is not an
/// integer of magnitude below `2^63`.
pub fn num_pow(a: u64, b: u64) -> (r: Option<u64>)
    ensures
        r == exponent_result(a, b),
{
    let e: u64 = (b >> 52) & 0x7FF;
    if !num_is_integral(b) || e > 1085 {
        None
    } else {
        let k = num_small_int(b);
        let p = num_powi(a, k);
        if (b & SIGN_MASK != 0) && !(b & (EXP_MASK | FRAC_MASK) == 0) {
            Some(num_div(num_from_int(1), p))
        } else {
            Some(p)
        }
    }
}

/// Exact factorial of a non-negative integer.
pub open spec fn fact_int(k: nat) -> nat
    decreases k,
{
    if k == 0 {
        1
    } else {
        k * fact_int((k - 1) as nat)
    }
}

/// Factorial continued over rounding multiplication beyond the range where
/// the exact product fits in `u128`.
pub open spec fn fact_chain(k: nat) -> u64
    decreases k,
{
    if k <= 34 {
        int_to_bits(fact_int(k) as u128)
    } else {
        mul_bits(fact_chain((k - 1) as nat), int_to_bits(k as u128))
    }
}

/// Result of the postfix `!` operator on an encoded value: positive infinity
/// for a negative value, the factorial for a non-negative integer (positive
/// infinity beyond `170`, where it exceeds the format's range), and `None`
/// for a non-integral value.
pub open spec fn factorial_result(b: u64) -> Option<u64> {
    if num_lt_bits(b, 0u64) {
        Some(INF_BITS)
    } else if !is_integral_bits(b) {
        None
    } else if exp_field(b) >= 1031 {
        Some(INF_BITS)
    } else {
        let k = small_int_bits(b);
        if k > 170 {
            Some(INF_BITS)
        } else {
            Some(fact_chain(k as nat))
        }
    }
}

proof fn lemma_fact_pos(k: nat)
    ensures
        1 <= fact_int(k),
    decreases k,
{
    if k > 0 {
        lemma_fact_pos((k - 1) as nat);
        assert(1 <= k * fact_int((k - 1) as nat)) by (nonlinear_arith)
            requires
                k >= 1,
                fact_int((k - 1) as nat) >= 1,
        ;
    }
}

proof fn lemma_fact_mono(a: nat, b: nat)
    requires
        a <= b,
    ensures
        fact_int(a) <= fact_int(b),
    decreases b,
{
    if a < b {
        lemma_fact_mono(a, (b - 1) as nat);
        lemma_fact_pos((b - 1) as nat);
        assert(fact_int((b - 1) as nat) <= b * fact_int((b - 1) as nat)) by (nonlinear_arith)
            requires
                b >= 1,
                fact_int((b - 1) as nat) >= 1,
        ;
    }
}

proof fn lemma_fact34_bound()
    ensures
        fact_int(34) < 0x1_0000_0000_0000_0000_0000_0000_0000_0000,
{
    assert(fact_int(0) == 1nat);
    assert(fact_int(1) == 1nat) by {
        assert(fact_int(1) == 1 * fact_int(0));
    }
    assert(fact_int(2) == 2nat) by {
        assert(fact_int(2) == 2 * fact_int(1));
    }
    assert(fact_int(3) == 6nat) by {
        assert(fact_int(3) == 3 * fact_int(2));
    }
    assert(fact_int(4) == 24nat) by {
        assert(fact_int(4) == 4 * fact_int(3));
    }
    assert(fact_int(5) == 120nat) by {
        assert(fact_int(5) == 5 * fact_int(4));
    }
    assert(fact_int(6) == 720nat) by {
        assert(fact_int(6) == 6 * fact_int(5));
    }
    assert(fact_int(7) == 5040nat) by {
        assert(fact_int(7) == 7 * fact_int(6));
    }
    assert(fact_int(8) == 40320nat) by {
        assert(fact_int(8) == 8 * fact_int(7));
    }
    assert(fact_int(9) == 362880nat) by {
        assert(fact_int(9) == 9 * fact_int(8));
    }
    assert(fact_int(10) == 3628800nat) by {
        assert(fact_int(10) == 10 * fact_int(9));
    }
    assert(fact_int(11) == 39916800nat) by {
        assert(fact_int(11) == 11 * fact_int(10));
    }
    assert(fact_int(12) == 479001600nat) by {
        assert(fact_int(12) == 12 * fact_int(11));
    }
    assert(fact_int(13) == 6227020800nat) by {
        assert(fact_int(13) == 13 * fact_int(12));
    }
    assert(fact_int(14) == 87178291200nat) by {
        assert(fact_int(14) == 14 * fact_int(13));
    }
    assert(fact_int(15) == 1307674368000nat) by {
        assert(fact_int(15) == 15 * fact_int(14));
    }
    assert(fact_int(16) == 20922789888000nat) by {
        assert(fact_int(16) == 16 * fact_int(15));
    }
    assert(fact_int(17) == 355687428096000nat) by {
        assert(fact_int(17) == 17 * fact_int(16));
    }
    assert(fact_int(18) == 6402373705728000nat) by {
        assert(fact_int(18) == 18 * fact_int(17));
    }
    assert(fact_int(19) == 121645100408832000nat) by {
        assert(fact_int(19) == 19 * fact_int(18));
    }
    assert(fact_int(20) == 2432902008176640000nat) by {
        assert(fact_int(20) == 20 * fact_int(19));
    }
    assert(fact_int(21) == 51090942171709440000nat) by {
        assert(fact_int(21) == 21 * fact_int(20));
    }
    assert(fact_int(22) == 1124000727777607680000nat) by {
        assert(fact_int(22) == 22 * fact_int(21));
    }
    assert(fact_int(23) == 25852016738884976640000nat) by {
        assert(fact_int(23) == 23 * fact_int(22));
    }
    assert(fact_int(24) == 620448401733239439360000nat) by {
        assert(fact_int(24) == 24 * fact_int(23));
    }
    assert(fact_int(25) == 15511210043330985984000000nat) by {
        assert(fact_int(25) == 25 * fact_int(24));
    }
    assert(fact_int(26) == 403291461126605635584000000nat) by {
        assert(fact_int(26) == 26 * fact_int(25));
    }
    assert(fact_int(27) == 10888869450418352160768000000nat) by {
        assert(fact_int(27) == 27 * fact_int(26));
    }
    assert(fact_int(28) == 304888344611713860501504000000nat) by {
        assert(fact_int(28) == 28 * fact_int(27));
    }
    assert(fact_int(29) == 8841761993739701954543616000000nat) by {
        assert(fact_int(29) == 29 * fact_int(28));
    }
    assert(fact_int(30) == 265252859812191058636308480000000nat) by {
        assert(fact_int(30) == 30 * fact_int(29));
    }
    assert(fact_int(31) == 8222838654177922817725562880000000nat) by {
        assert(fact_int(31) == 31 * fact_int(30));
    }
    assert(fact_int(32) == 263130836933693530167218012160000000nat) by {
        assert(fact_int(32) == 32 * fact_int(31));
    }
    assert(fact_int(33) == 8683317618811886495518194401280000000nat) by {
        assert(fact_int(33) == 33 * fact_int(32));
    }
    assert(fact_int(34) == 295232799039604140847618609643520000000nat) by {
        assert(fact_int(34) == 34 * fact_int(33));
    }
}

/// The postfix `!` operator on encoded values; `None` where the value is
/// finite but not an integer.
pub fn num_factorial(b: u64) -> (r: Option<u64>)
    ensures
        r == factorial_result(b),
{
    let e: u64 = (b >> 52) & 0x7FF;
    if num_lt(b, 0) {
        Some(INF_BITS)
    } else if !num_is_integral(b) {
        None
    } else if e >= 1031 {
        Some(INF_BITS)
    } else {
        let k = num_small_int(b);
        if k > 170 {
            Some(INF_BITS)
        } else if k <= 34 {
            let mut acc: u128 = 1;
            let mut i: u64 = 0;
            proof {
                lemma_fact34_bound();
            }
            while i < k
                invariant
                    i <= k,
                    k <= 34,
                    acc == fact_int(i as nat),
                    fact_int(34) < 0x1_0000_0000_0000_0000_0000_0000_0000_0000,
                decreases k - i,
            {
                proof {
                    lemma_fact_mono((i + 1) as nat, 34);
                    assert(fact_int((i + 1) as nat) == (i + 1) * fact_int(i as nat));
                }
                i = i + 1;
                acc = (i as u128) * acc;
            }
            Some(num_from_int(acc))
        } else {
            let mut acc = {
                let mut acc: u128 = 1;
                let mut i: u64 = 0;
                proof {
                    lemma_fact34_bound();
                }
                while i < 34
                    invariant
                        i <= 34,
                        acc == fact_int(i as nat),
                        fact_int(34) < 0x1_0000_0000_0000_0000_0000_0000_0000_0000,
                    decreases 34 - i,
                {
                    proof {
                        lemma_fact_mono((i + 1) as nat, 34);
                        assert(fact_int((i + 1) as nat) == (i + 1) * fact_int(i as nat));
                    }
                    i = i + 1;
                    acc = (i as u128) * acc;
                }
                num_from_int(acc)
            };
            let mut i: u64 = 34;
            while i < k
                invariant
                    34 <= i <= k,
                    k <= 170,
                    acc == fact_chain(i as nat),
                decreases k - i,
            {
                i = i + 1;
                acc = num_mul(acc, num_from_int(i as u128));
            }
            Some(acc)
        }
    }
}

} // verus!
