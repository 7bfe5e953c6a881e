//! Exact rational data for certified root isolation: every finite binary64
//! coefficient is the dyadic rational `mantissa * 2^exponent`, and a power
//! polynomial with such coefficients is held normalized, so that its length
//! is one past its last nonzero coefficient.
use vstd::prelude::*;

verus! {

/// `2^52`, the weight of the implicit leading bit of a normal binary64.
pub const HIDDEN_BIT: u64 = 0x10_0000_0000_0000;

/// The biased exponent field of a binary64 bit pattern.
pub open spec fn exponent_field(bits: u64) -> int {
    (bits as int / HIDDEN_BIT as int) % 2048
}

/// The fraction field of a binary64 bit pattern.
pub open spec fn fraction_field(bits: u64) -> int {
    bits as int % HIDDEN_BIT as int
}

/// The sign bit of a binary64 bit pattern.
pub open spec fn sign_field(bits: u64) -> bool {
    bits as int >= 0x8000_0000_0000_0000
}

/// A binary64 bit pattern denotes a finite number (its exponent field is
/// not all ones).
pub open spec fn finite_bits(bits: u64) -> bool {
    exponent_field(bits) != 2047
}

/// The finite number a bit pattern denotes, as `(mantissa, exponent)` with
/// value `mantissa * 2^exponent`: zero (of either sign) is `(0, 0)`, a
/// subnormal is `±fraction * 2^-1074`, a normal number
/// `±(2^52 + fraction) * 2^(e - 1075)`.
pub open spec fn decode(bits: u64) -> (int, int) {
    let e = exponent_field(bits);
    let f = fraction_field(bits);
    let magnitude = if e == 0 { f } else { f + HIDDEN_BIT as int };
    let exponent = if e == 0 { -1074 } else { e - 1075 };
    if e == 0 && f == 0 {
        (0, 0)
    } else if sign_field(bits) {
        (-magnitude, exponent)
    } else {
        (magnitude, exponent)
    }
}

/// The exact dyadic rational `mantissa * 2^exponent`.
#[derive(Debug, Clone, Copy, PartialEq, Eq, Structural)]
pub struct Dyadic {
    pub mantissa: i64,
    pub exponent: i32,
}

impl Dyadic {
    pub open spec fn view(self) -> (int, int) {
        (self.mantissa as int, self.exponent as int)
    }
}

/// The exact rational value of the binary64 number with bit pattern `bits`,
/// or `None` when it is infinite or not a number.
pub fn dyadic_from_bits(bits: u64) -> (value: Option<Dyadic>)
    ensures
        value.is_some() <==> finite_bits(bits),
        value.is_some() ==> value.unwrap().view() == decode(bits),
{
    let exponent_bits: u64 = (bits >> 52u64) & 0x7ff;
    let fraction: u64 = bits & 0xf_ffff_ffff_ffff;
    let negative: bool = (bits >> 63u64) != 0;
    proof {
        assert(exponent_bits == (bits / 0x10_0000_0000_0000u64) % 2048 && fraction == bits % 0x10_0000_0000_0000u64
            && (negative <==> bits >= 0x8000_0000_0000_0000u64)) by (bit_vector)
            requires
                exponent_bits == (bits >> 52u64) & 0x7ff,
                fraction == bits & 0xf_ffff_ffff_ffffu64,
                negative == ((bits >> 63u64) != 0),
        ;
    }
    if exponent_bits == 0x7ff {
        return None;
    }
    if exponent_bits == 0 && fraction == 0 {
        return Some(Dyadic { mantissa: 0, exponent: 0 });
    }
    let (magnitude, exponent): (u64, i32) = if exponent_bits == 0 {
        (fraction, -1074)
    } else {
        (fraction + HIDDEN_BIT, exponent_bits as i32 - 1075)
    };
    let mantissa: i64 = if negative { -(magnitude as i64) } else { magnitude as i64 };
    Some(Dyadic { mantissa, exponent })
}

/// Flipping the sign bit of a finite nonzero number negates its mantissa
/// and keeps its exponent; zero stays zero.
pub proof fn lemma_decode_negation(bits: u64)
    ensures
        decode(bits ^ 0x8000_0000_0000_0000u64) == (-decode(bits).0, decode(bits).1),
{
    let flipped = bits ^ 0x8000_0000_0000_0000u64;
    assert((flipped / 0x10_0000_0000_0000u64) % 2048 == (bits / 0x10_0000_0000_0000u64) % 2048
        && flipped % 0x10_0000_0000_0000u64 == bits % 0x10_0000_0000_0000u64
        && (flipped >= 0x8000_0000_0000_0000u64 <==> !(bits >= 0x8000_0000_0000_0000u64))) by (bit_vector)
        requires
            flipped == bits ^ 0x8000_0000_0000_0000u64,
    ;
}

/// The length of a coefficient list once its trailing zero coefficients
/// are dropped.
pub open spec fn significant_len(coefficients: Seq<(int, int)>, n: nat) -> nat
    decreases n,
{
    if n == 0 {
        0
    } else if coefficients[n - 1].0 != 0 {
        n
    } else {
        significant_len(coefficients, (n - 1) as nat)
    }
}

/// The decoded coefficients of a list of bit patterns.
pub open spec fn decoded(bits: Seq<u64>) -> Seq<(int, int)> {
    Seq::new(bits.len(), |i: int| decode(bits[i]))
}

/// A power polynomial `sum_k c_k x^k` with exact dyadic coefficients,
/// lowest degree first, normalized: empty (the zero polynomial) or with a
/// nonzero last coefficient.
pub struct RationalPolynomial {
    pub coefficients: Vec<Dyadic>,
}

impl RationalPolynomial {
    /// The coefficients as `(mantissa, exponent)` pairs.
    pub open spec fn view(&self) -> Seq<(int, int)> {
        Seq::new(self.coefficients@.len(), |i: int| self.coefficients@[i].view())
    }

    /// Normalized: no trailing zero coefficient.
    pub open spec fn wf(&self) -> bool {
        self.coefficients@.len() == 0 || self.coefficients@.last().mantissa != 0
    }

    /// The zero polynomial.
    pub fn new() -> (polynomial: Self)
        ensures
            polynomial.wf(),
            polynomial@ == Seq::<(int, int)>::empty(),
    {
        let polynomial = RationalPolynomial { coefficients: Vec::new() };
        assert(polynomial@ =~= Seq::<(int, int)>::empty());
        polynomial
    }

    /// The polynomial with the binary64 coefficients `coefficient_bits`
    /// (lowest degree first), or `None` when one of them is not finite.
    pub fn from_bits(coefficient_bits: &Vec<u64>) -> (polynomial: Option<Self>)
        ensures
            polynomial.is_some() <==> forall|i: int| 0 <= i < coefficient_bits@.len() ==> finite_bits(#[trigger] coefficient_bits@[i]),
            polynomial.is_some() ==> polynomial.unwrap().wf(),
            polynomial.is_some() ==> polynomial.unwrap()@ == decoded(coefficient_bits@).take(
                significant_len(decoded(coefficient_bits@), coefficient_bits@.len()) as int,
            ),
    {
        let ghost all = decoded(coefficient_bits@);
        let mut coefficients: Vec<Dyadic> = Vec::new();
        let mut i: usize = 0;
        while i < coefficient_bits.len()
            invariant
                i <= coefficient_bits@.len(),
                all == decoded(coefficient_bits@),
                coefficients@.len() == i,
                forall|j: int| 0 <= j < i ==> finite_bits(#[trigger] coefficient_bits@[j]),
                forall|j: int| 0 <= j < i ==> (#[trigger] coefficients@[j]).view() == all[j],
            decreases coefficient_bits@.len() - i,
        {
            match dyadic_from_bits(coefficient_bits[i]) {
                Some(value) => coefficients.push(value),
                None => return None,
            }
            i = i + 1;
        }
        let mut len: usize = coefficients.len();
        while len > 0 && coefficients[len - 1].mantissa == 0
            invariant
                len <= coefficients@.len() == all.len(),
                forall|j: int| 0 <= j < coefficients@.len() ==> (#[trigger] coefficients@[j]).view() == all[j],
                significant_len(all, all.len()) == significant_len(all, len as nat),
            decreases len,
        {
            len = len - 1;
        }
        coefficients.truncate(len);
        let polynomial = RationalPolynomial { coefficients };
        assert(polynomial@ =~= all.take(significant_len(all, all.len()) as int));
        Some(polynomial)
    }

    /// The degree: one less than the length. The zero polynomial has
    /// length 0, and `0 - 1` taken as a signed length and read back as
    /// `usize` gives `usize::MAX`.
    pub fn degree(&self) -> (degree: usize)
        ensures
            degree == if self@.len() == 0 { usize::MAX as int } else { self@.len() - 1 },
    {
        let len = self.coefficients.len();
        if len == 0 {
            usize::MAX
        } else {
            len - 1
        }
    }
}

/// Whether a bit pattern denotes zero (of either sign).
pub fn is_zero_bits(bits: u64) -> (zero: bool)
    ensures
        zero <==> (finite_bits(bits) && decode(bits).0 == 0),
{
    let zero = bits & 0x7fff_ffff_ffff_ffff == 0;
    proof {
        assert((bits & 0x7fff_ffff_ffff_ffffu64 == 0) <==> ((bits / 0x10_0000_0000_0000u64) % 2048 == 0
            && bits % 0x10_0000_0000_0000u64 == 0)) by (bit_vector);
    }
    zero
}

/// The length of a power coefficient list once trailing zero coefficients
/// are dropped, keeping at least the constant term of a nonempty list.
pub open spec fn trimmed_len(bits: Seq<u64>) -> nat {
    if bits.len() == 0 {
        0
    } else {
        let n = significant_len(decoded(bits), bits.len());
        if n == 0 { 1 } else { n }
    }
}

/// The significant length is at most the list's, ends on a nonzero
/// coefficient and leaves only zero coefficients after it.
proof fn lemma_significant_len_bound(coefficients: Seq<(int, int)>, n: nat)
    ensures
        significant_len(coefficients, n) <= n,
        significant_len(coefficients, n) > 0 ==> coefficients[significant_len(coefficients, n) - 1].0 != 0,
        forall|j: int| significant_len(coefficients, n) <= j < n ==> (#[trigger] coefficients[j]).0 == 0,
    decreases n,
{
    if n > 0 {
        lemma_significant_len_bound(coefficients, (n - 1) as nat);
    }
}

/// The length of a power coefficient list after its trailing zero
/// coefficients are dropped (at least one coefficient is kept).
pub fn trimmed_power_len(coefficient_bits: &Vec<u64>) -> (len: usize)
    ensures
        len == trimmed_len(coefficient_bits@),
{
    let ghost all = decoded(coefficient_bits@);
    let mut len: usize = coefficient_bits.len();
    proof {
        lemma_significant_len_bound(all, all.len());
    }
    while len > 1 && is_zero_bits(coefficient_bits[len - 1])
        invariant
            len <= coefficient_bits@.len() == all.len(),
            all == decoded(coefficient_bits@),
            coefficient_bits@.len() > 0 ==> len >= 1,
            significant_len(all, all.len()) == significant_len(all, len as nat),
        decreases len,
    {
        len = len - 1;
    }
    proof {
        if len == 1 && coefficient_bits@.len() > 0 {
            lemma_significant_len_bound(all, 1);
        }
    }
    len
}

/// The coefficients of the trimmed power polynomial to isolate real roots
/// of: `None` when there is nothing to isolate, because the trimmed
/// polynomial is constant or has a coefficient that is not finite (its
/// root list is then empty); otherwise the trimmed length.
pub fn isolation_len(coefficient_bits: &Vec<u64>) -> (len: Option<usize>)
    ensures
        len.is_none() <==> (trimmed_len(coefficient_bits@) < 2 || exists|i: int| 0 <= i < trimmed_len(coefficient_bits@)
            && !finite_bits(#[trigger] coefficient_bits@[i])),
        len.is_some() ==> len.unwrap() == trimmed_len(coefficient_bits@),
{
    let len = trimmed_power_len(coefficient_bits);
    proof {
        lemma_significant_len_bound(decoded(coefficient_bits@), coefficient_bits@.len());
    }
    if len < 2 {
        return None;
    }
    let mut i: usize = 0;
    while i < len
        invariant
            len == trimmed_len(coefficient_bits@) <= coefficient_bits@.len(),
            i <= len,
            forall|j: int| 0 <= j < i ==> finite_bits(#[trigger] coefficient_bits@[j]),
        decreases len - i,
    {
        if dyadic_from_bits(coefficient_bits[i]).is_none() {
            return None;
        }
        i = i + 1;
    }
    Some(len)
}

} // verus!
