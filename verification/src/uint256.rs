//! Unsigned 256-bit quantities: identifiers, counters and token amounts.
use vstd::prelude::*;

verus! {

/// The weight of one limb: 2^64.
pub open spec fn limb_base() -> nat {
    0x1_0000_0000_0000_0000
}

/// The number of values a [`U256`] can take: 2^256.
pub open spec fn modulus() -> nat {
    limb_base() * limb_base() * limb_base() * limb_base()
}

/// The sum of two quantities, reduced modulo 2^256.
pub open spec fn wrapping_sum(a: nat, b: nat) -> nat {
    if a + b < modulus() {
        a + b
    } else {
        (a + b - modulus()) as nat
    }
}

/// The difference of two quantities, reduced modulo 2^256.
pub open spec fn wrapping_difference(a: nat, b: nat) -> nat {
    if a >= b {
        (a - b) as nat
    } else {
        (a + modulus() - b) as nat
    }
}

/// An unsigned 256-bit integer, held as four 64-bit limbs, least significant
/// first.
#[derive(Clone, Copy, Debug, PartialEq, Eq, Structural)]
pub struct U256 {
    pub l0: u64,
    pub l1: u64,
    pub l2: u64,
    pub l3: u64,
}

impl View for U256 {
    type V = nat;

    /// The number that the limbs spell out.
    open spec fn view(&self) -> nat {
        (self.l0 + limb_base() * (self.l1 + limb_base() * (self.l2 + limb_base() * self.l3))) as nat
    }
}

/// Calls `wrapping_add` of `alloy_primitives::U256` (ruint's `Uint<256, 4>`,
/// whose `+` is this function) on the two quantities, handed over and taken
/// back limb by limb with `from_limbs` and `into_limbs`, least significant
/// limb first. Trusted: the result is the sum modulo 2^256.
#[verifier::external_body]
fn uint_wrapping_add(a: U256, b: U256) -> (r: U256)
    ensures
        r@ == wrapping_sum(a@, b@),
{
    let x = alloy_primitives::U256::from_limbs([a.l0, a.l1, a.l2, a.l3]);
    let y = alloy_primitives::U256::from_limbs([b.l0, b.l1, b.l2, b.l3]);
    let [l0, l1, l2, l3] = x.wrapping_add(y).into_limbs();
    U256 { l0, l1, l2, l3 }
}

/// Calls `wrapping_sub` of `alloy_primitives::U256` (ruint's `Uint<256, 4>`,
/// whose `-` is this function) on the two quantities, handed over and taken
/// back limb by limb. Trusted: the result is the difference modulo 2^256.
#[verifier::external_body]
fn uint_wrapping_sub(a: U256, b: U256) -> (r: U256)
    ensures
        r@ == wrapping_difference(a@, b@),
{
    let x = alloy_primitives::U256::from_limbs([a.l0, a.l1, a.l2, a.l3]);
    let y = alloy_primitives::U256::from_limbs([b.l0, b.l1, b.l2, b.l3]);
    let [l0, l1, l2, l3] = x.wrapping_sub(y).into_limbs();
    U256 { l0, l1, l2, l3 }
}

/// Calls `<=` of `alloy_primitives::U256` on the two quantities, handed over
/// limb by limb. Trusted: the answer is whether the first number is at most
/// the second.
#[verifier::external_body]
fn uint_le(a: U256, b: U256) -> (r: bool)
    ensures
        r == (a@ <= b@),
{
    let x = alloy_primitives::U256::from_limbs([a.l0, a.l1, a.l2, a.l3]);
    let y = alloy_primitives::U256::from_limbs([b.l0, b.l1, b.l2, b.l3]);
    x <= y
}

/// Every quantity lies below 2^256.
pub proof fn lemma_value_bounded(a: U256)
    ensures
        a@ < modulus(),
{
    let b = limb_base() as int;
    let hi2 = a.l2 + b * a.l3;
    assert(hi2 <= b * b - 1) by (nonlinear_arith)
        requires
            hi2 == a.l2 + b * a.l3,
            0 <= a.l2 <= b - 1,
            0 <= a.l3 <= b - 1,
            b > 0,
    ;
    let hi1 = a.l1 + b * hi2;
    assert(hi1 <= b * b * b - 1) by (nonlinear_arith)
        requires
            hi1 == a.l1 + b * hi2,
            0 <= a.l1 <= b - 1,
            0 <= hi2 <= b * b - 1,
            b > 0,
    ;
    assert(a.l0 + b * hi1 <= b * b * b * b - 1) by (nonlinear_arith)
        requires
            0 <= a.l0 <= b - 1,
            0 <= hi1 <= b * b * b - 1,
            b > 0,
    ;
}

/// One more than any `u64` still lies below 2^256.
pub proof fn lemma_modulus_large()
    ensures
        modulus() > u64::MAX + 1,
{
    let b = limb_base() as int;
    assert(b * b * b * b >= 2 * b) by (nonlinear_arith)
        requires
            b >= 2,
    ;
}

impl U256 {
    /// The quantity zero.
    pub fn zero() -> (r: U256)
        ensures
            r@ == 0,
    {
        U256 { l0: 0, l1: 0, l2: 0, l3: 0 }
    }

    /// The quantity `x`.
    pub fn from_u64(x: u64) -> (r: U256)
        ensures
            r@ == x,
    {
        U256 { l0: x, l1: 0, l2: 0, l3: 0 }
    }

    /// The quantity with the given limbs, least significant first.
    pub fn from_limbs(limbs: [u64; 4]) -> (r: U256)
        ensures
            r == (U256 { l0: limbs[0], l1: limbs[1], l2: limbs[2], l3: limbs[3] }),
    {
        U256 { l0: limbs[0], l1: limbs[1], l2: limbs[2], l3: limbs[3] }
    }

    /// The four limbs, least significant first.
    pub fn to_limbs(self) -> (r: [u64; 4])
        ensures
            r@ == seq![self.l0, self.l1, self.l2, self.l3],
    {
        [self.l0, self.l1, self.l2, self.l3]
    }

    /// The quantity as a `u64`, where it fits in one.
    pub fn to_u64(self) -> (r: Option<u64>)
        ensures
            r.is_some() <==> self@ <= u64::MAX,
            r.is_some() ==> r.unwrap() == self@,
    {
        if self.l1 == 0 && self.l2 == 0 && self.l3 == 0 {
            Some(self.l0)
        } else {
            None
        }
    }

    /// Whether the quantity is zero.
    pub fn is_zero(self) -> (r: bool)
        ensures
            r == (self@ == 0),
    {
        self.l0 == 0 && self.l1 == 0 && self.l2 == 0 && self.l3 == 0
    }

    /// Whether `self` is at most `other`.
    pub fn le(self, other: U256) -> (r: bool)
        ensures
            r == (self@ <= other@),
    {
        uint_le(self, other)
    }

    /// The sum of the two quantities, reduced modulo 2^256.
    pub fn wrapping_add(self, other: U256) -> (r: U256)
        ensures
            r@ == wrapping_sum(self@, other@),
            self@ + other@ < modulus() ==> r@ == self@ + other@,
    {
        uint_wrapping_add(self, other)
    }

    /// The difference of the two quantities, reduced modulo 2^256.
    pub fn wrapping_sub(self, other: U256) -> (r: U256)
        ensures
            r@ == wrapping_difference(self@, other@),
            other@ <= self@ ==> r@ == self@ - other@,
    {
        uint_wrapping_sub(self, other)
    }

    /// The quantity one larger, where there is one: the largest quantity is
    /// followed by zero.
    pub fn successor(self) -> (r: U256)
        ensures
            r@ == wrapping_sum(self@, 1),
            self@ <= u64::MAX ==> r@ == self@ + 1,
    {
        proof {
            lemma_modulus_large();
        }
        uint_wrapping_add(self, U256::from_u64(1))
    }
}

} // verus!
