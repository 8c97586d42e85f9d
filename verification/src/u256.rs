//! A fixed-width 256-bit unsigned integer, stored as four 64-bit limbs in
//! little-endian order, with overflow-checked arithmetic.
//!
//! The mathematical value of a `U256` is its view (`@`), a `nat` in
//! `[0, 2^256 - 1]`. Every operation is specified against that view.

use vstd::prelude::*;

verus! {

/// 2^64, the weight of one limb.
pub open spec fn limb_base() -> nat {
    0x1_0000_0000_0000_0000nat
}

/// 2^256; every `U256` value is strictly below this bound.
pub open spec fn u256_bound() -> nat {
    0x1_0000_0000_0000_0000_0000_0000_0000_0000_0000_0000_0000_0000_0000_0000_0000_0000nat
}

/// A 256-bit unsigned integer: four 64-bit limbs, least significant first.
#[derive(Clone, Copy, PartialEq, Eq, Structural, Debug)]
pub struct U256 {
    limb0: u64,
    limb1: u64,
    limb2: u64,
    limb3: u64,
}

impl View for U256 {
    type V = nat;

    closed spec fn view(&self) -> nat {
        (self.limb0
            + self.limb1 * 0x1_0000_0000_0000_0000nat
            + self.limb2 * 0x1_0000_0000_0000_0000_0000_0000_0000_0000nat
            + self.limb3
                * 0x1_0000_0000_0000_0000_0000_0000_0000_0000_0000_0000_0000_0000nat) as nat
    }
}

impl U256 {
    /// Every value of the type lies in the canonical range.
    pub proof fn lemma_in_range(self)
        ensures
            self@ < u256_bound(),
    {
    }

    /// The zero value.
    pub fn zero() -> (r: U256)
        ensures
            r@ == 0,
    {
        U256 { limb0: 0, limb1: 0, limb2: 0, limb3: 0 }
    }

    /// The largest representable value, 2^256 - 1.
    pub fn max() -> (r: U256)
        ensures
            r@ == u256_bound() - 1,
    {
        U256 {
            limb0: 0xffff_ffff_ffff_ffff,
            limb1: 0xffff_ffff_ffff_ffff,
            limb2: 0xffff_ffff_ffff_ffff,
            limb3: 0xffff_ffff_ffff_ffff,
        }
    }

    /// Embeds a 64-bit value.
    pub fn from_u64(v: u64) -> (r: U256)
        ensures
            r@ == v,
    {
        U256 { limb0: v, limb1: 0, limb2: 0, limb3: 0 }
    }

    /// Whether the value is zero.
    pub fn is_zero(&self) -> (r: bool)
        ensures
            r <==> self@ == 0,
    {
        self.limb0 == 0 && self.limb1 == 0 && self.limb2 == 0 && self.limb3 == 0
    }

    /// Adds two values, reporting overflow instead of wrapping: the sum comes
    /// back exactly when it fits in 256 bits, and `None` otherwise.
    pub fn checked_add(&self, other: &U256) -> (r: Option<U256>)
        ensures
            r is Some <==> self@ + other@ < u256_bound(),
            r matches Some(s) ==> s@ == self@ + other@,
    {
        let s0: u128 = self.limb0 as u128 + other.limb0 as u128;
        let n0: u64 = (s0 % 0x1_0000_0000_0000_0000) as u64;
        let c0: u128 = s0 / 0x1_0000_0000_0000_0000;
        let s1: u128 = self.limb1 as u128 + other.limb1 as u128 + c0;
        let n1: u64 = (s1 % 0x1_0000_0000_0000_0000) as u64;
        let c1: u128 = s1 / 0x1_0000_0000_0000_0000;
        let s2: u128 = self.limb2 as u128 + other.limb2 as u128 + c1;
        let n2: u64 = (s2 % 0x1_0000_0000_0000_0000) as u64;
        let c2: u128 = s2 / 0x1_0000_0000_0000_0000;
        let s3: u128 = self.limb3 as u128 + other.limb3 as u128 + c2;
        let n3: u64 = (s3 % 0x1_0000_0000_0000_0000) as u64;
        let c3: u128 = s3 / 0x1_0000_0000_0000_0000;
        proof {
            assert(s0 == c0 * limb_base() + n0);
            assert(s1 == c1 * limb_base() + n1);
            assert(s2 == c2 * limb_base() + n2);
            assert(s3 == c3 * limb_base() + n3);
            assert(c0 <= 1 && c1 <= 1 && c2 <= 1 && c3 <= 1);
        }
        if c3 == 0 {
            Some(U256 { limb0: n0, limb1: n1, limb2: n2, limb3: n3 })
        } else {
            None
        }
    }

    /// Halves the value, rounding down.
    fn half(&self) -> (r: U256)
        ensures
            r@ == self@ / 2,
    {
        let n0: u64 = self.limb0 / 2 + (self.limb1 % 2) * 0x8000_0000_0000_0000;
        let n1: u64 = self.limb1 / 2 + (self.limb2 % 2) * 0x8000_0000_0000_0000;
        let n2: u64 = self.limb2 / 2 + (self.limb3 % 2) * 0x8000_0000_0000_0000;
        let n3: u64 = self.limb3 / 2;
        let r = U256 { limb0: n0, limb1: n1, limb2: n2, limb3: n3 };
        proof {
            assert(self@ == 2 * r@ + self.limb0 % 2);
        }
        r
    }

    /// Whether the value is odd.
    fn is_odd(&self) -> (r: bool)
        ensures
            r <==> self@ % 2 == 1,
    {
        proof {
            assert(self@ % 2 == self.limb0 % 2);
        }
        self.limb0 % 2 == 1
    }

    /// Multiplies two values, reporting overflow instead of wrapping: the
    /// product comes back exactly when it fits in 256 bits, and `None`
    /// otherwise.
    ///
    /// Works bit by bit over `other`: `acc` runs through `self` times the
    /// powers of two, and each set bit of the remaining multiplier adds the
    /// current `acc` into the result.
    pub fn checked_mul(&self, other: &U256) -> (r: Option<U256>)
        ensures
            r is Some <==> self@ * other@ < u256_bound(),
            r matches Some(p) ==> p@ == self@ * other@,
    {
        let mut result = U256::zero();
        let mut acc = *self;
        let mut rest = *other;
        while !rest.is_zero()
            invariant
                self@ * other@ == result@ + acc@ * rest@,
            decreases rest@,
        {
            let ghost q: nat = rest@ / 2;
            if rest.is_odd() {
                proof {
                    assert(acc@ * rest@ == 2 * (acc@ * q) + acc@) by (nonlinear_arith)
                        requires
                            rest@ == 2 * q + 1,
                    ;
                }
                match result.checked_add(&acc) {
                    Some(s) => {
                        result = s;
                    },
                    None => {
                        proof {
                            assert(acc@ * rest@ >= acc@) by (nonlinear_arith)
                                requires
                                    rest@ >= 1,
                            ;
                        }
                        return None;
                    },
                }
            } else {
                proof {
                    assert(acc@ * rest@ == 2 * (acc@ * q)) by (nonlinear_arith)
                        requires
                            rest@ == 2 * q,
                    ;
                }
            }
            // here: self@ * other@ == result@ + 2 * (acc@ * q)
            rest = rest.half();
            if !rest.is_zero() {
                match acc.checked_add(&acc) {
                    Some(d) => {
                        proof {
                            assert((acc@ + acc@) * q == 2 * (acc@ * q)) by (nonlinear_arith);
                        }
                        acc = d;
                    },
                    None => {
                        proof {
                            assert(2 * (acc@ * q) >= acc@ + acc@) by (nonlinear_arith)
                                requires
                                    q >= 1,
                            ;
                        }
                        return None;
                    },
                }
            } else {
                proof {
                    assert(acc@ * q == 0) by (nonlinear_arith)
                        requires
                            q == 0,
                    ;
                }
            }
        }
        Some(result)
    }

    /// The four 64-bit limbs, least significant first.
    pub fn to_limbs(&self) -> (r: [u64; 4])
        ensures
            r[0] + r[1] * limb_base() + r[2] * limb_base() * limb_base()
                + r[3] * limb_base() * limb_base() * limb_base() == self@,
    {
        [self.limb0, self.limb1, self.limb2, self.limb3]
    }

    /// Builds a value from four 64-bit limbs, least significant first.
    pub fn from_limbs(limbs: [u64; 4]) -> (r: U256)
        ensures
            r@ == limbs[0] + limbs[1] * limb_base() + limbs[2] * limb_base() * limb_base()
                + limbs[3] * limb_base() * limb_base() * limb_base(),
    {
        U256 { limb0: limbs[0], limb1: limbs[1], limb2: limbs[2], limb3: limbs[3] }
    }
}

} // verus!
