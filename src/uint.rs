//! Fixed-width unsigned integers of 256 and 512 bits, built from `u128`
//! limbs, with checked arithmetic that reports overflow and underflow
//! instead of wrapping.

use vstd::prelude::*;

verus! {

/// The number of distinct values of one `u128` limb.
pub open spec fn limb() -> nat {
    u128::MAX as nat + 1
}

/// The largest value a `U256` can hold.
pub open spec fn u256_max() -> nat {
    (half() - 1) as nat
}

/// A 256-bit unsigned integer: `hi * 2^128 + lo`.
#[derive(Clone, Copy, Debug, PartialEq, Eq, Structural)]
pub struct U256 {
    pub hi: u128,
    pub lo: u128,
}

impl View for U256 {
    type V = nat;

    open spec fn view(&self) -> nat {
        self.hi as nat * limb() + self.lo as nat
    }
}

/// Every `U256` lies in `0 ..= u256_max()`.
pub proof fn lemma_u256_bounded(x: U256)
    ensures
        x@ <= u256_max(),
{
    assert(x.hi as nat * limb() <= u128::MAX as nat * limb()) by (nonlinear_arith)
        requires
            x.hi <= u128::MAX,
    ;
}

impl U256 {
    pub fn zero() -> (r: U256)
        ensures
            r@ == 0,
    {
        U256 { hi: 0, lo: 0 }
    }

    pub fn from_u128(v: u128) -> (r: U256)
        ensures
            r@ == v as nat,
    {
        U256 { hi: 0, lo: v }
    }

    pub fn is_zero(&self) -> (r: bool)
        ensures
            r == (self@ == 0),
    {
        assert(self.hi > 0 ==> self.hi as nat * limb() >= limb()) by (nonlinear_arith);
        self.hi == 0 && self.lo == 0
    }

    /// `self <= other` as numbers.
    pub fn le(&self, other: &U256) -> (r: bool)
        ensures
            r == (self@ <= other@),
    {
        if self.hi < other.hi {
            assert(self.hi as nat * limb() + limb() <= other.hi as nat * limb()) by (nonlinear_arith)
                requires
                    self.hi < other.hi,
            ;
            true
        } else if self.hi == other.hi {
            self.lo <= other.lo
        } else {
            assert(other.hi as nat * limb() + limb() <= self.hi as nat * limb()) by (nonlinear_arith)
                requires
                    other.hi < self.hi,
            ;
            false
        }
    }

    /// `self < other` as numbers.
    pub fn lt(&self, other: &U256) -> (r: bool)
        ensures
            r == (self@ < other@),
    {
        !other.le(self)
    }

    /// The sum, or `None` where it does not fit in 256 bits.
    pub fn checked_add(&self, other: &U256) -> (r: Option<U256>)
        ensures
            r.is_some() <==> self@ + other@ <= u256_max(),
            r.is_some() ==> r.unwrap()@ == self@ + other@,
    {
        let lo: u128;
        let carry: u128;
        if self.lo <= u128::MAX - other.lo {
            lo = self.lo + other.lo;
            carry = 0;
        } else {
            lo = self.lo - (u128::MAX - other.lo) - 1;
            carry = 1;
        }
        assert(self.lo as nat + other.lo as nat == lo as nat + carry as nat * limb());
        assert(self@ + other@ == (self.hi as nat + other.hi as nat + carry as nat) * limb()
            + lo as nat) by (nonlinear_arith)
            requires
                self@ == self.hi as nat * limb() + self.lo as nat,
                other@ == other.hi as nat * limb() + other.lo as nat,
                self.lo as nat + other.lo as nat == lo as nat + carry as nat * limb(),
        ;
        if self.hi <= u128::MAX - other.hi && self.hi + other.hi <= u128::MAX - carry {
            let r = U256 { hi: self.hi + other.hi + carry, lo };
            proof { lemma_u256_bounded(r); }
            Some(r)
        } else {
            assert(limb() * limb() <= (self.hi as nat + other.hi as nat + carry as nat) * limb())
                by (nonlinear_arith)
                requires
                    self.hi as nat + other.hi as nat + carry as nat >= limb(),
            ;
            None
        }
    }

    /// The difference, or `None` where `other` exceeds `self`.
    pub fn checked_sub(&self, other: &U256) -> (r: Option<U256>)
        ensures
            r.is_some() <==> other@ <= self@,
            r.is_some() ==> r.unwrap()@ == self@ - other@,
    {
        let lo: u128;
        let borrow: u128;
        if other.lo <= self.lo {
            lo = self.lo - other.lo;
            borrow = 0;
        } else {
            lo = u128::MAX - (other.lo - self.lo) + 1;
            borrow = 1;
        }
        assert(self.lo as int - other.lo as int == lo as int - borrow as int * limb());
        if other.hi <= self.hi && borrow <= self.hi - other.hi {
            let r = U256 { hi: self.hi - other.hi - borrow, lo };
            assert(self@ - other@ == r@) by (nonlinear_arith)
                requires
                    self@ == self.hi as nat * limb() + self.lo as nat,
                    other@ == other.hi as nat * limb() + other.lo as nat,
                    r@ == r.hi as nat * limb() + r.lo as nat,
                    r.hi == self.hi - other.hi - borrow,
                    self.lo as int - other.lo as int == lo as int - borrow as int * limb(),
                    r.lo == lo,
            ;
            Some(r)
        } else {
            assert(self@ < other@) by (nonlinear_arith)
                requires
                    self@ == self.hi as nat * limb() + self.lo as nat,
                    other@ == other.hi as nat * limb() + other.lo as nat,
                    self.lo as int - other.lo as int == lo as int - borrow as int * limb(),
                    lo < limb(),
                    borrow <= 1,
                    self.hi < other.hi + borrow,
            ;
            None
        }
    }
}

/// The weight of the top half of a `U512`: `2^256`, the number of
/// distinct values of a `U256`.
pub open spec fn half() -> nat {
    limb() * limb()
}

/// A 512-bit unsigned integer: `hi * 2^256 + lo`.
#[derive(Clone, Copy, Debug, PartialEq, Eq, Structural)]
pub struct U512 {
    pub hi: U256,
    pub lo: U256,
}

impl View for U512 {
    type V = nat;

    open spec fn view(&self) -> nat {
        self.hi@ * half() + self.lo@
    }
}

impl U512 {
    pub fn from_u128(v: u128) -> (r: U512)
        ensures
            r@ == v as nat,
    {
        let r = U512 { hi: U256::zero(), lo: U256::from_u128(v) };
        assert(r.hi@ * half() == 0) by (nonlinear_arith)
            requires
                r.hi@ == 0,
        ;
        r
    }

    pub fn is_zero(&self) -> (r: bool)
        ensures
            r == (self@ == 0),
    {
        assert(self.hi@ == 0 ==> self.hi@ * half() == 0) by (nonlinear_arith);
        assert(self.hi@ > 0 ==> self.hi@ * half() >= half()) by (nonlinear_arith);
        assert(half() > 0) by (nonlinear_arith);
        self.hi.is_zero() && self.lo.is_zero()
    }

    /// `self <= other` as numbers.
    pub fn le(&self, other: &U512) -> (r: bool)
        ensures
            r == (self@ <= other@),
    {
        proof {
            lemma_u256_bounded(self.lo);
            lemma_u256_bounded(other.lo);
            assert(half() > 0) by (nonlinear_arith);
        }
        if self.hi.lt(&other.hi) {
            assert(self.hi@ * half() + half() <= other.hi@ * half()) by (nonlinear_arith)
                requires
                    self.hi@ < other.hi@,
            ;
            true
        } else if other.hi.lt(&self.hi) {
            assert(other.hi@ * half() + half() <= self.hi@ * half()) by (nonlinear_arith)
                requires
                    other.hi@ < self.hi@,
            ;
            false
        } else {
            assert(self.hi@ == other.hi@);
            self.lo.le(&other.lo)
        }
    }

    /// The value as a `u128`, for a value that fits in one.
    pub fn as_u128(&self) -> (r: u128)
        requires
            self@ <= u128::MAX,
        ensures
            r as nat == self@,
    {
        assert(self.hi@ == 0) by (nonlinear_arith)
            requires
                self.hi@ * half() + self.lo@ <= u128::MAX,
                half() == limb() * limb(),
                limb() == u128::MAX as nat + 1,
        ;
        assert(self.lo.hi == 0) by (nonlinear_arith)
            requires
                self.lo.hi as nat * limb() + self.lo.lo as nat <= u128::MAX,
                limb() > u128::MAX,
        ;
        self.lo.lo
    }
}

} // verus!
