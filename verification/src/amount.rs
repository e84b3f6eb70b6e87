use vstd::prelude::*;

verus! {

/// The weight of the high limb of an [`Amount`]: `2^128`.
pub open spec fn limb_base() -> int {
    u128::MAX + 1
}

/// A signed 256-bit token amount, held as a high signed limb and a low
/// unsigned limb in two's-complement fashion: the value is
/// `hi * 2^128 + lo`.
///
/// The engine only ever tests an amount for strict positivity at creation
/// time and carries it through to the transfer it requests; the full
/// 256-bit range is kept so that no value the token can move is ever
/// truncated.
#[derive(Clone, Copy, Debug, PartialEq, Eq, Structural)]
pub struct Amount {
    pub hi: i128,
    pub lo: u128,
}

impl Amount {
    /// The mathematical value of the amount.
    pub open spec fn as_int(self) -> int {
        self.hi * limb_base() + self.lo
    }

    /// Build an amount from a small unsigned value.
    pub fn from_u128(v: u128) -> (r: Amount)
        ensures
            r.as_int() == v,
    {
        Amount { hi: 0, lo: v }
    }

    /// Whether the amount is strictly positive.
    pub fn is_positive(&self) -> (r: bool)
        ensures
            r == (self.as_int() > 0),
    {
        proof {
            if self.hi >= 1 {
                assert(self.hi * limb_base() >= limb_base()) by (nonlinear_arith)
                    requires
                        self.hi >= 1,
                        limb_base() > 0,
                ;
            }
            if self.hi <= -1 {
                assert(self.hi * limb_base() <= -limb_base()) by (nonlinear_arith)
                    requires
                        self.hi <= -1,
                        limb_base() > 0,
                ;
            }
        }
        self.hi > 0 || (self.hi == 0 && self.lo > 0)
    }
}

} // verus!
