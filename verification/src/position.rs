//! A user's position: what was deposited and what is owed.

use vstd::prelude::*;
use crate::limit::{credit_limit, compute_credit_limit, BASIS_POINTS};

verus! {

/// The collateral and the debt of one user, in the smallest units of the two
/// assets, with the time of the last change.
#[derive(Clone, Copy, Debug, PartialEq, Eq, Structural)]
pub struct UserPosition {
    pub collateral: i128,
    pub borrowed: i128,
    pub last_update: u64,
}

impl UserPosition {
    /// Neither balance is negative.
    pub open spec fn well_formed(self) -> bool {
        self.collateral >= 0 && self.borrowed >= 0
    }

    /// The debt is within the credit limit of the collateral.
    pub open spec fn solvent(self, ltv_ratio: int) -> bool {
        &&& self.well_formed()
        &&& self.borrowed <= credit_limit(self.collateral as int, ltv_ratio)
    }

    /// The position of a user who holds nothing and owes nothing.
    pub open spec fn zero(now: u64) -> UserPosition {
        UserPosition { collateral: 0, borrowed: 0, last_update: now }
    }

    /// What the user may still borrow: the credit limit less the debt, and
    /// zero where the debt is above the limit.
    pub open spec fn available_credit(self, ltv_ratio: int) -> int {
        let room = credit_limit(self.collateral as int, ltv_ratio) - self.borrowed;
        if room < 0 {
            0
        } else {
            room
        }
    }

    /// The position of a user who holds nothing and owes nothing, stamped `now`.
    pub fn empty(now: u64) -> (position: UserPosition)
        ensures
            position == UserPosition::zero(now),
    {
        UserPosition { collateral: 0, borrowed: 0, last_update: now }
    }

    /// Whether neither balance is negative.
    pub fn is_well_formed(&self) -> (valid: bool)
        ensures
            valid == self.well_formed(),
    {
        self.collateral >= 0 && self.borrowed >= 0
    }

    /// Whether the debt is within the credit limit of the collateral.
    pub fn is_solvent(&self, ltv_ratio: u32) -> (solvent: bool)
        requires
            ltv_ratio <= BASIS_POINTS,
        ensures
            solvent == self.solvent(ltv_ratio as int),
    {
        self.collateral >= 0 && self.borrowed >= 0 && self.borrowed <= compute_credit_limit(
            self.collateral,
            ltv_ratio,
        )
    }
}

/// A position that holds nothing and owes nothing is solvent at any ratio.
pub proof fn lemma_zero_is_solvent(now: u64, ltv_ratio: int)
    ensures
        UserPosition::zero(now).solvent(ltv_ratio),
        UserPosition::zero(now).available_credit(ltv_ratio) == 0,
{
    assert(0 * ltv_ratio == 0) by (nonlinear_arith);
}

/// The available credit is never negative, and for a solvent position it is
/// exactly the limit less the debt.
pub proof fn lemma_available_credit_bounds(position: UserPosition, ltv_ratio: int)
    ensures
        position.available_credit(ltv_ratio) >= 0,
        position.solvent(ltv_ratio) ==> position.available_credit(ltv_ratio) == credit_limit(
            position.collateral as int,
            ltv_ratio,
        ) - position.borrowed,
{
}

} // verus!
