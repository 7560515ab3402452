//! The credit line: its configuration and the four requests that change a
//! position.
//!
//! Every request is decided from what the host read (the configuration, the
//! user's stored position, the time) and answered with a [`Settlement`]: the
//! one asset movement to perform and the position to record once that
//! movement went through. A failed request carries no settlement, so nothing
//! is moved and nothing is recorded.

use vstd::prelude::*;
use crate::error::{Abort, Error, Failure};
use crate::limit::{
    compute_credit_limit, credit_limit, lemma_credit_limit_monotonic, BASIS_POINTS,
    DEFAULT_LTV_RATIO,
};
use crate::position::UserPosition;

verus! {

/// The parameters of a credit line, fixed when it is initialized. `A` is how
/// the host names an account or an asset.
#[derive(Debug)]
pub struct Configuration<A> {
    /// Who initialized the credit line.
    pub admin: A,
    /// The asset that is deposited.
    pub collateral_asset: A,
    /// The asset that is lent.
    pub borrowed_asset: A,
    /// The share of the collateral that may be borrowed, in basis points.
    pub ltv_ratio: u32,
}

/// One of the two assets of a credit line.
#[derive(Clone, Copy, Debug, PartialEq, Eq, Structural)]
pub enum Asset {
    Collateral,
    Borrowed,
}

/// Which way an asset moves between the user and the credit line's custody.
#[derive(Clone, Copy, Debug, PartialEq, Eq, Structural)]
pub enum Direction {
    /// From the user into custody.
    UserToCustody,
    /// Out of custody to the user.
    CustodyToUser,
}

/// The asset movement that a request calls for.
#[derive(Clone, Copy, Debug, PartialEq, Eq, Structural)]
pub struct Transfer {
    pub asset: Asset,
    pub direction: Direction,
    pub amount: i128,
}

/// What a successful request asks of the host: perform `transfer`, and when it
/// went through, record `position` for the user.
#[derive(Clone, Copy, Debug, PartialEq, Eq, Structural)]
pub struct Settlement {
    pub transfer: Transfer,
    pub position: UserPosition,
}

impl Settlement {
    /// What is stored for the user once the host tried the transfer: the
    /// settled position where the asset moved, and what was stored before
    /// where it did not.
    pub open spec fn recorded(self, stored: Option<UserPosition>, transferred: bool) -> Option<
        UserPosition,
    > {
        if transferred {
            Some(self.position)
        } else {
            stored
        }
    }

    /// Decides what to store for the user once the host tried the transfer.
    /// A transfer that did not go through leaves the stored position as it
    /// was, so that no position tells of an asset movement that never
    /// happened.
    pub fn record(&self, stored: Option<UserPosition>, transferred: bool) -> (kept: Option<
        UserPosition,
    >)
        ensures
            kept == self.recorded(stored, transferred),
    {
        if transferred {
            Some(self.position)
        } else {
            stored
        }
    }
}

/// The stored position, or the empty one for a user who has none.
pub open spec fn position_or_zero(stored: Option<UserPosition>, now: u64) -> UserPosition {
    match stored {
        Some(position) => position,
        None => UserPosition::zero(now),
    }
}

/// The credit line. It holds its configuration, which is absent until
/// `initialize` has run.
#[derive(Debug)]
pub struct CreditLineContract<A> {
    pub config: Option<Configuration<A>>,
}

impl<A> CreditLineContract<A> {
    /// Whether the configuration has been set.
    pub open spec fn initialized(self) -> bool {
        self.config is Some
    }

    /// The loan-to-value ratio in force: the configured one, or the default
    /// while there is no configuration.
    pub open spec fn ltv(self) -> int {
        match self.config {
            Some(config) => config.ltv_ratio as int,
            None => DEFAULT_LTV_RATIO as int,
        }
    }

    /// The ratio in force is at most one hundred percent.
    pub open spec fn well_formed(self) -> bool {
        self.ltv() <= BASIS_POINTS
    }

    /// The credit line that `initialize` sets up.
    pub open spec fn initialized_with(admin: A, collateral_asset: A, borrowed_asset: A) -> Self {
        CreditLineContract {
            config: Some(
                Configuration {
                    admin,
                    collateral_asset,
                    borrowed_asset,
                    ltv_ratio: DEFAULT_LTV_RATIO,
                },
            ),
        }
    }

    /// The credit line after a call of `initialize`: set up if it was not, and
    /// as it was if it was.
    pub open spec fn after_initialize(
        self,
        admin: A,
        collateral_asset: A,
        borrowed_asset: A,
    ) -> Self {
        if self.initialized() {
            self
        } else {
            Self::initialized_with(admin, collateral_asset, borrowed_asset)
        }
    }

    /// What a call of `initialize` returns.
    pub open spec fn initialize_outcome(self) -> Result<(), Error> {
        if self.initialized() {
            Err(Error::AlreadyInitialized)
        } else {
            Ok(())
        }
    }

    /// What a deposit of `amount` returns. The amount must be positive and the
    /// credit line initialized; the collateral grows by the amount.
    pub open spec fn deposit_outcome(
        self,
        stored: Option<UserPosition>,
        amount: i128,
        now: u64,
    ) -> Result<Settlement, Failure> {
        let held = position_or_zero(stored, now);
        if amount <= 0 {
            Err(Failure::Aborted(Abort::InvalidAmount))
        } else if !self.initialized() {
            Err(Failure::Rejected(Error::NotInitialized))
        } else if held.collateral + amount > i128::MAX {
            Err(Failure::Aborted(Abort::Overflow))
        } else {
            Ok(
                Settlement {
                    transfer: Transfer {
                        asset: Asset::Collateral,
                        direction: Direction::UserToCustody,
                        amount,
                    },
                    position: UserPosition {
                        collateral: (held.collateral + amount) as i128,
                        borrowed: held.borrowed,
                        last_update: now,
                    },
                },
            )
        }
    }

    /// What a loan of `amount` returns. The amount must be positive, the user
    /// must have a position, and the debt with the loan must stay within the
    /// credit limit of the collateral; the debt grows by the amount.
    pub open spec fn borrow_outcome(
        self,
        stored: Option<UserPosition>,
        amount: i128,
        now: u64,
    ) -> Result<Settlement, Failure> {
        if amount <= 0 {
            Err(Failure::Aborted(Abort::InvalidAmount))
        } else if stored is None {
            Err(Failure::Rejected(Error::InsufficientCollateral))
        } else if stored.unwrap().borrowed + amount > credit_limit(
            stored.unwrap().collateral as int,
            self.ltv(),
        ) {
            Err(Failure::Rejected(Error::ExceedsCreditLimit))
        } else if !self.initialized() {
            Err(Failure::Rejected(Error::NotInitialized))
        } else {
            Ok(
                Settlement {
                    transfer: Transfer {
                        asset: Asset::Borrowed,
                        direction: Direction::CustodyToUser,
                        amount,
                    },
                    position: UserPosition {
                        collateral: stored.unwrap().collateral,
                        borrowed: (stored.unwrap().borrowed + amount) as i128,
                        last_update: now,
                    },
                },
            )
        }
    }

    /// What a repayment of `amount` returns. The amount must be positive, the
    /// user must have a position, and no more than the debt is repaid; the
    /// debt shrinks by the amount.
    pub open spec fn repay_outcome(
        self,
        stored: Option<UserPosition>,
        amount: i128,
        now: u64,
    ) -> Result<Settlement, Failure> {
        if amount <= 0 {
            Err(Failure::Aborted(Abort::InvalidAmount))
        } else if stored is None {
            Err(Failure::Rejected(Error::NotInitialized))
        } else if stored.unwrap().borrowed < amount {
            Err(Failure::Aborted(Abort::RepayExceedsDebt))
        } else if !self.initialized() {
            Err(Failure::Rejected(Error::NotInitialized))
        } else {
            Ok(
                Settlement {
                    transfer: Transfer {
                        asset: Asset::Borrowed,
                        direction: Direction::UserToCustody,
                        amount,
                    },
                    position: UserPosition {
                        collateral: stored.unwrap().collateral,
                        borrowed: (stored.unwrap().borrowed - amount) as i128,
                        last_update: now,
                    },
                },
            )
        }
    }

    /// What a withdrawal of `amount` returns. The amount must be positive, the
    /// user must have a position that holds the amount, and the collateral
    /// that stays must still back the debt; the collateral shrinks by the
    /// amount.
    pub open spec fn withdraw_outcome(
        self,
        stored: Option<UserPosition>,
        amount: i128,
        now: u64,
    ) -> Result<Settlement, Failure> {
        if amount <= 0 {
            Err(Failure::Aborted(Abort::InvalidAmount))
        } else if stored is None {
            Err(Failure::Rejected(Error::NotInitialized))
        } else if stored.unwrap().collateral < amount {
            Err(Failure::Rejected(Error::InsufficientBalance))
        } else if stored.unwrap().borrowed > credit_limit(
            stored.unwrap().collateral - amount,
            self.ltv(),
        ) {
            Err(Failure::Rejected(Error::InsufficientCollateral))
        } else if !self.initialized() {
            Err(Failure::Rejected(Error::NotInitialized))
        } else {
            Ok(
                Settlement {
                    transfer: Transfer {
                        asset: Asset::Collateral,
                        direction: Direction::CustodyToUser,
                        amount,
                    },
                    position: UserPosition {
                        collateral: (stored.unwrap().collateral - amount) as i128,
                        borrowed: stored.unwrap().borrowed,
                        last_update: now,
                    },
                },
            )
        }
    }

    /// What `get_available_credit` returns: the available credit of the stored
    /// position, and zero for a user who has none.
    pub open spec fn available_credit_of(self, stored: Option<UserPosition>) -> int {
        match stored {
            Some(position) => position.available_credit(self.ltv()),
            None => 0,
        }
    }

    /// A credit line without a configuration.
    pub fn new() -> (contract: Self)
        ensures
            !contract.initialized(),
            contract.well_formed(),
    {
        CreditLineContract { config: None }
    }

    /// Sets the configuration, once: the three identities as given and the
    /// default loan-to-value ratio. A second call is refused and changes
    /// nothing.
    pub fn initialize(&mut self, admin: A, collateral_asset: A, borrowed_asset: A) -> (outcome:
        Result<(), Error>)
        ensures
            outcome == old(self).initialize_outcome(),
            *final(self) == old(self).after_initialize(admin, collateral_asset, borrowed_asset),
            old(self).well_formed() ==> final(self).well_formed(),
    {
        if self.config.is_some() {
            return Err(Error::AlreadyInitialized);
        }
        self.config = Some(
            Configuration { admin, collateral_asset, borrowed_asset, ltv_ratio: DEFAULT_LTV_RATIO },
        );
        Ok(())
    }

    /// Whether the configuration has been set.
    pub fn is_initialized(&self) -> (initialized: bool)
        ensures
            initialized == self.initialized(),
    {
        self.config.is_some()
    }

    /// Whether the ratio in force is at most one hundred percent.
    pub fn is_well_formed(&self) -> (valid: bool)
        ensures
            valid == self.well_formed(),
    {
        self.ltv_ratio() <= BASIS_POINTS
    }

    /// The loan-to-value ratio in force, in basis points.
    pub fn ltv_ratio(&self) -> (ratio: u32)
        ensures
            ratio == self.ltv(),
    {
        match &self.config {
            Some(config) => config.ltv_ratio,
            None => DEFAULT_LTV_RATIO,
        }
    }

    /// Takes `amount` of the collateral asset from the user into custody and
    /// adds it to the user's collateral. A user without a position starts from
    /// the empty one.
    pub fn deposit_collateral(&self, stored: Option<UserPosition>, amount: i128, now: u64) -> (outcome:
        Result<Settlement, Failure>)
        ensures
            outcome == self.deposit_outcome(stored, amount, now),
            outcome matches Ok(settlement) ==> (position_or_zero(stored, now).solvent(self.ltv())
                ==> settlement.position.solvent(self.ltv())),
    {
        if amount <= 0 {
            return Err(Failure::Aborted(Abort::InvalidAmount));
        }
        if self.config.is_none() {
            return Err(Failure::Rejected(Error::NotInitialized));
        }
        let held: UserPosition = match stored {
            Some(position) => position,
            None => UserPosition::empty(now),
        };
        match held.collateral.checked_add(amount) {
            None => Err(Failure::Aborted(Abort::Overflow)),
            Some(collateral) => {
                proof {
                    lemma_credit_limit_monotonic(
                        held.collateral as int,
                        collateral as int,
                        self.ltv(),
                    );
                }
                Ok(
                    Settlement {
                        transfer: Transfer {
                            asset: Asset::Collateral,
                            direction: Direction::UserToCustody,
                            amount,
                        },
                        position: UserPosition {
                            collateral,
                            borrowed: held.borrowed,
                            last_update: now,
                        },
                    },
                )
            },
        }
    }

    /// Lends `amount` of the borrowed asset out of custody to the user and
    /// adds it to the user's debt, as far as the credit limit allows.
    pub fn borrow(&self, stored: Option<UserPosition>, amount: i128, now: u64) -> (outcome: Result<
        Settlement,
        Failure,
    >)
        requires
            self.well_formed(),
            stored matches Some(position) ==> position.well_formed(),
        ensures
            outcome == self.borrow_outcome(stored, amount, now),
            outcome matches Ok(settlement) ==> settlement.position.solvent(self.ltv()),
    {
        if amount <= 0 {
            return Err(Failure::Aborted(Abort::InvalidAmount));
        }
        let held: UserPosition = match stored {
            Some(position) => position,
            None => {
                return Err(Failure::Rejected(Error::InsufficientCollateral));
            },
        };
        let limit: i128 = compute_credit_limit(held.collateral, self.ltv_ratio());
        if held.borrowed > limit || amount > limit - held.borrowed {
            return Err(Failure::Rejected(Error::ExceedsCreditLimit));
        }
        if self.config.is_none() {
            return Err(Failure::Rejected(Error::NotInitialized));
        }
        Ok(
            Settlement {
                transfer: Transfer {
                    asset: Asset::Borrowed,
                    direction: Direction::CustodyToUser,
                    amount,
                },
                position: UserPosition {
                    collateral: held.collateral,
                    borrowed: held.borrowed + amount,
                    last_update: now,
                },
            },
        )
    }

    /// Takes `amount` of the borrowed asset from the user into custody and
    /// takes it off the user's debt.
    pub fn repay(&self, stored: Option<UserPosition>, amount: i128, now: u64) -> (outcome: Result<
        Settlement,
        Failure,
    >)
        ensures
            outcome == self.repay_outcome(stored, amount, now),
            outcome matches Ok(settlement) ==> (stored.unwrap().solvent(self.ltv())
                ==> settlement.position.solvent(self.ltv())),
    {
        if amount <= 0 {
            return Err(Failure::Aborted(Abort::InvalidAmount));
        }
        let held: UserPosition = match stored {
            Some(position) => position,
            None => {
                return Err(Failure::Rejected(Error::NotInitialized));
            },
        };
        if held.borrowed < amount {
            return Err(Failure::Aborted(Abort::RepayExceedsDebt));
        }
        if self.config.is_none() {
            return Err(Failure::Rejected(Error::NotInitialized));
        }
        Ok(
            Settlement {
                transfer: Transfer {
                    asset: Asset::Borrowed,
                    direction: Direction::UserToCustody,
                    amount,
                },
                position: UserPosition {
                    collateral: held.collateral,
                    borrowed: held.borrowed - amount,
                    last_update: now,
                },
            },
        )
    }

    /// Hands `amount` of the collateral asset out of custody back to the user,
    /// as far as the collateral that stays still backs the debt.
    pub fn withdraw_collateral(&self, stored: Option<UserPosition>, amount: i128, now: u64) -> (outcome:
        Result<Settlement, Failure>)
        requires
            self.well_formed(),
            stored matches Some(position) ==> position.well_formed(),
        ensures
            outcome == self.withdraw_outcome(stored, amount, now),
            outcome matches Ok(settlement) ==> settlement.position.solvent(self.ltv()),
    {
        if amount <= 0 {
            return Err(Failure::Aborted(Abort::InvalidAmount));
        }
        let held: UserPosition = match stored {
            Some(position) => position,
            None => {
                return Err(Failure::Rejected(Error::NotInitialized));
            },
        };
        if held.collateral < amount {
            return Err(Failure::Rejected(Error::InsufficientBalance));
        }
        let remaining: i128 = held.collateral - amount;
        let limit: i128 = compute_credit_limit(remaining, self.ltv_ratio());
        if held.borrowed > limit {
            return Err(Failure::Rejected(Error::InsufficientCollateral));
        }
        if self.config.is_none() {
            return Err(Failure::Rejected(Error::NotInitialized));
        }
        Ok(
            Settlement {
                transfer: Transfer {
                    asset: Asset::Collateral,
                    direction: Direction::CustodyToUser,
                    amount,
                },
                position: UserPosition {
                    collateral: remaining,
                    borrowed: held.borrowed,
                    last_update: now,
                },
            },
        )
    }

    /// The user's position: the stored one, or the empty one stamped `now` for
    /// a user who has none.
    pub fn get_position(&self, stored: Option<UserPosition>, now: u64) -> (position: UserPosition)
        ensures
            position == position_or_zero(stored, now),
    {
        match stored {
            Some(position) => position,
            None => UserPosition::empty(now),
        }
    }

    /// What the user may still borrow: the credit limit of the collateral less
    /// the debt, never below zero, and zero for a user without a position.
    pub fn get_available_credit(&self, stored: Option<UserPosition>) -> (available: i128)
        requires
            self.well_formed(),
            stored matches Some(position) ==> position.well_formed(),
        ensures
            available == self.available_credit_of(stored),
            available >= 0,
    {
        match stored {
            None => 0,
            Some(position) => {
                let limit: i128 = compute_credit_limit(position.collateral, self.ltv_ratio());
                if limit < position.borrowed {
                    0
                } else {
                    limit - position.borrowed
                }
            },
        }
    }
}

} // verus!
