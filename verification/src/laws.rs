//! What holds of the credit line over any sequence of requests.

use vstd::prelude::*;
use crate::contract::{position_or_zero, CreditLineContract, Settlement};
use crate::error::{Error, Failure};
use crate::limit::{
    credit_limit, lemma_credit_limit_bounds, lemma_credit_limit_monotonic,
    lemma_credit_limit_of_sum, rounding_carry,
};
use crate::position::UserPosition;

verus! {

/// One request of a user against the credit line, with the time at which it
/// is handled.
pub enum Request {
    Deposit { amount: i128, now: u64 },
    Borrow { amount: i128, now: u64 },
    Repay { amount: i128, now: u64 },
    Withdraw { amount: i128, now: u64 },
}

/// A request together with what became of the asset movement that it called
/// for, where it called for one.
pub struct Step {
    pub request: Request,
    pub transferred: bool,
}

impl<A> CreditLineContract<A> {
    /// What the credit line answers to `request`, given the user's stored
    /// position.
    pub open spec fn outcome(self, stored: Option<UserPosition>, request: Request) -> Result<
        Settlement,
        Failure,
    > {
        match request {
            Request::Deposit { amount, now } => self.deposit_outcome(stored, amount, now),
            Request::Borrow { amount, now } => self.borrow_outcome(stored, amount, now),
            Request::Repay { amount, now } => self.repay_outcome(stored, amount, now),
            Request::Withdraw { amount, now } => self.withdraw_outcome(stored, amount, now),
        }
    }

    /// The user's stored position once `step` was handled: the settled one
    /// where the request succeeded and the asset moved, and the old one
    /// otherwise.
    pub open spec fn position_after(self, stored: Option<UserPosition>, step: Step) -> Option<
        UserPosition,
    > {
        match self.outcome(stored, step.request) {
            Ok(settlement) => settlement.recorded(stored, step.transferred),
            Err(_) => stored,
        }
    }

    /// The stored position of a user who started with none and went through
    /// `steps`, one after the other.
    pub open spec fn position_after_all(self, steps: Seq<Step>) -> Option<UserPosition>
        decreases steps.len(),
    {
        if steps.len() == 0 {
            None
        } else {
            self.position_after(self.position_after_all(steps.drop_last()), steps.last())
        }
    }
}

/// No step takes a position out of solvency: where the stored position is
/// solvent, or the user has none, the position after the step is solvent,
/// whether the request succeeded or failed and whether the asset moved or
/// not.
pub proof fn lemma_step_keeps_solvency<A>(
    contract: CreditLineContract<A>,
    stored: Option<UserPosition>,
    step: Step,
)
    requires
        contract.well_formed(),
        stored matches Some(position) ==> position.solvent(contract.ltv()),
    ensures
        contract.position_after(stored, step) matches Some(position) ==> position.solvent(
            contract.ltv(),
        ),
{
    match step.request {
        Request::Deposit { amount, now } => {
            let held = position_or_zero(stored, now);
            assert(0 * contract.ltv() == 0) by (nonlinear_arith);
            if amount > 0 {
                lemma_credit_limit_monotonic(
                    held.collateral as int,
                    held.collateral + amount,
                    contract.ltv(),
                );
            }
        },
        Request::Borrow { amount, now } => {
            if stored is Some {
                lemma_credit_limit_bounds(stored.unwrap().collateral as int, contract.ltv());
            }
        },
        Request::Repay { amount, now } => {},
        Request::Withdraw { amount, now } => {},
    }
}

/// Every position that a user can reach is solvent: the collateral and the
/// debt are not negative, and the debt is within the credit limit of the
/// collateral.
pub proof fn lemma_reachable_position_is_solvent<A>(
    contract: CreditLineContract<A>,
    steps: Seq<Step>,
)
    requires
        contract.well_formed(),
    ensures
        contract.position_after_all(steps) matches Some(position) ==> {
            &&& position.collateral >= 0
            &&& 0 <= position.borrowed <= credit_limit(position.collateral as int, contract.ltv())
        },
    decreases steps.len(),
{
    if steps.len() > 0 {
        lemma_reachable_position_is_solvent(contract, steps.drop_last());
        lemma_step_keeps_solvency(
            contract,
            contract.position_after_all(steps.drop_last()),
            steps.last(),
        );
    }
}

/// A request that failed, or whose asset movement did not go through, leaves
/// the stored position as it was.
pub proof fn lemma_failure_changes_nothing<A>(
    contract: CreditLineContract<A>,
    stored: Option<UserPosition>,
    step: Step,
)
    requires
        contract.outcome(stored, step.request) is Err || !step.transferred,
    ensures
        contract.position_after(stored, step) == stored,
{
}

/// Once the whole debt is repaid, the whole collateral can be withdrawn, and
/// the position then holds nothing and owes nothing.
pub proof fn lemma_full_repayment_frees_collateral<A>(
    contract: CreditLineContract<A>,
    position: UserPosition,
    repaid_at: u64,
    withdrawn_at: u64,
)
    requires
        contract.initialized(),
        position.collateral > 0,
        position.borrowed > 0,
    ensures
        ({
            let repaid = contract.repay_outcome(Some(position), position.borrowed, repaid_at);
            let withdrawn = contract.withdraw_outcome(
                Some(repaid.unwrap().position),
                position.collateral,
                withdrawn_at,
            );
            &&& repaid is Ok
            &&& repaid.unwrap().position.borrowed == 0
            &&& repaid.unwrap().position.collateral == position.collateral
            &&& withdrawn is Ok
            &&& withdrawn.unwrap().position == UserPosition::zero(withdrawn_at)
        }),
{
    assert(0 * contract.ltv() == 0) by (nonlinear_arith);
}

/// Initializing twice: the second call is refused as already initialized and
/// leaves the configuration as the first call set it, whatever it was given.
pub proof fn lemma_second_initialize_changes_nothing<A>(
    contract: CreditLineContract<A>,
    admin: A,
    collateral_asset: A,
    borrowed_asset: A,
    other_admin: A,
    other_collateral_asset: A,
    other_borrowed_asset: A,
)
    ensures
        ({
            let once = contract.after_initialize(admin, collateral_asset, borrowed_asset);
            &&& once.initialized()
            &&& once.initialize_outcome() == Err::<(), Error>(Error::AlreadyInitialized)
            &&& once.after_initialize(other_admin, other_collateral_asset, other_borrowed_asset)
                == once
            &&& !contract.initialized() ==> once == CreditLineContract::initialized_with(
                admin,
                collateral_asset,
                borrowed_asset,
            )
        }),
{
}

/// A deposit never lowers the available credit of a solvent position. It
/// raises it by the credit limit of the amount, or by one unit more where the
/// two roundings together lose a whole unit.
pub proof fn lemma_deposit_raises_available_credit<A>(
    contract: CreditLineContract<A>,
    stored: Option<UserPosition>,
    amount: i128,
    now: u64,
)
    requires
        position_or_zero(stored, now).solvent(contract.ltv()),
        contract.deposit_outcome(stored, amount, now) is Ok,
    ensures
        ({
            let before = position_or_zero(stored, now);
            let after = contract.deposit_outcome(stored, amount, now).unwrap().position;
            let ltv = contract.ltv();
            &&& after.available_credit(ltv) == before.available_credit(ltv) + credit_limit(
                amount as int,
                ltv,
            ) + rounding_carry(before.collateral as int, amount as int, ltv)
            &&& after.available_credit(ltv) >= before.available_credit(ltv)
        }),
{
    let before = position_or_zero(stored, now);
    let ltv = contract.ltv();
    lemma_credit_limit_of_sum(before.collateral as int, amount as int, ltv);
    lemma_credit_limit_monotonic(0, amount as int, ltv);
    assert(0 * ltv == 0) by (nonlinear_arith);
}

/// Where no rounding is lost, a deposit raises the available credit of a
/// solvent position by exactly the credit limit of the amount, and strictly
/// so once the amount is worth a whole unit of credit.
pub proof fn lemma_deposit_raises_available_credit_exactly<A>(
    contract: CreditLineContract<A>,
    stored: Option<UserPosition>,
    amount: i128,
    now: u64,
)
    requires
        position_or_zero(stored, now).solvent(contract.ltv()),
        contract.deposit_outcome(stored, amount, now) is Ok,
        rounding_carry(
            position_or_zero(stored, now).collateral as int,
            amount as int,
            contract.ltv(),
        ) == 0,
    ensures
        ({
            let before = position_or_zero(stored, now);
            let after = contract.deposit_outcome(stored, amount, now).unwrap().position;
            let ltv = contract.ltv();
            &&& after.available_credit(ltv) == before.available_credit(ltv) + credit_limit(
                amount as int,
                ltv,
            )
            &&& amount * ltv >= 10000 ==> after.available_credit(ltv) > before.available_credit(
                ltv,
            )
        }),
{
    lemma_deposit_raises_available_credit(contract, stored, amount, now);
}

} // verus!
