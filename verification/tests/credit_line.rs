use credit_line::contract::{
    Asset, Configuration, CreditLineContract, Direction, Settlement, Transfer,
};
use credit_line::error::{Abort, Error, Failure};
use credit_line::position::UserPosition;

fn ready() -> CreditLineContract<&'static str> {
    let mut contract = CreditLineContract::new();
    assert_eq!(contract.initialize("admin", "benji", "usdc"), Ok(()));
    contract
}

fn with_ratio(ltv_ratio: u32) -> CreditLineContract<&'static str> {
    CreditLineContract {
        config: Some(Configuration {
            admin: "admin",
            collateral_asset: "benji",
            borrowed_asset: "usdc",
            ltv_ratio,
        }),
    }
}

fn position(collateral: i128, borrowed: i128, last_update: u64) -> UserPosition {
    UserPosition { collateral, borrowed, last_update }
}

fn transfer(asset: Asset, direction: Direction, amount: i128) -> Transfer {
    Transfer { asset, direction, amount }
}

#[test]
fn new_contract_is_not_initialized() {
    let contract: CreditLineContract<&'static str> = CreditLineContract::new();
    assert!(!contract.is_initialized());
    assert!(contract.is_well_formed());
    assert_eq!(contract.ltv_ratio(), 7000);
    assert!(contract.config.is_none());
}

#[test]
fn initialize_stores_identities_and_default_ratio() {
    let contract = ready();
    assert!(contract.is_initialized());
    assert!(contract.is_well_formed());
    let config = contract.config.as_ref().unwrap();
    assert_eq!(config.admin, "admin");
    assert_eq!(config.collateral_asset, "benji");
    assert_eq!(config.borrowed_asset, "usdc");
    assert_eq!(config.ltv_ratio, 7000);
    assert_eq!(contract.ltv_ratio(), 7000);
}

#[test]
fn second_initialize_is_refused_and_changes_nothing() {
    let mut contract = ready();
    assert_eq!(
        contract.initialize("intruder", "other", "another"),
        Err(Error::AlreadyInitialized)
    );
    let config = contract.config.as_ref().unwrap();
    assert_eq!(config.admin, "admin");
    assert_eq!(config.collateral_asset, "benji");
    assert_eq!(config.borrowed_asset, "usdc");
    assert_eq!(config.ltv_ratio, 7000);
    assert_eq!(
        contract.initialize("admin", "benji", "usdc"),
        Err(Error::AlreadyInitialized)
    );
}

#[test]
fn ratio_above_one_hundred_percent_is_not_well_formed() {
    assert!(with_ratio(10000).is_well_formed());
    assert!(!with_ratio(10001).is_well_formed());
}

#[test]
fn deposit_opens_a_position() {
    let contract = ready();
    let settlement = contract.deposit_collateral(None, 1000, 17).unwrap();
    assert_eq!(
        settlement,
        Settlement {
            transfer: transfer(Asset::Collateral, Direction::UserToCustody, 1000),
            position: position(1000, 0, 17),
        }
    );
}

#[test]
fn deposit_adds_to_the_collateral() {
    let contract = ready();
    let settlement = contract.deposit_collateral(Some(position(1000, 300, 5)), 250, 9).unwrap();
    assert_eq!(settlement.position, position(1250, 300, 9));
    assert_eq!(settlement.transfer, transfer(Asset::Collateral, Direction::UserToCustody, 250));
}

#[test]
fn deposit_needs_a_configuration() {
    let contract: CreditLineContract<&'static str> = CreditLineContract::new();
    assert_eq!(
        contract.deposit_collateral(None, 1000, 1),
        Err(Failure::Rejected(Error::NotInitialized))
    );
    assert_eq!(
        contract.deposit_collateral(Some(position(5, 0, 0)), 1000, 1),
        Err(Failure::Rejected(Error::NotInitialized))
    );
}

#[test]
fn deposit_of_nothing_or_less_aborts() {
    let contract = ready();
    assert_eq!(
        contract.deposit_collateral(None, 0, 1),
        Err(Failure::Aborted(Abort::InvalidAmount))
    );
    assert_eq!(
        contract.deposit_collateral(Some(position(10, 0, 0)), -5, 1),
        Err(Failure::Aborted(Abort::InvalidAmount))
    );
    let blank: CreditLineContract<&'static str> = CreditLineContract::new();
    assert_eq!(blank.deposit_collateral(None, 0, 1), Err(Failure::Aborted(Abort::InvalidAmount)));
}

#[test]
fn deposit_beyond_the_largest_balance_aborts() {
    let contract = ready();
    assert_eq!(
        contract.deposit_collateral(Some(position(i128::MAX, 0, 0)), 1, 1),
        Err(Failure::Aborted(Abort::Overflow))
    );
    let full = contract.deposit_collateral(Some(position(i128::MAX - 1, 0, 0)), 1, 1).unwrap();
    assert_eq!(full.position, position(i128::MAX, 0, 1));
}

#[test]
fn deposit_raises_available_credit_by_the_limit_of_the_amount() {
    let contract = ready();
    let before: i128 = contract.get_available_credit(None);
    assert_eq!(before, 0);
    let opened = contract.deposit_collateral(None, 1000, 1).unwrap().position;
    assert_eq!(contract.get_available_credit(Some(opened)), 700);
    let owing = position(1000, 400, 1);
    assert_eq!(contract.get_available_credit(Some(owing)), 300);
    let raised = contract.deposit_collateral(Some(owing), 2000, 2).unwrap().position;
    assert_eq!(contract.get_available_credit(Some(raised)), 300 + 1400);
}

#[test]
fn deposit_too_small_for_a_unit_of_credit_raises_nothing() {
    let contract = ready();
    let opened = contract.deposit_collateral(None, 1, 1).unwrap().position;
    assert_eq!(contract.get_available_credit(Some(opened)), 0);
    let second = contract.deposit_collateral(Some(opened), 1, 2).unwrap().position;
    assert_eq!(second.collateral, 2);
    assert_eq!(contract.get_available_credit(Some(second)), 1);
}

#[test]
fn borrow_boundary() {
    let contract = ready();
    let held = position(1000, 0, 3);
    assert_eq!(
        contract.borrow(Some(held), 701, 4),
        Err(Failure::Rejected(Error::ExceedsCreditLimit))
    );
    let settlement = contract.borrow(Some(held), 700, 4).unwrap();
    assert_eq!(
        settlement,
        Settlement {
            transfer: transfer(Asset::Borrowed, Direction::CustodyToUser, 700),
            position: position(1000, 700, 4),
        }
    );
    assert_eq!(contract.get_available_credit(Some(settlement.position)), 0);
    assert_eq!(
        contract.borrow(Some(settlement.position), 1, 5),
        Err(Failure::Rejected(Error::ExceedsCreditLimit))
    );
}

#[test]
fn borrow_counts_the_debt_already_owed() {
    let contract = ready();
    let owing = position(1000, 500, 3);
    assert_eq!(contract.borrow(Some(owing), 200, 4).unwrap().position, position(1000, 700, 4));
    assert_eq!(
        contract.borrow(Some(owing), 201, 4),
        Err(Failure::Rejected(Error::ExceedsCreditLimit))
    );
    assert_eq!(
        contract.borrow(Some(owing), i128::MAX, 4),
        Err(Failure::Rejected(Error::ExceedsCreditLimit))
    );
}

#[test]
fn borrow_without_a_position_is_refused() {
    let contract = ready();
    assert_eq!(
        contract.borrow(None, 1, 1),
        Err(Failure::Rejected(Error::InsufficientCollateral))
    );
}

#[test]
fn borrow_of_nothing_or_less_aborts() {
    let contract = ready();
    assert_eq!(contract.borrow(None, 0, 1), Err(Failure::Aborted(Abort::InvalidAmount)));
    assert_eq!(
        contract.borrow(Some(position(1000, 0, 0)), -1, 1),
        Err(Failure::Aborted(Abort::InvalidAmount))
    );
}

#[test]
fn borrow_without_a_configuration() {
    let contract: CreditLineContract<&'static str> = CreditLineContract::new();
    let held = position(1000, 0, 0);
    assert_eq!(
        contract.borrow(Some(held), 701, 1),
        Err(Failure::Rejected(Error::ExceedsCreditLimit))
    );
    assert_eq!(contract.borrow(Some(held), 700, 1), Err(Failure::Rejected(Error::NotInitialized)));
}

#[test]
fn borrow_at_another_ratio() {
    let contract = with_ratio(5000);
    let held = position(1000, 0, 0);
    assert_eq!(contract.borrow(Some(held), 500, 1).unwrap().position, position(1000, 500, 1));
    assert_eq!(
        contract.borrow(Some(held), 501, 1),
        Err(Failure::Rejected(Error::ExceedsCreditLimit))
    );
    assert_eq!(contract.get_available_credit(Some(held)), 500);
    let none = with_ratio(0);
    assert_eq!(none.borrow(Some(held), 1, 1), Err(Failure::Rejected(Error::ExceedsCreditLimit)));
}

#[test]
fn repay_takes_off_the_debt() {
    let contract = ready();
    let settlement = contract.repay(Some(position(1000, 700, 4)), 300, 8).unwrap();
    assert_eq!(
        settlement,
        Settlement {
            transfer: transfer(Asset::Borrowed, Direction::UserToCustody, 300),
            position: position(1000, 400, 8),
        }
    );
}

#[test]
fn repay_over_payment_rejected() {
    let contract = ready();
    let owing = position(1000, 500, 4);
    assert_eq!(
        contract.repay(Some(owing), 600, 5),
        Err(Failure::Aborted(Abort::RepayExceedsDebt))
    );
    assert_eq!(owing.borrowed, 500);
    assert_eq!(contract.get_position(Some(owing), 6), position(1000, 500, 4));
    assert_eq!(contract.repay(Some(owing), 500, 5).unwrap().position, position(1000, 0, 5));
}

#[test]
fn repay_without_a_position_is_refused() {
    let contract = ready();
    assert_eq!(contract.repay(None, 1, 1), Err(Failure::Rejected(Error::NotInitialized)));
}

#[test]
fn repay_of_nothing_or_less_aborts() {
    let contract = ready();
    assert_eq!(contract.repay(None, 0, 1), Err(Failure::Aborted(Abort::InvalidAmount)));
    assert_eq!(
        contract.repay(Some(position(1000, 700, 0)), -700, 1),
        Err(Failure::Aborted(Abort::InvalidAmount))
    );
}

#[test]
fn repay_without_a_configuration() {
    let contract: CreditLineContract<&'static str> = CreditLineContract::new();
    let owing = position(1000, 500, 0);
    assert_eq!(
        contract.repay(Some(owing), 501, 1),
        Err(Failure::Aborted(Abort::RepayExceedsDebt))
    );
    assert_eq!(contract.repay(Some(owing), 500, 1), Err(Failure::Rejected(Error::NotInitialized)));
}

#[test]
fn repay_then_withdraw_round_trip() {
    let contract = ready();
    let deposited = contract.deposit_collateral(None, 1000, 1).unwrap().position;
    let borrowed = contract.borrow(Some(deposited), 700, 2).unwrap().position;
    let repaid = contract.repay(Some(borrowed), 700, 3).unwrap().position;
    let withdrawn = contract.withdraw_collateral(Some(repaid), 1000, 4).unwrap();
    assert_eq!(withdrawn.position.collateral, 0);
    assert_eq!(withdrawn.position.borrowed, 0);
    assert_eq!(withdrawn.position, position(0, 0, 4));
    assert_eq!(withdrawn.transfer, transfer(Asset::Collateral, Direction::CustodyToUser, 1000));
}

#[test]
fn withdraw_blocked_by_solvency() {
    let contract = ready();
    let deposited = contract.deposit_collateral(None, 1000, 1).unwrap().position;
    let owing = contract.borrow(Some(deposited), 700, 2).unwrap().position;
    assert_eq!(
        contract.withdraw_collateral(Some(owing), 600, 3),
        Err(Failure::Rejected(Error::InsufficientCollateral))
    );
    assert_eq!(
        contract.withdraw_collateral(Some(owing), 1, 3),
        Err(Failure::Rejected(Error::InsufficientCollateral))
    );
    assert_eq!(
        contract.withdraw_collateral(Some(owing), 0, 3),
        Err(Failure::Aborted(Abort::InvalidAmount))
    );
    assert_eq!(
        contract.withdraw_collateral(Some(owing), -600, 3),
        Err(Failure::Aborted(Abort::InvalidAmount))
    );
    assert_eq!(owing, position(1000, 700, 2));
}

#[test]
fn withdraw_down_to_what_backs_the_debt() {
    let contract = ready();
    let owing = position(1000, 280, 2);
    let settlement = contract.withdraw_collateral(Some(owing), 600, 3).unwrap();
    assert_eq!(
        settlement,
        Settlement {
            transfer: transfer(Asset::Collateral, Direction::CustodyToUser, 600),
            position: position(400, 280, 3),
        }
    );
    assert_eq!(
        contract.withdraw_collateral(Some(owing), 601, 3),
        Err(Failure::Rejected(Error::InsufficientCollateral))
    );
}

#[test]
fn withdraw_more_than_held_is_refused() {
    let contract = ready();
    assert_eq!(
        contract.withdraw_collateral(Some(position(1000, 0, 2)), 1001, 3),
        Err(Failure::Rejected(Error::InsufficientBalance))
    );
    assert_eq!(
        contract.withdraw_collateral(Some(position(1000, 700, 2)), 1001, 3),
        Err(Failure::Rejected(Error::InsufficientBalance))
    );
}

#[test]
fn withdraw_without_a_position_is_refused() {
    let contract = ready();
    assert_eq!(
        contract.withdraw_collateral(None, 1, 1),
        Err(Failure::Rejected(Error::NotInitialized))
    );
}

#[test]
fn withdraw_without_a_configuration() {
    let contract: CreditLineContract<&'static str> = CreditLineContract::new();
    let held = position(1000, 0, 0);
    assert_eq!(
        contract.withdraw_collateral(Some(held), 1001, 1),
        Err(Failure::Rejected(Error::InsufficientBalance))
    );
    assert_eq!(
        contract.withdraw_collateral(Some(held), 1000, 1),
        Err(Failure::Rejected(Error::NotInitialized))
    );
}

#[test]
fn unknown_user_defaults() {
    let contract = ready();
    assert_eq!(contract.get_position(None, 77), position(0, 0, 77));
    assert_eq!(contract.get_available_credit(None), 0);
    let blank: CreditLineContract<&'static str> = CreditLineContract::new();
    assert_eq!(blank.get_position(None, 78), position(0, 0, 78));
    assert_eq!(blank.get_available_credit(None), 0);
}

#[test]
fn get_position_returns_what_is_stored() {
    let contract = ready();
    assert_eq!(contract.get_position(Some(position(12, 3, 5)), 99), position(12, 3, 5));
}

#[test]
fn available_credit_is_never_negative() {
    let contract = ready();
    assert_eq!(contract.get_available_credit(Some(position(1000, 900, 0))), 0);
    assert_eq!(contract.get_available_credit(Some(position(1000, 700, 0))), 0);
    assert_eq!(contract.get_available_credit(Some(position(1000, 699, 0))), 1);
    assert_eq!(contract.get_available_credit(Some(position(0, i128::MAX, 0))), 0);
    assert_eq!(
        contract.get_available_credit(Some(position(i128::MAX, 0, 0))),
        119098828422328462212181112601118874008
    );
}

#[test]
fn every_step_of_a_session_is_solvent() {
    let contract = ready();
    let mut stored: Option<UserPosition> = None;
    let steps: Vec<(u8, i128)> = vec![
        (1, 500),
        (0, 1000),
        (1, 701),
        (1, 350),
        (3, 600),
        (3, 500),
        (1, 1),
        (2, 351),
        (2, 100),
        (0, 3),
        (1, 352),
        (2, 250),
        (3, 503),
        (2, 1),
        (0, 10),
    ];
    let mut now: u64 = 0;
    let mut succeeded: u32 = 0;
    for (kind, amount) in steps {
        now += 1;
        let outcome = match kind {
            0 => contract.deposit_collateral(stored, amount, now),
            1 => contract.borrow(stored, amount, now),
            2 => contract.repay(stored, amount, now),
            _ => contract.withdraw_collateral(stored, amount, now),
        };
        if let Ok(settlement) = outcome {
            assert_eq!(settlement.transfer.amount, amount);
            assert_eq!(settlement.position.last_update, now);
            stored = Some(settlement.position);
            succeeded += 1;
        }
        if let Some(held) = stored {
            assert!(held.is_solvent(contract.ltv_ratio()));
        }
    }
    assert_eq!(succeeded, 8);
    assert_eq!(stored, Some(position(10, 0, 15)));
}

#[test]
fn refusals_are_numbered_from_one_to_five() {
    assert_eq!(Error::NotInitialized.code(), 1);
    assert_eq!(Error::AlreadyInitialized.code(), 2);
    assert_eq!(Error::InsufficientCollateral.code(), 3);
    assert_eq!(Error::ExceedsCreditLimit.code(), 4);
    assert_eq!(Error::InsufficientBalance.code(), 5);
}

#[test]
fn aborts_say_what_was_wrong() {
    assert_eq!(Abort::InvalidAmount.message(), "Amount must be positive");
    assert_eq!(Abort::RepayExceedsDebt.message(), "Repay amount exceeds borrowed amount");
    assert_eq!(Abort::Overflow.message(), "Balance out of range");
}

#[test]
fn position_is_recorded_only_when_the_asset_moved() {
    let contract = ready();
    let stored = Some(position(1000, 0, 1));
    let settlement = contract.borrow(stored, 700, 2).unwrap();
    assert_eq!(settlement.record(stored, true), Some(position(1000, 700, 2)));
    assert_eq!(settlement.record(stored, false), stored);
    let opening = contract.deposit_collateral(None, 5, 3).unwrap();
    assert_eq!(opening.record(None, false), None);
    assert_eq!(opening.record(None, true), Some(position(5, 0, 3)));
}
