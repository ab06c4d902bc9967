use lending_ledger::{
    init, Assets, Compound, CompoundAction, CompoundError, CompoundEvent, CompoundInit, Transfer,
};

const BASE: u64 = 1;
const RECEIPT: u64 = 2;
const CUSTODY: u64 = 99;
const ALICE: u64 = 10;
const BOB: u64 = 11;

fn config(collateral_factor: u128, ctoken_rate: u128) -> CompoundInit {
    CompoundInit {
        token_address: BASE,
        ctoken_address: RECEIPT,
        interest_rate: 1_000_000,
        collateral_factor,
        borrow_rate: 2_000_000,
        ctoken_rate,
    }
}

fn ledger(collateral_factor: u128, ctoken_rate: u128) -> Compound {
    init(config(collateral_factor, ctoken_rate), CUSTODY, 0).unwrap()
}

#[test]
fn collateral_gate_on_borrow() {
    let mut c = ledger(50, 1);
    assert!(c.lend_tokens(ALICE, 1000, 0, true).is_ok());
    assert_eq!(
        c.borrow_tokens(ALICE, 501, 0, true),
        Err(CompoundError::InsufficientCollateral)
    );
    assert_eq!(c.get_assets(ALICE).unwrap().borrowed_amount, 0);
    assert_eq!(
        c.borrow_tokens(ALICE, 500, 0, true),
        Ok(CompoundEvent::TokensBorrowed { address: ALICE, amount: 500, borrow_rate: 2_000_000 })
    );
    assert_eq!(c.get_assets(ALICE).unwrap().borrowed_amount, 500);
}

#[test]
fn collateral_gate_on_withdraw() {
    let mut c = ledger(50, 1);
    c.lend_tokens(ALICE, 1000, 0, true).unwrap();
    c.borrow_tokens(ALICE, 500, 0, true).unwrap();
    let before = c.get_assets(ALICE);
    assert_eq!(
        c.withdraw_tokens(ALICE, 200, 0, true),
        Err(CompoundError::InsufficientCollateral)
    );
    assert_eq!(c.get_assets(ALICE), before);
    assert_eq!(c.get_assets(ALICE).unwrap().lent_amount, 1000);
}

#[test]
fn borrow_without_position() {
    let mut c = ledger(50, 1);
    c.lend_tokens(ALICE, 1000, 0, true).unwrap();
    assert_eq!(c.borrow_tokens(BOB, 10, 0, true), Err(CompoundError::NoPosition));
    assert_eq!(c.get_assets(BOB), None);
}

#[test]
fn zero_amounts_rejected() {
    let mut c = ledger(50, 1);
    assert_eq!(c.lend_tokens(ALICE, 0, 0, true), Err(CompoundError::InvalidAmount));
    assert_eq!(c.get_assets(ALICE), None);
    c.lend_tokens(ALICE, 1000, 0, true).unwrap();
    c.borrow_tokens(ALICE, 100, 0, true).unwrap();
    let before = c.get_assets(ALICE);
    assert_eq!(c.lend_tokens(ALICE, 0, 0, true), Err(CompoundError::InvalidAmount));
    assert_eq!(c.borrow_tokens(ALICE, 0, 0, true), Err(CompoundError::InvalidAmount));
    assert_eq!(c.refund_tokens(ALICE, 0, 0, true), Err(CompoundError::InvalidAmount));
    assert_eq!(c.get_assets(ALICE), before);
}

#[test]
fn receipt_conversion_overflow() {
    assert_eq!(Compound::count_ctokens(3, 4), Ok(12));
    assert_eq!(
        Compound::count_ctokens(u128::MAX, 2),
        Err(CompoundError::ArithmeticOverflow)
    );
    assert_eq!(
        Compound::count_ctokens(u128::MAX / 2 + 1, 2),
        Err(CompoundError::ArithmeticOverflow)
    );
    assert_eq!(Compound::count_ctokens(u128::MAX / 2, 2), Ok(u128::MAX - 1));
    let mut c = ledger(50, 2);
    assert_eq!(
        c.lend_tokens(ALICE, u128::MAX, 0, true),
        Err(CompoundError::ArithmeticOverflow)
    );
    assert_eq!(c.get_assets(ALICE), None);
}

#[test]
fn base_conversion_rounds_down() {
    assert_eq!(Compound::count_tokens(10, 3), Ok(3));
    assert_eq!(Compound::count_tokens(12, 3), Ok(4));
    assert_eq!(Compound::count_tokens(12, 0), Err(CompoundError::DivisionError));
}

#[test]
fn lend_then_withdraw_restores_position() {
    let mut c = ledger(50, 3);
    c.lend_tokens(ALICE, 40, 5_000, true).unwrap();
    let before = c.get_assets(ALICE).unwrap();
    let lend = CompoundAction::LendTokens { amount: 25 };
    let lend_moves = c.pending_transfers(ALICE, lend, 9_000).unwrap();
    assert_eq!(
        c.lend_tokens(ALICE, 25, 9_000, true),
        Ok(CompoundEvent::TokensLended { address: ALICE, amount: 25, ctokens_amount: 75 })
    );
    assert_eq!(c.get_assets(ALICE).unwrap().lent_amount, 195);
    let withdraw = CompoundAction::WithdrawTokens { amount: 25 };
    let withdraw_moves = c.pending_transfers(ALICE, withdraw, 9_000).unwrap();
    assert_eq!(
        c.withdraw_tokens(ALICE, 25, 9_000, true),
        Ok(CompoundEvent::TokensWithdrawed { address: ALICE, amount: 25 })
    );
    assert_eq!(c.get_assets(ALICE).unwrap(), before);
    let mut net: i128 = 0;
    for t in lend_moves.iter().chain(withdraw_moves.iter()) {
        if t.asset == BASE && t.to == ALICE {
            net += t.amount as i128;
        }
        if t.asset == BASE && t.from == ALICE {
            net -= t.amount as i128;
        }
    }
    assert_eq!(net, 0);
}

fn solvent(c: &Compound, a: &Assets) -> bool {
    a.lent_amount * c.collateral_factor() / c.ctoken_rate() / 100 >= a.borrowed_amount
}

#[test]
fn every_account_stays_solvent() {
    let mut c = ledger(75, 2);
    let actions = [
        (ALICE, CompoundAction::LendTokens { amount: 400 }),
        (BOB, CompoundAction::LendTokens { amount: 100 }),
        (ALICE, CompoundAction::BorrowTokens { amount: 300 }),
        (ALICE, CompoundAction::BorrowTokens { amount: 1 }),
        (BOB, CompoundAction::BorrowTokens { amount: 75 }),
        (BOB, CompoundAction::WithdrawTokens { amount: 1 }),
        (ALICE, CompoundAction::RefundTokens { amount: 100 }),
        (ALICE, CompoundAction::WithdrawTokens { amount: 133 }),
        (ALICE, CompoundAction::WithdrawTokens { amount: 134 }),
        (BOB, CompoundAction::RefundTokens { amount: 75 }),
        (BOB, CompoundAction::WithdrawTokens { amount: 100 }),
    ];
    let mut results = Vec::new();
    for (who, action) in actions.iter() {
        results.push(c.handle(*who, *action, 1_000, true).is_ok());
        for acct in [ALICE, BOB] {
            if let Some(a) = c.get_assets(acct) {
                assert!(solvent(&c, &a));
            }
        }
    }
    assert_eq!(
        results,
        vec![true, true, true, false, true, false, true, true, false, true, true]
    );
    assert_eq!(c.get_assets(ALICE).unwrap().lent_amount, 534);
    assert_eq!(c.get_assets(ALICE).unwrap().borrowed_amount, 200);
    assert_eq!(c.get_assets(BOB).unwrap().lent_amount, 0);
    assert_eq!(c.get_assets(BOB).unwrap().borrowed_amount, 0);
}

#[test]
fn refund_beyond_debt_fails() {
    let mut c = ledger(50, 1);
    c.lend_tokens(ALICE, 1000, 0, true).unwrap();
    c.borrow_tokens(ALICE, 300, 0, true).unwrap();
    assert_eq!(c.refund_tokens(ALICE, 301, 0, true), Err(CompoundError::RefundExceedsDebt));
    assert_eq!(c.get_assets(ALICE).unwrap().borrowed_amount, 300);
    assert_eq!(
        c.refund_tokens(ALICE, 300, 0, true),
        Ok(CompoundEvent::TokensRefunded { address: ALICE, amount: 300 })
    );
    assert_eq!(c.get_assets(ALICE).unwrap().borrowed_amount, 0);
    assert_eq!(c.refund_tokens(BOB, 1, 0, true), Err(CompoundError::NoPosition));
}

#[test]
fn withdraw_beyond_balance_fails() {
    let mut c = ledger(50, 2);
    c.lend_tokens(ALICE, 10, 0, true).unwrap();
    assert_eq!(
        c.withdraw_tokens(ALICE, 11, 0, true),
        Err(CompoundError::WithdrawExceedsBalance)
    );
    assert_eq!(c.withdraw_tokens(BOB, 1, 0, true), Err(CompoundError::NoPosition));
    assert!(c.withdraw_tokens(ALICE, 10, 0, true).is_ok());
    assert_eq!(c.get_assets(ALICE).unwrap().lent_amount, 0);
}

#[test]
fn failed_transfer_changes_nothing() {
    let mut c = ledger(50, 1);
    assert_eq!(c.lend_tokens(ALICE, 100, 0, false), Err(CompoundError::TransferFailed));
    assert_eq!(c.get_assets(ALICE), None);
    c.lend_tokens(ALICE, 100, 0, true).unwrap();
    let before = c.get_assets(ALICE);
    assert_eq!(c.borrow_tokens(ALICE, 10, 0, false), Err(CompoundError::TransferFailed));
    assert_eq!(c.withdraw_tokens(ALICE, 10, 0, false), Err(CompoundError::TransferFailed));
    assert_eq!(c.get_assets(ALICE), before);
}

#[test]
fn validation_comes_before_transfer_outcome() {
    let mut c = ledger(50, 1);
    assert_eq!(c.lend_tokens(ALICE, 0, 0, false), Err(CompoundError::InvalidAmount));
    assert_eq!(c.borrow_tokens(ALICE, 5, 0, false), Err(CompoundError::NoPosition));
}

#[test]
fn collateral_product_overflow() {
    let mut c = ledger(50, 1);
    c.lend_tokens(ALICE, u128::MAX / 10, 0, true).unwrap();
    assert_eq!(c.borrow_tokens(ALICE, 1, 0, true), Err(CompoundError::ArithmeticOverflow));
}

#[test]
fn init_rejects_zero_parameters() {
    assert!(init(config(50, 1), CUSTODY, 0).is_ok());
    assert_eq!(init(config(0, 1), CUSTODY, 0).err(), Some(CompoundError::InvalidConfig));
    assert_eq!(init(config(50, 0), CUSTODY, 0).err(), Some(CompoundError::InvalidConfig));
    let mut zero_rate = config(50, 1);
    zero_rate.interest_rate = 0;
    assert_eq!(init(zero_rate, CUSTODY, 0).err(), Some(CompoundError::InvalidConfig));
    let mut zero_borrow = config(50, 1);
    zero_borrow.borrow_rate = 0;
    assert_eq!(init(zero_borrow, CUSTODY, 0).err(), Some(CompoundError::InvalidConfig));
    let mut zero_token = config(50, 1);
    zero_token.token_address = 0;
    assert_eq!(init(zero_token, CUSTODY, 0).err(), Some(CompoundError::InvalidConfig));
    let mut zero_ctoken = config(50, 1);
    zero_ctoken.ctoken_address = 0;
    assert_eq!(init(zero_ctoken, CUSTODY, 0).err(), Some(CompoundError::InvalidConfig));
}

#[test]
fn init_keeps_parameters() {
    let c = init(config(50, 3), CUSTODY, 12_345).unwrap();
    assert_eq!(c.token_address(), BASE);
    assert_eq!(c.ctoken_address(), RECEIPT);
    assert_eq!(c.program_id(), CUSTODY);
    assert_eq!(c.interest_rate(), 1_000_000);
    assert_eq!(c.collateral_factor(), 50);
    assert_eq!(c.borrow_rate(), 2_000_000);
    assert_eq!(c.ctoken_rate(), 3);
    assert_eq!(c.init_time(), 12);
}

#[test]
fn pending_transfers_list_the_moves() {
    let mut c = ledger(50, 3);
    assert_eq!(
        c.pending_transfers(ALICE, CompoundAction::LendTokens { amount: 7 }, 0),
        Ok(vec![
            Transfer { asset: BASE, from: ALICE, to: CUSTODY, amount: 7 },
            Transfer { asset: RECEIPT, from: CUSTODY, to: ALICE, amount: 21 },
        ])
    );
    assert_eq!(
        c.pending_transfers(ALICE, CompoundAction::BorrowTokens { amount: 7 }, 0),
        Err(CompoundError::NoPosition)
    );
    c.lend_tokens(ALICE, 100, 0, true).unwrap();
    assert_eq!(
        c.pending_transfers(ALICE, CompoundAction::BorrowTokens { amount: 7 }, 0),
        Ok(vec![Transfer { asset: BASE, from: CUSTODY, to: ALICE, amount: 7 }])
    );
    c.borrow_tokens(ALICE, 7, 0, true).unwrap();
    assert_eq!(
        c.pending_transfers(ALICE, CompoundAction::RefundTokens { amount: 7 }, 0),
        Ok(vec![Transfer { asset: BASE, from: ALICE, to: CUSTODY, amount: 7 }])
    );
    assert_eq!(
        c.pending_transfers(ALICE, CompoundAction::WithdrawTokens { amount: 4 }, 0),
        Ok(vec![
            Transfer { asset: RECEIPT, from: ALICE, to: CUSTODY, amount: 12 },
            Transfer { asset: BASE, from: CUSTODY, to: ALICE, amount: 4 },
        ])
    );
}

#[test]
fn lent_amount_accrues_simple_interest() {
    let mut c = ledger(50, 1);
    assert_eq!(c.get_lent_amount(ALICE, 0), Err(CompoundError::NoPosition));
    c.lend_tokens(ALICE, 1000, 0, true).unwrap();
    assert_eq!(c.get_lent_amount(ALICE, 0), Ok(1000));
    // 1000 units for 10 s at 0.1% per second
    assert_eq!(c.get_lent_amount(ALICE, 10_000), Ok(1010));
    c.lend_tokens(ALICE, 1000, 10_000, true).unwrap();
    assert_eq!(c.get_assets(ALICE).unwrap().lend_offset, 10_000);
    // 1000 units for 20 s and 1000 units for 10 s
    assert_eq!(c.get_lent_amount(ALICE, 20_000), Ok(2030));
    c.withdraw_tokens(ALICE, 500, 20_000, true).unwrap();
    assert_eq!(c.get_assets(ALICE).unwrap().lend_offset, 0);
    assert_eq!(c.get_lent_amount(ALICE, 20_000), Ok(1530));
}

#[test]
fn borrowed_amount_accrues_simple_interest() {
    let mut c = init(config(50, 1), CUSTODY, 5_000).unwrap();
    c.lend_tokens(ALICE, 1000, 5_000, true).unwrap();
    assert_eq!(c.get_borrow_amount(BOB, 5_000), Err(CompoundError::NoPosition));
    assert_eq!(c.get_borrow_amount(ALICE, 9_000), Ok(0));
    c.borrow_tokens(ALICE, 400, 5_000, true).unwrap();
    // 400 units for 5 s at 0.2% per second
    assert_eq!(c.get_borrow_amount(ALICE, 10_999), Ok(404));
    c.refund_tokens(ALICE, 100, 10_000, true).unwrap();
    assert_eq!(c.get_assets(ALICE).unwrap().borrow_offset, -500);
    assert_eq!(c.get_borrow_amount(ALICE, 10_000), Ok(304));
}
