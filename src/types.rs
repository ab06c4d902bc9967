use vstd::prelude::*;

verus! {

/// Identity of an account or of an asset.
pub type ActorId = u64;

/// The collateral factor is a percentage: `50` lets an account borrow half of
/// the base-asset value of what it has lent.
pub const FACTOR_SCALE: u128 = 100;

/// Interest rates are per second, in billionths of the principal.
pub const RATE_SCALE: u128 = 1_000_000_000;

/// One account's lending and borrowing record.
///
/// `lent_amount` is held in receipt-asset units, `borrowed_amount` in
/// base-asset units. Each offset is the sum, over every change of its principal,
/// of the change times the seconds elapsed since initialization at that moment
/// (added for a lend or a borrow, subtracted for a withdrawal or a refund), so
/// that `principal * elapsed - offset` is the principal-seconds held so far.
#[derive(Clone, Copy, Debug, PartialEq, Eq, Structural)]
pub struct Assets {
    pub lent_amount: u128,
    pub lend_offset: i128,
    pub borrowed_amount: u128,
    pub borrow_offset: i128,
}

/// Why an action was refused.
#[derive(Clone, Copy, Debug, PartialEq, Eq, Structural)]
pub enum CompoundError {
    /// The amount is zero.
    InvalidAmount,
    /// The account has never lent.
    NoPosition,
    /// The action would leave the account under-collateralized.
    InsufficientCollateral,
    /// A refund larger than the borrowed principal.
    RefundExceedsDebt,
    /// A withdrawal larger than the lent value in base-asset units.
    WithdrawExceedsBalance,
    /// A checked multiplication or addition left the integer range.
    ArithmeticOverflow,
    /// A conversion divided by a zero rate.
    DivisionError,
    /// An asset transfer did not complete.
    TransferFailed,
    /// An initialization parameter is zero.
    InvalidConfig,
}

/// An inbound action; amounts are in base-asset units.
#[derive(Clone, Copy, Debug, PartialEq, Eq, Structural)]
pub enum CompoundAction {
    LendTokens { amount: u128 },
    BorrowTokens { amount: u128 },
    RefundTokens { amount: u128 },
    WithdrawTokens { amount: u128 },
}

/// The reply to a successful action.
#[derive(Clone, Copy, Debug, PartialEq, Eq, Structural)]
pub enum CompoundEvent {
    TokensLended { address: ActorId, amount: u128, ctokens_amount: u128 },
    TokensBorrowed { address: ActorId, amount: u128, borrow_rate: u128 },
    TokensRefunded { address: ActorId, amount: u128 },
    TokensWithdrawed { address: ActorId, amount: u128 },
}

/// A movement of `amount` units of `asset` from `from` to `to`.
#[derive(Clone, Copy, Debug, PartialEq, Eq, Structural)]
pub struct Transfer {
    pub asset: ActorId,
    pub from: ActorId,
    pub to: ActorId,
    pub amount: u128,
}

/// Parameters the ledger is created with.
#[derive(Clone, Copy, Debug, PartialEq, Eq, Structural)]
pub struct CompoundInit {
    pub token_address: ActorId,
    pub ctoken_address: ActorId,
    pub interest_rate: u128,
    pub collateral_factor: u128,
    pub borrow_rate: u128,
    pub ctoken_rate: u128,
}

/// Whether `x` lies in the range of `i128`.
pub open spec fn fits_i128(x: int) -> bool {
    i128::MIN <= x <= i128::MAX
}

/// Whether `x` lies in the range of `u128`.
pub open spec fn fits_u128(x: int) -> bool {
    0 <= x <= u128::MAX
}

/// Whole seconds from initialization to `now_ms` (milliseconds); zero before it.
pub open spec fn elapsed(init_time: u64, now_ms: u64) -> int {
    let s = now_ms / 1000;
    if s >= init_time {
        s - init_time
    } else {
        0
    }
}

/// The base-asset amount an account may borrow against `lent` receipt units.
pub open spec fn max_borrow(lent: int, factor: int, rate: int) -> int {
    lent * factor / rate / (FACTOR_SCALE as int)
}

/// An offset moved by `amount` held for `el` seconds, when both the move and the
/// result fit in `i128`.
pub open spec fn shifted(offset: int, amount: int, el: int, add: bool) -> Option<int> {
    let d = amount * el;
    let n = if add {
        offset + d
    } else {
        offset - d
    };
    if d <= i128::MAX && fits_i128(n) {
        Some(n)
    } else {
        None
    }
}

/// Principal-seconds that `principal` has earned interest for.
pub open spec fn weight(principal: int, offset: int, el: int) -> int {
    principal * el - offset
}

/// Principal plus simple interest at `rate` over the principal-seconds held;
/// no interest where the offset exceeds them (a clock that went back).
pub open spec fn accrued(principal: int, offset: int, rate: int, el: int) -> int {
    let w = weight(principal, offset, el);
    principal + if w > 0 {
        rate * w / (RATE_SCALE as int)
    } else {
        0
    }
}

} // verus!
