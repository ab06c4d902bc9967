use vstd::prelude::*;
use crate::types::{
    elapsed, fits_u128, max_borrow, shifted, ActorId, Assets, CompoundAction, CompoundError,
    CompoundEvent, Transfer,
};

verus! {

/// The ledger as a mathematical value.
pub struct LedgerView {
    pub token_address: ActorId,
    pub ctoken_address: ActorId,
    pub program_id: ActorId,
    pub interest_rate: u128,
    pub collateral_factor: u128,
    pub borrow_rate: u128,
    pub ctoken_rate: u128,
    pub init_time: u64,
    pub positions: Map<ActorId, Assets>,
}

/// A record with nothing lent or borrowed.
pub open spec fn empty_assets() -> Assets {
    Assets { lent_amount: 0, lend_offset: 0, borrowed_amount: 0, borrow_offset: 0 }
}

impl LedgerView {
    /// The collateral rule: what may be borrowed against the lent principal
    /// covers the borrowed principal.
    pub open spec fn solvent(self, a: Assets) -> bool {
        max_borrow(a.lent_amount as int, self.collateral_factor as int, self.ctoken_rate as int)
            >= a.borrowed_amount
    }

    /// Rates and factor are positive and every account is solvent.
    pub open spec fn wf(self) -> bool {
        &&& self.interest_rate > 0
        &&& self.borrow_rate > 0
        &&& self.collateral_factor > 0
        &&& self.ctoken_rate > 0
        &&& forall|k: ActorId| #[trigger]
            self.positions.contains_key(k) ==> self.solvent(self.positions[k])
    }

    /// The record of `k`, or an empty one where `k` never lent.
    pub open spec fn position(self, k: ActorId) -> Assets {
        if self.positions.contains_key(k) {
            self.positions[k]
        } else {
            empty_assets()
        }
    }

    pub open spec fn el(self, now_ms: u64) -> int {
        elapsed(self.init_time, now_ms)
    }

    /// The ledger with the record of `k` replaced.
    pub open spec fn with_position(self, k: ActorId, a: Assets) -> LedgerView {
        LedgerView { positions: self.positions.insert(k, a), ..self }
    }

    /// The new record of `caller` after lending `amount` base units, or the
    /// error that refuses it.
    pub open spec fn lend_spec(self, caller: ActorId, amount: u128, now_ms: u64) -> Result<
        Assets,
        CompoundError,
    > {
        let ct = amount * self.ctoken_rate;
        let p = self.position(caller);
        let lent = p.lent_amount + ct;
        if amount == 0 {
            Err(CompoundError::InvalidAmount)
        } else if !fits_u128(ct) || !fits_u128(lent) {
            Err(CompoundError::ArithmeticOverflow)
        } else {
            match shifted(p.lend_offset as int, ct, self.el(now_ms), true) {
                None => Err(CompoundError::ArithmeticOverflow),
                Some(n) => Ok(Assets { lent_amount: lent as u128, lend_offset: n as i128, ..p }),
            }
        }
    }

    /// The new record of `caller` after borrowing `amount` base units, or the
    /// error that refuses it.
    pub open spec fn borrow_spec(self, caller: ActorId, amount: u128, now_ms: u64) -> Result<
        Assets,
        CompoundError,
    > {
        let p = self.positions[caller];
        let cf = self.collateral_factor as int;
        if amount == 0 {
            Err(CompoundError::InvalidAmount)
        } else if !self.positions.contains_key(caller) {
            Err(CompoundError::NoPosition)
        } else if !fits_u128(p.lent_amount * cf) {
            Err(CompoundError::ArithmeticOverflow)
        } else if max_borrow(p.lent_amount as int, cf, self.ctoken_rate as int) < p.borrowed_amount
            + amount {
            Err(CompoundError::InsufficientCollateral)
        } else {
            match shifted(p.borrow_offset as int, amount as int, self.el(now_ms), true) {
                None => Err(CompoundError::ArithmeticOverflow),
                Some(n) => Ok(
                    Assets {
                        borrowed_amount: (p.borrowed_amount + amount) as u128,
                        borrow_offset: n as i128,
                        ..p
                    },
                ),
            }
        }
    }

    /// The new record of `caller` after repaying `amount` base units, or the
    /// error that refuses it.
    pub open spec fn refund_spec(self, caller: ActorId, amount: u128, now_ms: u64) -> Result<
        Assets,
        CompoundError,
    > {
        let p = self.positions[caller];
        if amount == 0 {
            Err(CompoundError::InvalidAmount)
        } else if !self.positions.contains_key(caller) {
            Err(CompoundError::NoPosition)
        } else if p.borrowed_amount < amount {
            Err(CompoundError::RefundExceedsDebt)
        } else {
            match shifted(p.borrow_offset as int, amount as int, self.el(now_ms), false) {
                None => Err(CompoundError::ArithmeticOverflow),
                Some(n) => Ok(
                    Assets {
                        borrowed_amount: (p.borrowed_amount - amount) as u128,
                        borrow_offset: n as i128,
                        ..p
                    },
                ),
            }
        }
    }

    /// The new record of `caller` after redeeming `amount` base units, which
    /// burns `amount * ctoken_rate` receipt units, or the error that refuses it.
    pub open spec fn withdraw_spec(self, caller: ActorId, amount: u128, now_ms: u64) -> Result<
        Assets,
        CompoundError,
    > {
        let p = self.positions[caller];
        let cf = self.collateral_factor as int;
        let rate = self.ctoken_rate as int;
        let burn = amount * rate;
        let rest = p.lent_amount - burn;
        if !self.positions.contains_key(caller) {
            Err(CompoundError::NoPosition)
        } else if (p.lent_amount as int) / rate < amount {
            Err(CompoundError::WithdrawExceedsBalance)
        } else if !fits_u128(rest * cf) {
            Err(CompoundError::ArithmeticOverflow)
        } else if max_borrow(rest, cf, rate) < p.borrowed_amount {
            Err(CompoundError::InsufficientCollateral)
        } else {
            match shifted(p.lend_offset as int, burn, self.el(now_ms), false) {
                None => Err(CompoundError::ArithmeticOverflow),
                Some(n) => Ok(Assets { lent_amount: rest as u128, lend_offset: n as i128, ..p }),
            }
        }
    }

    /// The new record of `caller` after `action`, or the error that refuses it.
    pub open spec fn action_spec(self, caller: ActorId, action: CompoundAction, now_ms: u64) -> Result<
        Assets,
        CompoundError,
    > {
        match action {
            CompoundAction::LendTokens { amount } => self.lend_spec(caller, amount, now_ms),
            CompoundAction::BorrowTokens { amount } => self.borrow_spec(caller, amount, now_ms),
            CompoundAction::RefundTokens { amount } => self.refund_spec(caller, amount, now_ms),
            CompoundAction::WithdrawTokens { amount } => self.withdraw_spec(caller, amount, now_ms),
        }
    }

    /// The transfers a valid `action` needs, in the order they are made.
    pub open spec fn transfers_spec(self, caller: ActorId, action: CompoundAction) -> Seq<Transfer> {
        let me = self.program_id;
        let base = self.token_address;
        let receipt = self.ctoken_address;
        match action {
            CompoundAction::LendTokens { amount } => seq![
                Transfer { asset: base, from: caller, to: me, amount },
                Transfer {
                    asset: receipt,
                    from: me,
                    to: caller,
                    amount: (amount * self.ctoken_rate) as u128,
                },
            ],
            CompoundAction::BorrowTokens { amount } => seq![
                Transfer { asset: base, from: me, to: caller, amount },
            ],
            CompoundAction::RefundTokens { amount } => seq![
                Transfer { asset: base, from: caller, to: me, amount },
            ],
            CompoundAction::WithdrawTokens { amount } => seq![
                Transfer {
                    asset: receipt,
                    from: caller,
                    to: me,
                    amount: (amount * self.ctoken_rate) as u128,
                },
                Transfer { asset: base, from: me, to: caller, amount },
            ],
        }
    }

    /// The reply to a successful `action`.
    pub open spec fn event_spec(self, caller: ActorId, action: CompoundAction) -> CompoundEvent {
        match action {
            CompoundAction::LendTokens { amount } => CompoundEvent::TokensLended {
                address: caller,
                amount,
                ctokens_amount: (amount * self.ctoken_rate) as u128,
            },
            CompoundAction::BorrowTokens { amount } => CompoundEvent::TokensBorrowed {
                address: caller,
                amount,
                borrow_rate: self.borrow_rate,
            },
            CompoundAction::RefundTokens { amount } => CompoundEvent::TokensRefunded {
                address: caller,
                amount,
            },
            CompoundAction::WithdrawTokens { amount } => CompoundEvent::TokensWithdrawed {
                address: caller,
                amount,
            },
        }
    }

    /// One handled action: a refused action, or one whose transfers failed,
    /// leaves the ledger as it was; otherwise the caller's record is replaced
    /// and the reply is returned.
    pub open spec fn step(
        self,
        post: LedgerView,
        caller: ActorId,
        action: CompoundAction,
        now_ms: u64,
        transferred: bool,
        r: Result<CompoundEvent, CompoundError>,
    ) -> bool {
        match self.action_spec(caller, action, now_ms) {
            Err(e) => r == Err::<CompoundEvent, CompoundError>(e) && post == self,
            Ok(a) => if transferred {
                r == Ok::<CompoundEvent, CompoundError>(self.event_spec(caller, action))
                    && post == self.with_position(caller, a)
            } else {
                r == Err::<CompoundEvent, CompoundError>(CompoundError::TransferFailed)
                    && post == self
            },
        }
    }
}

} // verus!
