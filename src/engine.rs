use vstd::prelude::*;
use vstd::hash_map::HashMapWithView;
use crate::arith::{accrual_fits, accrue, shift_offset};
use crate::ledger::LedgerView;
use crate::types::{
    accrued, fits_u128, max_borrow, ActorId, Assets, CompoundAction, CompoundError,
    CompoundEvent, CompoundInit, Transfer, FACTOR_SCALE,
};

verus! {

broadcast use vstd::std_specs::hash::group_hash_axioms;

/// The lending ledger: protocol parameters and one record per account that
/// has lent.
pub struct Compound {
    token_address: ActorId,
    ctoken_address: ActorId,
    program_id: ActorId,
    interest_rate: u128,
    collateral_factor: u128,
    borrow_rate: u128,
    ctoken_rate: u128,
    user_assets: HashMapWithView<ActorId, Assets>,
    init_time: u64,
}

impl View for Compound {
    type V = LedgerView;

    closed spec fn view(&self) -> LedgerView {
        LedgerView {
            token_address: self.token_address,
            ctoken_address: self.ctoken_address,
            program_id: self.program_id,
            interest_rate: self.interest_rate,
            collateral_factor: self.collateral_factor,
            borrow_rate: self.borrow_rate,
            ctoken_rate: self.ctoken_rate,
            init_time: self.init_time,
            positions: self.user_assets@,
        }
    }
}

proof fn lemma_max_borrow_monotone(a: int, b: int, f: int, r: int)
    requires
        0 <= a <= b,
        f >= 0,
        r > 0,
    ensures
        0 <= max_borrow(a, f, r) <= max_borrow(b, f, r),
{
    assert(0 <= a * f <= b * f) by (nonlinear_arith)
        requires
            0 <= a <= b,
            f >= 0,
    ;
    assert(0 <= a * f / r <= b * f / r) by (nonlinear_arith)
        requires
            0 <= a * f <= b * f,
            r > 0,
    ;
    assert(0 <= a * f / r / 100 <= b * f / r / 100) by (nonlinear_arith)
        requires
            0 <= a * f / r <= b * f / r,
    ;
}

proof fn lemma_max_borrow_bounded(a: int, f: int, r: int)
    requires
        a >= 0,
        f >= 0,
        r > 0,
    ensures
        max_borrow(a, f, r) <= a * f,
{
    assert(0 <= a * f) by (nonlinear_arith)
        requires
            a >= 0,
            f >= 0,
    ;
    assert(a * f / r <= a * f) by (nonlinear_arith)
        requires
            a * f >= 0,
            r > 0,
    ;
    assert(a * f / r / 100 <= a * f / r) by (nonlinear_arith)
        requires
            a * f / r >= 0,
    ;
}

proof fn lemma_burn_within(lent: int, amount: int, rate: int)
    requires
        lent >= 0,
        amount >= 0,
        rate > 0,
        lent / rate >= amount,
    ensures
        0 <= amount * rate <= lent,
{
    assert(0 <= amount * rate <= (lent / rate) * rate) by (nonlinear_arith)
        requires
            0 <= amount <= lent / rate,
            rate > 0,
    ;
    assert((lent / rate) * rate <= lent) by (nonlinear_arith)
        requires
            lent >= 0,
            rate > 0,
    ;
}

impl Compound {
    /// Receipt-asset units for `tokens_amount` base units; fails instead of
    /// wrapping when the product leaves `u128`.
    pub fn count_ctokens(tokens_amount: u128, ctoken_rate: u128) -> (r: Result<u128, CompoundError>)
        ensures
            r == if fits_u128(tokens_amount * ctoken_rate) {
                Ok::<u128, CompoundError>((tokens_amount * ctoken_rate) as u128)
            } else {
                Err(CompoundError::ArithmeticOverflow)
            },
    {
        match tokens_amount.checked_mul(ctoken_rate) {
            Some(v) => Ok(v),
            None => Err(CompoundError::ArithmeticOverflow),
        }
    }

    /// Base-asset units for `ctokens_amount` receipt units, rounded down; fails
    /// on a zero rate.
    pub fn count_tokens(ctokens_amount: u128, ctoken_rate: u128) -> (r: Result<u128, CompoundError>)
        ensures
            r == if ctoken_rate == 0 {
                Err::<u128, CompoundError>(CompoundError::DivisionError)
            } else {
                Ok((ctokens_amount / ctoken_rate) as u128)
            },
    {
        if ctoken_rate == 0 {
            Err(CompoundError::DivisionError)
        } else {
            Ok(ctokens_amount / ctoken_rate)
        }
    }

    /// Collateral check shared by borrow and withdraw: the base amount that may
    /// be borrowed against `lent` receipt units.
    fn max_borrow_tokens(&self, lent: u128) -> (r: Result<u128, CompoundError>)
        requires
            self@.wf(),
        ensures
            r == if fits_u128(lent * self.collateral_factor) {
                Ok::<u128, CompoundError>(
                    max_borrow(lent as int, self.collateral_factor as int, self.ctoken_rate as int)
                        as u128,
                )
            } else {
                Err(CompoundError::ArithmeticOverflow)
            },
    {
        let scaled = match lent.checked_mul(self.collateral_factor) {
            Some(s) => s,
            None => return Err(CompoundError::ArithmeticOverflow),
        };
        let tokens = match Self::count_tokens(scaled, self.ctoken_rate) {
            Ok(t) => t,
            Err(e) => return Err(e),
        };
        Ok(tokens / FACTOR_SCALE)
    }

    fn elapsed_secs(&self, now_ms: u64) -> (r: u64)
        ensures
            r as int == self@.el(now_ms),
    {
        let s = now_ms / 1000;
        if s >= self.init_time {
            s - self.init_time
        } else {
            0
        }
    }

    fn position_of(&self, caller: ActorId) -> (r: Option<Assets>)
        ensures
            r == if self@.positions.contains_key(caller) {
                Some(self@.positions[caller])
            } else {
                None::<Assets>
            },
    {
        match self.user_assets.get(&caller) {
            Some(a) => Some(*a),
            None => None,
        }
    }
}

impl Compound {
    fn plan_lend(&self, caller: ActorId, amount: u128, now_ms: u64) -> (r: Result<Assets, CompoundError>)
        requires
            self@.wf(),
        ensures
            r == self@.lend_spec(caller, amount, now_ms),
    {
        if amount == 0 {
            return Err(CompoundError::InvalidAmount);
        }
        let ct = match Self::count_ctokens(amount, self.ctoken_rate) {
            Ok(c) => c,
            Err(e) => return Err(e),
        };
        let p = match self.position_of(caller) {
            Some(p) => p,
            None => Assets { lent_amount: 0, lend_offset: 0, borrowed_amount: 0, borrow_offset: 0 },
        };
        let lent = match p.lent_amount.checked_add(ct) {
            Some(l) => l,
            None => return Err(CompoundError::ArithmeticOverflow),
        };
        let off = match shift_offset(p.lend_offset, ct, self.elapsed_secs(now_ms), true) {
            Some(n) => n,
            None => return Err(CompoundError::ArithmeticOverflow),
        };
        Ok(Assets { lent_amount: lent, lend_offset: off, ..p })
    }

    fn plan_borrow(&self, caller: ActorId, amount: u128, now_ms: u64) -> (r: Result<Assets, CompoundError>)
        requires
            self@.wf(),
        ensures
            r == self@.borrow_spec(caller, amount, now_ms),
    {
        if amount == 0 {
            return Err(CompoundError::InvalidAmount);
        }
        let p = match self.position_of(caller) {
            Some(p) => p,
            None => return Err(CompoundError::NoPosition),
        };
        let limit = match self.max_borrow_tokens(p.lent_amount) {
            Ok(m) => m,
            Err(e) => return Err(e),
        };
        if limit < p.borrowed_amount || limit - p.borrowed_amount < amount {
            return Err(CompoundError::InsufficientCollateral);
        }
        let off = match shift_offset(p.borrow_offset, amount, self.elapsed_secs(now_ms), true) {
            Some(n) => n,
            None => return Err(CompoundError::ArithmeticOverflow),
        };
        Ok(Assets { borrowed_amount: p.borrowed_amount + amount, borrow_offset: off, ..p })
    }

    fn plan_refund(&self, caller: ActorId, amount: u128, now_ms: u64) -> (r: Result<Assets, CompoundError>)
        requires
            self@.wf(),
        ensures
            r == self@.refund_spec(caller, amount, now_ms),
    {
        if amount == 0 {
            return Err(CompoundError::InvalidAmount);
        }
        let p = match self.position_of(caller) {
            Some(p) => p,
            None => return Err(CompoundError::NoPosition),
        };
        if p.borrowed_amount < amount {
            return Err(CompoundError::RefundExceedsDebt);
        }
        let off = match shift_offset(p.borrow_offset, amount, self.elapsed_secs(now_ms), false) {
            Some(n) => n,
            None => return Err(CompoundError::ArithmeticOverflow),
        };
        Ok(Assets { borrowed_amount: p.borrowed_amount - amount, borrow_offset: off, ..p })
    }

    fn plan_withdraw(&self, caller: ActorId, amount: u128, now_ms: u64) -> (r: Result<Assets, CompoundError>)
        requires
            self@.wf(),
        ensures
            r == self@.withdraw_spec(caller, amount, now_ms),
    {
        let p = match self.position_of(caller) {
            Some(p) => p,
            None => return Err(CompoundError::NoPosition),
        };
        let value = match Self::count_tokens(p.lent_amount, self.ctoken_rate) {
            Ok(v) => v,
            Err(e) => return Err(e),
        };
        if value < amount {
            return Err(CompoundError::WithdrawExceedsBalance);
        }
        proof {
            lemma_burn_within(p.lent_amount as int, amount as int, self.ctoken_rate as int);
        }
        let burn = amount * self.ctoken_rate;
        let rest = p.lent_amount - burn;
        let limit = match self.max_borrow_tokens(rest) {
            Ok(m) => m,
            Err(e) => return Err(e),
        };
        if limit < p.borrowed_amount {
            return Err(CompoundError::InsufficientCollateral);
        }
        let off = match shift_offset(p.lend_offset, burn, self.elapsed_secs(now_ms), false) {
            Some(n) => n,
            None => return Err(CompoundError::ArithmeticOverflow),
        };
        Ok(Assets { lent_amount: rest, lend_offset: off, ..p })
    }

    fn plan(&self, caller: ActorId, action: CompoundAction, now_ms: u64) -> (r: Result<Assets, CompoundError>)
        requires
            self@.wf(),
        ensures
            r == self@.action_spec(caller, action, now_ms),
    {
        match action {
            CompoundAction::LendTokens { amount } => self.plan_lend(caller, amount, now_ms),
            CompoundAction::BorrowTokens { amount } => self.plan_borrow(caller, amount, now_ms),
            CompoundAction::RefundTokens { amount } => self.plan_refund(caller, amount, now_ms),
            CompoundAction::WithdrawTokens { amount } => self.plan_withdraw(caller, amount, now_ms),
        }
    }
}

pub(crate) proof fn lemma_plan_solvent(v: LedgerView, caller: ActorId, action: CompoundAction, now_ms: u64)
    requires
        v.wf(),
        v.action_spec(caller, action, now_ms) is Ok,
    ensures
        v.solvent(v.action_spec(caller, action, now_ms)->Ok_0),
{
    let p = v.position(caller);
    let a = v.action_spec(caller, action, now_ms)->Ok_0;
    if v.positions.contains_key(caller) {
        assert(v.solvent(v.positions[caller]));
    }
    match action {
        CompoundAction::LendTokens { amount } => {
            assert(a.borrowed_amount == p.borrowed_amount);
            assert(a.lent_amount >= p.lent_amount) by (nonlinear_arith)
                requires
                    a.lent_amount == p.lent_amount + amount * v.ctoken_rate,
            ;
            lemma_max_borrow_monotone(
                p.lent_amount as int,
                a.lent_amount as int,
                v.collateral_factor as int,
                v.ctoken_rate as int,
            );
        },
        CompoundAction::BorrowTokens { amount } => {},
        CompoundAction::RefundTokens { amount } => {},
        CompoundAction::WithdrawTokens { amount } => {
            lemma_burn_within(p.lent_amount as int, amount as int, v.ctoken_rate as int);
        },
    }
}

impl Compound {
    fn event(&self, caller: ActorId, action: CompoundAction) -> (r: CompoundEvent)
        requires
            action matches CompoundAction::LendTokens { amount } ==> fits_u128(
                amount * self.ctoken_rate,
            ),
        ensures
            r == self@.event_spec(caller, action),
    {
        match action {
            CompoundAction::LendTokens { amount } => CompoundEvent::TokensLended {
                address: caller,
                amount,
                ctokens_amount: amount * self.ctoken_rate,
            },
            CompoundAction::BorrowTokens { amount } => CompoundEvent::TokensBorrowed {
                address: caller,
                amount,
                borrow_rate: self.borrow_rate,
            },
            CompoundAction::RefundTokens { amount } => CompoundEvent::TokensRefunded {
                address: caller,
                amount,
            },
            CompoundAction::WithdrawTokens { amount } => CompoundEvent::TokensWithdrawed {
                address: caller,
                amount,
            },
        }
    }

    /// Validates `action`, then applies it when `transferred` reports that all of
    /// its transfers succeeded.
    fn commit(&mut self, caller: ActorId, action: CompoundAction, now_ms: u64, transferred: bool) -> (r:
        Result<CompoundEvent, CompoundError>)
        requires
            old(self)@.wf(),
        ensures
            final(self)@.wf(),
            old(self)@.step(final(self)@, caller, action, now_ms, transferred, r),
    {
        let a = match self.plan(caller, action, now_ms) {
            Ok(a) => a,
            Err(e) => return Err(e),
        };
        if !transferred {
            return Err(CompoundError::TransferFailed);
        }
        let ev = self.event(caller, action);
        proof {
            lemma_plan_solvent(self@, caller, action, now_ms);
        }
        self.user_assets.insert(caller, a);
        proof {
            assert(self@ == old(self)@.with_position(caller, a));
            assert forall|k: ActorId| #[trigger]
                self@.positions.contains_key(k) implies self@.solvent(self@.positions[k]) by {
                if k != caller {
                    assert(old(self)@.positions.contains_key(k));
                }
            }
        }
        Ok(ev)
    }

    /// Lends `amount` base units: the caller pays them in and receives
    /// `amount * ctoken_rate` receipt units, added to its lent principal.
    pub fn lend_tokens(&mut self, caller: ActorId, amount: u128, now_ms: u64, transferred: bool) -> (r:
        Result<CompoundEvent, CompoundError>)
        requires
            old(self)@.wf(),
        ensures
            final(self)@.wf(),
            old(self)@.step(
                final(self)@,
                caller,
                CompoundAction::LendTokens { amount },
                now_ms,
                transferred,
                r,
            ),
            amount == 0 ==> r == Err::<CompoundEvent, CompoundError>(CompoundError::InvalidAmount)
                && final(self)@ == old(self)@,
    {
        self.commit(caller, CompoundAction::LendTokens { amount }, now_ms, transferred)
    }

    /// Borrows `amount` base units against the caller's lent principal.
    pub fn borrow_tokens(&mut self, caller: ActorId, amount: u128, now_ms: u64, transferred: bool) -> (r:
        Result<CompoundEvent, CompoundError>)
        requires
            old(self)@.wf(),
        ensures
            final(self)@.wf(),
            old(self)@.step(
                final(self)@,
                caller,
                CompoundAction::BorrowTokens { amount },
                now_ms,
                transferred,
                r,
            ),
            amount == 0 ==> r == Err::<CompoundEvent, CompoundError>(CompoundError::InvalidAmount)
                && final(self)@ == old(self)@,
            amount > 0 && !old(self)@.positions.contains_key(caller) ==> r == Err::<
                CompoundEvent,
                CompoundError,
            >(CompoundError::NoPosition) && final(self)@ == old(self)@,
    {
        self.commit(caller, CompoundAction::BorrowTokens { amount }, now_ms, transferred)
    }

    /// Repays `amount` base units of the caller's borrowed principal.
    pub fn refund_tokens(&mut self, caller: ActorId, amount: u128, now_ms: u64, transferred: bool) -> (r:
        Result<CompoundEvent, CompoundError>)
        requires
            old(self)@.wf(),
        ensures
            final(self)@.wf(),
            old(self)@.step(
                final(self)@,
                caller,
                CompoundAction::RefundTokens { amount },
                now_ms,
                transferred,
                r,
            ),
            amount == 0 ==> r == Err::<CompoundEvent, CompoundError>(CompoundError::InvalidAmount)
                && final(self)@ == old(self)@,
            amount > 0 && old(self)@.positions.contains_key(caller)
                && old(self)@.positions[caller].borrowed_amount < amount ==> r == Err::<
                CompoundEvent,
                CompoundError,
            >(CompoundError::RefundExceedsDebt) && final(self)@ == old(self)@,
    {
        self.commit(caller, CompoundAction::RefundTokens { amount }, now_ms, transferred)
    }

    /// Redeems `amount` base units of the caller's lent principal, burning
    /// `amount * ctoken_rate` receipt units.
    pub fn withdraw_tokens(&mut self, caller: ActorId, amount: u128, now_ms: u64, transferred: bool) -> (r:
        Result<CompoundEvent, CompoundError>)
        requires
            old(self)@.wf(),
        ensures
            final(self)@.wf(),
            old(self)@.step(
                final(self)@,
                caller,
                CompoundAction::WithdrawTokens { amount },
                now_ms,
                transferred,
                r,
            ),
    {
        self.commit(caller, CompoundAction::WithdrawTokens { amount }, now_ms, transferred)
    }

    /// Handles any action, as the four handlers above do.
    pub fn handle(&mut self, caller: ActorId, action: CompoundAction, now_ms: u64, transferred: bool) -> (r:
        Result<CompoundEvent, CompoundError>)
        requires
            old(self)@.wf(),
        ensures
            final(self)@.wf(),
            old(self)@.step(final(self)@, caller, action, now_ms, transferred, r),
    {
        match action {
            CompoundAction::LendTokens { amount } => self.lend_tokens(caller, amount, now_ms, transferred),
            CompoundAction::BorrowTokens { amount } => self.borrow_tokens(caller, amount, now_ms, transferred),
            CompoundAction::RefundTokens { amount } => self.refund_tokens(caller, amount, now_ms, transferred),
            CompoundAction::WithdrawTokens { amount } => self.withdraw_tokens(caller, amount, now_ms, transferred),
        }
    }

    /// The transfers to perform, in order, before `action` is handled; the
    /// error that refuses it, before any transfer, otherwise.
    pub fn pending_transfers(&self, caller: ActorId, action: CompoundAction, now_ms: u64) -> (r: Result<
        Vec<Transfer>,
        CompoundError,
    >)
        requires
            self@.wf(),
        ensures
            match self@.action_spec(caller, action, now_ms) {
                Err(e) => r == Err::<Vec<Transfer>, CompoundError>(e),
                Ok(_) => r matches Ok(v) && v@ == self@.transfers_spec(caller, action),
            },
    {
        match self.plan(caller, action, now_ms) {
            Err(e) => return Err(e),
            Ok(_) => {},
        }
        let me = self.program_id;
        let base = self.token_address;
        let receipt = self.ctoken_address;
        let mut v: Vec<Transfer> = Vec::new();
        match action {
            CompoundAction::LendTokens { amount } => {
                v.push(Transfer { asset: base, from: caller, to: me, amount });
                v.push(Transfer { asset: receipt, from: me, to: caller, amount: amount * self.ctoken_rate });
            },
            CompoundAction::BorrowTokens { amount } => {
                v.push(Transfer { asset: base, from: me, to: caller, amount });
            },
            CompoundAction::RefundTokens { amount } => {
                v.push(Transfer { asset: base, from: caller, to: me, amount });
            },
            CompoundAction::WithdrawTokens { amount } => {
                proof {
                    let p = self@.positions[caller];
                    lemma_burn_within(p.lent_amount as int, amount as int, self.ctoken_rate as int);
                }
                v.push(Transfer { asset: receipt, from: caller, to: me, amount: amount * self.ctoken_rate });
                v.push(Transfer { asset: base, from: me, to: caller, amount });
            },
        }
        assert(v@ =~= self@.transfers_spec(caller, action));
        Ok(v)
    }
}

/// Creates the ledger from `config`, with `program_id` as the custody account
/// and `timestamp_ms` as the time of creation; refuses a zero address, rate or
/// factor.
pub fn init(config: CompoundInit, program_id: ActorId, timestamp_ms: u64) -> (r: Result<
    Compound,
    CompoundError,
>)
    ensures
        config.token_address == 0 || config.ctoken_address == 0 || config.interest_rate == 0
            || config.collateral_factor == 0 || config.borrow_rate == 0 || config.ctoken_rate == 0
            <==> r is Err,
        r matches Err(e) ==> e == CompoundError::InvalidConfig,
        r matches Ok(c) ==> {
            &&& c@.wf()
            &&& c@.token_address == config.token_address
            &&& c@.ctoken_address == config.ctoken_address
            &&& c@.program_id == program_id
            &&& c@.interest_rate == config.interest_rate
            &&& c@.collateral_factor == config.collateral_factor
            &&& c@.borrow_rate == config.borrow_rate
            &&& c@.ctoken_rate == config.ctoken_rate
            &&& c@.init_time == timestamp_ms / 1000
            &&& c@.positions == Map::<ActorId, Assets>::empty()
        },
{
    if config.token_address == 0 || config.ctoken_address == 0 || config.interest_rate == 0
        || config.collateral_factor == 0 || config.borrow_rate == 0 || config.ctoken_rate == 0 {
        return Err(CompoundError::InvalidConfig);
    }
    Ok(
        Compound {
            token_address: config.token_address,
            ctoken_address: config.ctoken_address,
            program_id,
            interest_rate: config.interest_rate,
            collateral_factor: config.collateral_factor,
            borrow_rate: config.borrow_rate,
            ctoken_rate: config.ctoken_rate,
            user_assets: HashMapWithView::new(),
            init_time: timestamp_ms / 1000,
        },
    )
}

impl Compound {
    /// The record of `account`, if it has lent.
    pub fn get_assets(&self, account: ActorId) -> (r: Option<Assets>)
        ensures
            r == if self@.positions.contains_key(account) {
                Some(self@.positions[account])
            } else {
                None::<Assets>
            },
    {
        self.position_of(account)
    }

    /// Lent principal of `account` plus simple interest at `interest_rate`
    /// up to `now_ms`, in receipt units.
    pub fn get_lent_amount(&self, account: ActorId, now_ms: u64) -> (r: Result<u128, CompoundError>)
        ensures
            !self@.positions.contains_key(account) ==> r == Err::<u128, CompoundError>(
                CompoundError::NoPosition,
            ),
            self@.positions.contains_key(account) ==> {
                let p = self@.positions[account];
                let args = (p.lent_amount as int, p.lend_offset as int, self@.interest_rate as int);
                r == if accrual_fits(args.0, args.1, args.2, self@.el(now_ms)) {
                    Ok::<u128, CompoundError>(accrued(args.0, args.1, args.2, self@.el(now_ms)) as u128)
                } else {
                    Err(CompoundError::ArithmeticOverflow)
                }
            },
    {
        let p = match self.position_of(account) {
            Some(p) => p,
            None => return Err(CompoundError::NoPosition),
        };
        match accrue(p.lent_amount, p.lend_offset, self.interest_rate, self.elapsed_secs(now_ms)) {
            Some(v) => Ok(v),
            None => Err(CompoundError::ArithmeticOverflow),
        }
    }

    /// Borrowed principal of `account` plus simple interest at `borrow_rate`
    /// up to `now_ms`, in base units.
    pub fn get_borrow_amount(&self, account: ActorId, now_ms: u64) -> (r: Result<u128, CompoundError>)
        ensures
            !self@.positions.contains_key(account) ==> r == Err::<u128, CompoundError>(
                CompoundError::NoPosition,
            ),
            self@.positions.contains_key(account) ==> {
                let p = self@.positions[account];
                let args = (p.borrowed_amount as int, p.borrow_offset as int, self@.borrow_rate as int);
                r == if accrual_fits(args.0, args.1, args.2, self@.el(now_ms)) {
                    Ok::<u128, CompoundError>(accrued(args.0, args.1, args.2, self@.el(now_ms)) as u128)
                } else {
                    Err(CompoundError::ArithmeticOverflow)
                }
            },
    {
        let p = match self.position_of(account) {
            Some(p) => p,
            None => return Err(CompoundError::NoPosition),
        };
        match accrue(p.borrowed_amount, p.borrow_offset, self.borrow_rate, self.elapsed_secs(now_ms)) {
            Some(v) => Ok(v),
            None => Err(CompoundError::ArithmeticOverflow),
        }
    }

    pub fn token_address(&self) -> (r: ActorId)
        ensures
            r == self@.token_address,
    {
        self.token_address
    }

    pub fn ctoken_address(&self) -> (r: ActorId)
        ensures
            r == self@.ctoken_address,
    {
        self.ctoken_address
    }

    pub fn program_id(&self) -> (r: ActorId)
        ensures
            r == self@.program_id,
    {
        self.program_id
    }

    pub fn interest_rate(&self) -> (r: u128)
        ensures
            r == self@.interest_rate,
    {
        self.interest_rate
    }

    pub fn collateral_factor(&self) -> (r: u128)
        ensures
            r == self@.collateral_factor,
    {
        self.collateral_factor
    }

    pub fn borrow_rate(&self) -> (r: u128)
        ensures
            r == self@.borrow_rate,
    {
        self.borrow_rate
    }

    pub fn ctoken_rate(&self) -> (r: u128)
        ensures
            r == self@.ctoken_rate,
    {
        self.ctoken_rate
    }

    pub fn init_time(&self) -> (r: u64)
        ensures
            r == self@.init_time,
    {
        self.init_time
    }
}

} // verus!
