use vstd::prelude::*;
use crate::engine::lemma_plan_solvent;
use crate::ledger::LedgerView;
use crate::types::{fits_u128, ActorId, CompoundAction, Transfer};

verus! {

/// The ledger after each of `actions` (caller, action, time) is handled in
/// turn with successful transfers; a refused action changes nothing.
pub open spec fn replay(v: LedgerView, actions: Seq<(ActorId, CompoundAction, u64)>) -> LedgerView
    decreases actions.len(),
{
    if actions.len() == 0 {
        v
    } else {
        let pre = replay(v, actions.drop_last());
        let (caller, action, now_ms) = actions.last();
        match pre.action_spec(caller, action, now_ms) {
            Ok(a) => pre.with_position(caller, a),
            Err(_) => pre,
        }
    }
}

/// Net amount of `asset` that `account` receives over `ts`.
pub open spec fn net_flow(ts: Seq<Transfer>, asset: ActorId, account: ActorId) -> int
    decreases ts.len(),
{
    if ts.len() == 0 {
        0
    } else {
        let t = ts.last();
        let inflow = if t.asset == asset && t.to == account {
            t.amount as int
        } else {
            0
        };
        let outflow = if t.asset == asset && t.from == account {
            t.amount as int
        } else {
            0
        };
        net_flow(ts.drop_last(), asset, account) + inflow - outflow
    }
}

/// Solvency: from a well-formed ledger, any sequence of actions leaves every
/// account able to cover its borrowed principal with what it may borrow
/// against its lent principal.
pub proof fn lemma_replay_solvent(v: LedgerView, actions: Seq<(ActorId, CompoundAction, u64)>)
    requires
        v.wf(),
    ensures
        replay(v, actions).wf(),
        forall|k: ActorId| #[trigger]
            replay(v, actions).positions.contains_key(k) ==> replay(v, actions).solvent(
                replay(v, actions).positions[k],
            ),
    decreases actions.len(),
{
    if actions.len() > 0 {
        let pre = replay(v, actions.drop_last());
        lemma_replay_solvent(v, actions.drop_last());
        let (caller, action, now_ms) = actions.last();
        if pre.action_spec(caller, action, now_ms) is Ok {
            lemma_plan_solvent(pre, caller, action, now_ms);
            let post = replay(v, actions);
            assert forall|k: ActorId| #[trigger]
                post.positions.contains_key(k) implies post.solvent(post.positions[k]) by {
                if k != caller {
                    assert(pre.positions.contains_key(k));
                }
            }
        }
    }
}

/// Lending `amount` and withdrawing the same amount at the same moment leaves
/// the caller's record as it was before, and the caller pays in as much base
/// asset as it gets back. Holds where the caller's earlier lent principal
/// times the collateral factor fits in `u128`, which the withdrawal's
/// collateral check computes.
pub proof fn lemma_lend_then_withdraw(v: LedgerView, caller: ActorId, amount: u128, now_ms: u64)
    requires
        v.wf(),
        v.lend_spec(caller, amount, now_ms) is Ok,
        fits_u128(v.position(caller).lent_amount * v.collateral_factor),
    ensures
        ({
            let v1 = v.with_position(caller, v.lend_spec(caller, amount, now_ms)->Ok_0);
            let back = v1.withdraw_spec(caller, amount, now_ms);
            &&& back == Ok::<_, crate::types::CompoundError>(v.position(caller))
            &&& net_flow(
                v.transfers_spec(caller, CompoundAction::LendTokens { amount }) + v1.transfers_spec(
                    caller,
                    CompoundAction::WithdrawTokens { amount },
                ),
                v.token_address,
                caller,
            ) == 0
        }),
{
    let p = v.position(caller);
    let a = v.lend_spec(caller, amount, now_ms)->Ok_0;
    let v1 = v.with_position(caller, a);
    let rate = v.ctoken_rate as int;
    let ct = amount * rate;
    assert(a.lent_amount == p.lent_amount + ct);
    assert((p.lent_amount + ct) / rate >= amount) by (nonlinear_arith)
        requires
            ct == amount * rate,
            rate > 0,
            p.lent_amount >= 0,
            amount >= 0,
    ;
    if v.positions.contains_key(caller) {
        assert(v.solvent(v.positions[caller]));
    }
    assert(v1.positions[caller] == a);
    let ts = v.transfers_spec(caller, CompoundAction::LendTokens { amount }) + v1.transfers_spec(
        caller,
        CompoundAction::WithdrawTokens { amount },
    );
    assert(ts.drop_last().drop_last().drop_last().drop_last().len() == 0);
    reveal_with_fuel(net_flow, 5);
}

} // verus!
