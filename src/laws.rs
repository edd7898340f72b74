//! Properties of the ledger that hold over all inputs, or over sequences of
//! operations, proved from the operations' contracts.

use vstd::prelude::*;

use crate::account::AccountId;
use crate::error::{FailureCode, LedgerError};
use crate::wcspr::{
    credited,
    debited,
    decrease_outcome,
    deposit_outcome,
    moved,
    transfer_outcome,
    withdraw_outcome,
    WCSPR,
};

verus! {

/// `post` follows `pre` by one successful `transfer` or `transfer_from`.
pub open spec fn transfer_step(pre: WCSPR, post: WCSPR) -> bool {
    exists|from: AccountId, to: AccountId, amount: nat| moved(pre, post, from, to, amount)
}

/// `post` follows `pre` by one successful `deposit` or `withdraw`, and the
/// reserve went from `reserve_pre` to `reserve_post` by the native move that
/// goes with it.
pub open spec fn bridge_step(pre: WCSPR, post: WCSPR, reserve_pre: nat, reserve_post: nat) -> bool {
    ||| exists|a: AccountId, amount: nat|
        credited(pre, post, a, amount) && reserve_post == reserve_pre + amount
    ||| exists|a: AccountId, amount: nat|
        debited(pre, post, a, amount) && amount <= reserve_pre && reserve_post == reserve_pre
            - amount
}

/// Conservation: along any sequence of successful transfers, the sum of all
/// balances never changes.
pub proof fn lemma_transfers_conserve_supply(states: Seq<WCSPR>)
    requires
        states.len() >= 1,
        forall|i: int| 0 <= i < states.len() - 1 ==> #[trigger] transfer_step(states[i], states[i + 1]),
    ensures
        forall|i: int| 0 <= i < states.len() ==> #[trigger] states[i].supply() == states[0].supply(),
    decreases states.len(),
{
    if states.len() > 1 {
        let prefix = states.drop_last();
        assert forall|i: int| 0 <= i < prefix.len() - 1 implies #[trigger] transfer_step(
            prefix[i],
            prefix[i + 1],
        ) by {
            assert(transfer_step(states[i], states[i + 1]));
        }
        lemma_transfers_conserve_supply(prefix);
        let n = states.len() - 1;
        let m = n - 1;
        assert(transfer_step(states[m], states[m + 1]));
        assert(prefix[n - 1] == states[n - 1]);
        assert forall|i: int| 0 <= i < states.len() implies #[trigger] states[i].supply()
            == states[0].supply() by {
            if i < n {
                assert(prefix[i] == states[i]);
            }
        }
    }
}

/// Reserve sufficiency: along any sequence of successful deposits and
/// withdrawals that starts with the supply covered by the reserve, the
/// supply stays covered.
pub proof fn lemma_reserve_covers_supply(states: Seq<WCSPR>, reserves: Seq<nat>)
    requires
        states.len() >= 1,
        reserves.len() == states.len(),
        states[0].supply() <= reserves[0],
        forall|i: int|
            0 <= i < states.len() - 1 ==> #[trigger] bridge_step(
                states[i],
                states[i + 1],
                reserves[i],
                reserves[i + 1],
            ),
    ensures
        forall|i: int| 0 <= i < states.len() ==> #[trigger] states[i].supply() <= reserves[i],
    decreases states.len(),
{
    if states.len() > 1 {
        let sp = states.drop_last();
        let rp = reserves.drop_last();
        assert forall|i: int| 0 <= i < sp.len() - 1 implies #[trigger] bridge_step(
            sp[i],
            sp[i + 1],
            rp[i],
            rp[i + 1],
        ) by {
            assert(bridge_step(states[i], states[i + 1], reserves[i], reserves[i + 1]));
        }
        lemma_reserve_covers_supply(sp, rp);
        let n = states.len() - 1;
        let m = n - 1;
        assert(bridge_step(states[m], states[m + 1], reserves[m], reserves[m + 1]));
        assert(sp[n - 1] == states[n - 1] && rp[n - 1] == reserves[n - 1]);
        assert(states[n - 1].supply() <= reserves[n - 1]);
        assert forall|i: int| 0 <= i < states.len() implies #[trigger] states[i].supply()
            <= reserves[i] by {
            if i < n {
                assert(sp[i] == states[i] && rp[i] == reserves[i]);
            }
        }
    }
}

/// No negative balances: a transfer that would take more than the sender
/// holds aborts on the checked subtraction, and a successful one never
/// takes more than the sender held.
pub proof fn lemma_overdraft_reverts(pre: WCSPR, from: AccountId, to: AccountId, amount: nat)
    ensures
        from != to && amount > 0 && pre.balance(from) < amount ==> transfer_outcome(
            pre,
            from,
            to,
            amount,
        ) == Err::<(), LedgerError>(LedgerError::Revert(FailureCode::One)),
        forall|post: WCSPR| #[trigger] moved(pre, post, from, to, amount) ==> amount <= pre.balance(from),
{
}

/// A transfer from an account to itself is rejected as invalid parties,
/// whatever the amount.
pub proof fn lemma_self_transfer_rejected(pre: WCSPR, a: AccountId, amount: nat)
    ensures
        transfer_outcome(pre, a, a, amount) == Err::<(), LedgerError>(LedgerError::InvalidParties),
{
}

/// Zero amounts are rejected by transfer (between distinct accounts),
/// deposit and withdraw.
pub proof fn lemma_zero_amount_rejected(
    pre: WCSPR,
    a: AccountId,
    b: AccountId,
    available: nat,
    reserve: nat,
)
    requires
        a != b,
    ensures
        transfer_outcome(pre, a, b, 0) == Err::<(), LedgerError>(LedgerError::ZeroAmount),
        deposit_outcome(pre, a, 0, available) == Err::<(), LedgerError>(LedgerError::ZeroAmount),
        withdraw_outcome(pre, a, 0, reserve) == Err::<(), LedgerError>(LedgerError::ZeroAmount),
{
}

/// Decreasing an allowance by zero is rejected: the new allowance would not
/// be strictly smaller.
pub proof fn lemma_zero_decrease_rejected(pre: WCSPR, owner: AccountId, spender: AccountId)
    ensures
        decrease_outcome(pre, owner, spender, 0) == Err::<(), LedgerError>(LedgerError::InvalidParties),
{
}

} // verus!
