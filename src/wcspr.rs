//! The wrapped-token ledger: balances, allowances, and the operations that
//! move value between them or across the bridge to the native reserve.
//!
//! Every operation is all-or-nothing: on any error the ledger is left
//! exactly as it was.

use vstd::prelude::*;

use crate::account::{AccountId, AllowanceKey, PackageHash, PurseRef, TableKey};
use crate::error::{FailureCode, LedgerError};
use crate::table::Table;
use crate::uint::{u256_max, U256, U512};

verus! {

/// What is fixed when the ledger is created and only read afterwards.
#[derive(Debug)]
pub struct Metadata {
    pub name: String,
    pub symbol: String,
    pub decimals: u8,
    pub contract_hash: AccountId,
    pub package_hash: PackageHash,
    pub purse: PurseRef,
}

/// The wrapped-token ledger.
pub struct WCSPR {
    meta: Metadata,
    balances: Table<AccountId>,
    allowances: Table<AllowanceKey>,
}

/// The result of a transfer of `amount` from `sender` to `recipient` on
/// `pre`, in the order the checks are made.
pub open spec fn transfer_outcome(
    pre: WCSPR,
    sender: AccountId,
    recipient: AccountId,
    amount: nat,
) -> Result<(), LedgerError> {
    if sender == recipient {
        Err(LedgerError::InvalidParties)
    } else if amount == 0 {
        Err(LedgerError::ZeroAmount)
    } else if pre.balance(sender) < amount {
        Err(LedgerError::Revert(FailureCode::One))
    } else if pre.balance(recipient) + amount > u256_max() {
        Err(LedgerError::Revert(FailureCode::Zero))
    } else {
        Ok(())
    }
}

/// The result of `caller` moving `amount` out of `owner`'s balance into
/// `recipient`'s under an allowance.
pub open spec fn transfer_from_outcome(
    pre: WCSPR,
    caller: AccountId,
    owner: AccountId,
    recipient: AccountId,
    amount: nat,
) -> Result<(), LedgerError> {
    let allowed = pre.allowance_of(owner, caller);
    if transfer_outcome(pre, owner, recipient, amount) is Err {
        transfer_outcome(pre, owner, recipient, amount)
    } else if allowed < amount {
        Err(LedgerError::Revert(FailureCode::One))
    } else if !(allowed - amount < allowed && owner != caller) {
        Err(LedgerError::InvalidParties)
    } else {
        Ok(())
    }
}

/// The result of `caller` raising `spender`'s allowance by `amount`.
pub open spec fn increase_outcome(
    pre: WCSPR,
    caller: AccountId,
    spender: AccountId,
    amount: nat,
) -> Result<(), LedgerError> {
    let allowed = pre.allowance_of(caller, spender);
    if allowed + amount > u256_max() {
        Err(LedgerError::Revert(FailureCode::Zero))
    } else if allowed + amount <= pre.balance(caller) && caller != spender {
        Ok(())
    } else {
        Err(LedgerError::InvalidParties)
    }
}

/// The result of `caller` lowering `spender`'s allowance by `amount`.
pub open spec fn decrease_outcome(
    pre: WCSPR,
    caller: AccountId,
    spender: AccountId,
    amount: nat,
) -> Result<(), LedgerError> {
    let allowed = pre.allowance_of(caller, spender);
    if allowed < amount {
        Err(LedgerError::Revert(FailureCode::One))
    } else if allowed - amount < allowed && caller != spender {
        Ok(())
    } else {
        Err(LedgerError::InvalidParties)
    }
}

/// The result of `caller` wrapping `amount` of native currency taken from a
/// purse that holds `available`.
pub open spec fn deposit_outcome(
    pre: WCSPR,
    caller: AccountId,
    amount: nat,
    available: nat,
) -> Result<(), LedgerError> {
    if amount == 0 {
        Err(LedgerError::ZeroAmount)
    } else if available < amount {
        Err(LedgerError::InsufficientFunds)
    } else if pre.balance(caller) + amount > u256_max() {
        Err(LedgerError::Revert(FailureCode::Zero))
    } else {
        Ok(())
    }
}

/// The result of `caller` unwrapping `amount` while the reserve holds
/// `reserve`.
pub open spec fn withdraw_outcome(
    pre: WCSPR,
    caller: AccountId,
    amount: nat,
    reserve: nat,
) -> Result<(), LedgerError> {
    if amount == 0 {
        Err(LedgerError::ZeroAmount)
    } else if pre.balance(caller) >= amount && amount <= reserve {
        Ok(())
    } else {
        Err(LedgerError::InsufficientFunds)
    }
}

/// `post` is `pre` with `amount` moved from `from`'s balance to `to`'s:
/// every other balance and the supply stay as they were.
pub open spec fn moved(pre: WCSPR, post: WCSPR, from: AccountId, to: AccountId, amount: nat) -> bool {
    &&& from != to
    &&& amount <= pre.balance(from)
    &&& post.balance(from) == pre.balance(from) - amount
    &&& post.balance(to) == pre.balance(to) + amount
    &&& forall|x: AccountId| x != from && x != to ==> post.balance(x) == pre.balance(x)
    &&& post.supply() == pre.supply()
    &&& post.meta() == pre.meta()
    &&& post.wf()
}

/// `post` is `pre` with `amount` added to `account`'s balance and to the
/// supply.
pub open spec fn credited(pre: WCSPR, post: WCSPR, account: AccountId, amount: nat) -> bool {
    &&& post.balance(account) == pre.balance(account) + amount
    &&& forall|x: AccountId| x != account ==> post.balance(x) == pre.balance(x)
    &&& forall|o: AccountId, s: AccountId| post.allowance_of(o, s) == pre.allowance_of(o, s)
    &&& post.supply() == pre.supply() + amount
    &&& post.meta() == pre.meta()
    &&& post.wf()
}

/// `post` is `pre` with `amount` taken from `account`'s balance and from
/// the supply.
pub open spec fn debited(pre: WCSPR, post: WCSPR, account: AccountId, amount: nat) -> bool {
    &&& amount <= pre.balance(account)
    &&& amount <= pre.supply()
    &&& post.balance(account) == pre.balance(account) - amount
    &&& forall|x: AccountId| x != account ==> post.balance(x) == pre.balance(x)
    &&& forall|o: AccountId, s: AccountId| post.allowance_of(o, s) == pre.allowance_of(o, s)
    &&& post.supply() == pre.supply() - amount
    &&& post.meta() == pre.meta()
    &&& post.wf()
}

/// `post` is `pre` with the allowance of `spender` over `owner`'s balance
/// set to `amount`, and nothing else changed.
pub open spec fn allowance_set(
    pre: WCSPR,
    post: WCSPR,
    owner: AccountId,
    spender: AccountId,
    amount: nat,
) -> bool {
    &&& post.allowance_of(owner, spender) == amount
    &&& forall|o: AccountId, s: AccountId|
        !(o == owner && s == spender) ==> post.allowance_of(o, s) == pre.allowance_of(o, s)
    &&& forall|x: AccountId| post.balance(x) == pre.balance(x)
    &&& post.supply() == pre.supply()
    &&& post.meta() == pre.meta()
    &&& post.wf()
}

impl WCSPR {
    /// Both tables hold each key at most once.
    pub closed spec fn wf(&self) -> bool {
        self.balances.wf() && self.allowances.wf()
    }

    /// The wrapped balance of `a`.
    pub closed spec fn balance(&self, a: AccountId) -> nat {
        self.balances.value(a)
    }

    /// What `spender` may still move out of `owner`'s balance.
    pub closed spec fn allowance_of(&self, owner: AccountId, spender: AccountId) -> nat {
        self.allowances.value(AllowanceKey { owner, spender })
    }

    /// The wrapped supply: the sum of all balances.
    pub closed spec fn supply(&self) -> nat {
        self.balances.total()
    }

    /// The metadata fixed at creation.
    pub closed spec fn meta(&self) -> Metadata {
        self.meta
    }

    /// A new ledger with the given metadata, no balances and no allowances.
    pub fn init(
        name: String,
        symbol: String,
        decimals: u8,
        contract_hash: AccountId,
        package_hash: PackageHash,
        purse: PurseRef,
    ) -> (r: WCSPR)
        ensures
            r.wf(),
            r.meta() == (Metadata { name, symbol, decimals, contract_hash, package_hash, purse }),
            r.supply() == 0,
            forall|a: AccountId| r.balance(a) == 0,
            forall|o: AccountId, s: AccountId| r.allowance_of(o, s) == 0,
    {
        WCSPR {
            meta: Metadata { name, symbol, decimals, contract_hash, package_hash, purse },
            balances: Table::new(),
            allowances: Table::new(),
        }
    }

    /// The wrapped balance of `owner`, zero for an account never credited.
    pub fn balance_of(&self, owner: &AccountId) -> (r: U256)
        requires
            self.wf(),
        ensures
            r@ == self.balance(*owner),
    {
        self.balances.get(owner)
    }

    /// What `spender` may still move out of `owner`'s balance.
    pub fn allowance(&self, owner: &AccountId, spender: &AccountId) -> (r: U256)
        requires
            self.wf(),
        ensures
            r@ == self.allowance_of(*owner, *spender),
    {
        self.allowances.get(&AllowanceKey { owner: *owner, spender: *spender })
    }

    /// Sets the allowance of `spender` over `owner`'s balance to `amount`.
    pub fn _approve(&mut self, owner: &AccountId, spender: &AccountId, amount: U256)
        requires
            old(self).wf(),
        ensures
            allowance_set(*old(self), *final(self), *owner, *spender, amount@),
    {
        self.allowances.set(&AllowanceKey { owner: *owner, spender: *spender }, amount);
    }

    /// `caller` sets the allowance of `spender` over its own balance to
    /// `amount`; this always succeeds.
    pub fn approve(&mut self, caller: &AccountId, spender: &AccountId, amount: U256)
        requires
            old(self).wf(),
        ensures
            allowance_set(*old(self), *final(self), *caller, *spender, amount@),
    {
        self._approve(caller, spender, amount);
    }

    /// Moves `amount` from `sender`'s balance to `recipient`'s.
    pub fn make_transfer(&mut self, sender: &AccountId, recipient: &AccountId, amount: U256) -> (r:
        Result<(), LedgerError>)
        requires
            old(self).wf(),
        ensures
            r == transfer_outcome(*old(self), *sender, *recipient, amount@),
            r is Err ==> *final(self) == *old(self),
            r is Ok ==> moved(*old(self), *final(self), *sender, *recipient, amount@),
            forall|o: AccountId, s: AccountId|
                final(self).allowance_of(o, s) == old(self).allowance_of(o, s),
    {
        if sender.same(recipient) {
            return Err(LedgerError::InvalidParties);
        }
        if amount.is_zero() {
            return Err(LedgerError::ZeroAmount);
        }
        let sender_balance = self.balances.get(sender);
        let recipient_balance = self.balances.get(recipient);
        let debited = match sender_balance.checked_sub(&amount) {
            Some(v) => v,
            None => return Err(LedgerError::Revert(FailureCode::One)),
        };
        let credited = match recipient_balance.checked_add(&amount) {
            Some(v) => v,
            None => return Err(LedgerError::Revert(FailureCode::Zero)),
        };
        self.balances.set(sender, debited);
        self.balances.set(recipient, credited);
        Ok(())
    }

    /// `caller` moves `amount` of its own balance to `recipient`.
    pub fn transfer(&mut self, caller: &AccountId, recipient: &AccountId, amount: U256) -> (r:
        Result<(), LedgerError>)
        requires
            old(self).wf(),
        ensures
            r == transfer_outcome(*old(self), *caller, *recipient, amount@),
            r is Err ==> *final(self) == *old(self),
            r is Ok ==> moved(*old(self), *final(self), *caller, *recipient, amount@),
            forall|o: AccountId, s: AccountId|
                final(self).allowance_of(o, s) == old(self).allowance_of(o, s),
    {
        self.make_transfer(caller, recipient, amount)
    }

    /// `caller` moves `amount` out of `owner`'s balance into `recipient`'s,
    /// spending that much of the allowance `owner` gave it. Every check is
    /// made before anything is written.
    pub fn transfer_from(
        &mut self,
        caller: &AccountId,
        owner: &AccountId,
        recipient: &AccountId,
        amount: U256,
    ) -> (r: Result<(), LedgerError>)
        requires
            old(self).wf(),
        ensures
            r == transfer_from_outcome(*old(self), *caller, *owner, *recipient, amount@),
            r is Err ==> *final(self) == *old(self),
            r is Ok ==> moved(*old(self), *final(self), *owner, *recipient, amount@),
            r is Ok ==> final(self).allowance_of(*owner, *caller) == old(self).allowance_of(
                *owner,
                *caller,
            ) - amount@,
            r is Ok ==> forall|o: AccountId, s: AccountId|
                !(o == *owner && s == *caller) ==> final(self).allowance_of(o, s)
                    == old(self).allowance_of(o, s),
    {
        let key = AllowanceKey { owner: *owner, spender: *caller };
        let sender_balance = self.balances.get(owner);
        let recipient_balance = self.balances.get(recipient);
        if sender_recipient_invalid(owner, recipient, &amount) || !amount.le(&sender_balance)
            || recipient_balance.checked_add(&amount).is_none() {
            // The transfer itself is refused; it writes nothing and its
            // error is the result.
            return self.make_transfer(owner, recipient, amount);
        }
        let spender_allowance = self.allowances.get(&key);
        let new_allowance = match spender_allowance.checked_sub(&amount) {
            Some(v) => v,
            None => return Err(LedgerError::Revert(FailureCode::One)),
        };
        if !(new_allowance.lt(&spender_allowance) && !owner.same(caller)) {
            return Err(LedgerError::InvalidParties);
        }
        let moved = self.make_transfer(owner, recipient, amount);
        assert(moved is Ok);
        self.allowances.set(&key, new_allowance);
        Ok(())
    }

    /// `caller` raises the allowance of `spender` by `amount`; the new
    /// allowance may not exceed `caller`'s current balance.
    pub fn increase_allowance(&mut self, caller: &AccountId, spender: &AccountId, amount: U256) -> (r:
        Result<(), LedgerError>)
        requires
            old(self).wf(),
        ensures
            r == increase_outcome(*old(self), *caller, *spender, amount@),
            r is Err ==> *final(self) == *old(self),
            r is Ok ==> allowance_set(
                *old(self),
                *final(self),
                *caller,
                *spender,
                old(self).allowance_of(*caller, *spender) + amount@,
            ),
    {
        let spender_allowance = self.allowance(caller, spender);
        let owner_balance = self.balances.get(caller);
        let new_allowance = match spender_allowance.checked_add(&amount) {
            Some(v) => v,
            None => return Err(LedgerError::Revert(FailureCode::Zero)),
        };
        if new_allowance.le(&owner_balance) && !caller.same(spender) {
            self._approve(caller, spender, new_allowance);
            Ok(())
        } else {
            Err(LedgerError::InvalidParties)
        }
    }

    /// `caller` lowers the allowance of `spender` by `amount`, which must
    /// make it strictly smaller.
    pub fn decrease_allowance(&mut self, caller: &AccountId, spender: &AccountId, amount: U256) -> (r:
        Result<(), LedgerError>)
        requires
            old(self).wf(),
        ensures
            r == decrease_outcome(*old(self), *caller, *spender, amount@),
            r is Err ==> *final(self) == *old(self),
            r is Ok ==> allowance_set(
                *old(self),
                *final(self),
                *caller,
                *spender,
                (old(self).allowance_of(*caller, *spender) - amount@) as nat,
            ),
    {
        let spender_allowance = self.allowance(caller, spender);
        let new_allowance = match spender_allowance.checked_sub(&amount) {
            Some(v) => v,
            None => return Err(LedgerError::Revert(FailureCode::One)),
        };
        if new_allowance.lt(&spender_allowance) && !caller.same(spender) {
            self._approve(caller, spender, new_allowance);
            Ok(())
        } else {
            Err(LedgerError::InvalidParties)
        }
    }

    /// `caller` wraps `amount` of native currency from a purse that holds
    /// `available`. On success the caller moves `amount` from that purse
    /// into the reserve; the ledger has credited `caller` with it.
    pub fn deposit(&mut self, caller: &AccountId, amount: U512, available: U512) -> (r: Result<
        (),
        LedgerError,
    >)
        requires
            old(self).wf(),
            amount@ <= u128::MAX,
            available@ <= u128::MAX,
        ensures
            r == deposit_outcome(*old(self), *caller, amount@, available@),
            r is Err ==> *final(self) == *old(self),
            r is Ok ==> credited(*old(self), *final(self), *caller, amount@),
    {
        let amount_u256 = U256::from_u128(amount.as_u128());
        if amount.is_zero() {
            return Err(LedgerError::ZeroAmount);
        }
        if !amount.le(&available) {
            return Err(LedgerError::InsufficientFunds);
        }
        let balance = self.balances.get(caller);
        match balance.checked_add(&amount_u256) {
            Some(v) => {
                self.balances.set(caller, v);
                Ok(())
            },
            None => Err(LedgerError::Revert(FailureCode::Zero)),
        }
    }

    /// `caller` unwraps `amount` while the reserve holds `reserve`. On
    /// success the caller moves `amount` from the reserve to the
    /// destination purse; the ledger has debited `caller` by it.
    pub fn withdraw(&mut self, caller: &AccountId, amount: U512, reserve: U512) -> (r: Result<
        (),
        LedgerError,
    >)
        requires
            old(self).wf(),
            amount@ <= u128::MAX,
        ensures
            r == withdraw_outcome(*old(self), *caller, amount@, reserve@),
            r is Err ==> *final(self) == *old(self),
            r is Ok ==> debited(*old(self), *final(self), *caller, amount@),
    {
        let balance = self.balances.get(caller);
        let amount_u256 = U256::from_u128(amount.as_u128());
        if amount.is_zero() {
            return Err(LedgerError::ZeroAmount);
        }
        if amount_u256.le(&balance) && amount.le(&reserve) {
            proof {
                self.balances.lemma_value_within_total(*caller);
            }
            let rest = balance.checked_sub(&amount_u256);
            assert(rest is Some);
            self.balances.set(caller, rest.unwrap());
            Ok(())
        } else {
            Err(LedgerError::InsufficientFunds)
        }
    }

    /// The token's name.
    pub fn name(&self) -> (r: String)
        ensures
            r == self.meta().name,
    {
        self.meta.name.clone()
    }

    /// The token's symbol.
    pub fn symbol(&self) -> (r: String)
        ensures
            r == self.meta().symbol,
    {
        self.meta.symbol.clone()
    }

    /// The number of decimals the token is shown with.
    pub fn decimals(&self) -> (r: u8)
        ensures
            r == self.meta().decimals,
    {
        self.meta.decimals
    }

    /// The reserve purse that backs the wrapped supply.
    pub fn purse(&self) -> (r: PurseRef)
        ensures
            r == self.meta().purse,
    {
        self.meta.purse
    }

    /// The hash of the contract's package.
    pub fn get_package_hash(&self) -> (r: PackageHash)
        ensures
            r == self.meta().package_hash,
    {
        self.meta.package_hash
    }

    /// The hash of the contract itself.
    pub fn contract_hash(&self) -> (r: AccountId)
        ensures
            r == self.meta().contract_hash,
    {
        self.meta.contract_hash
    }
}

/// Whether a transfer of `amount` from `sender` to `recipient` fails on its
/// parties or its amount alone.
fn sender_recipient_invalid(sender: &AccountId, recipient: &AccountId, amount: &U256) -> (r: bool)
    ensures
        r == (*sender == *recipient || amount@ == 0),
{
    sender.same(recipient) || amount.is_zero()
}

} // verus!
