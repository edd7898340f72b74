//! Identifiers of accounts, allowance slots, purses and packages, held as
//! plain values so that the ledger can compare and store them.

use vstd::prelude::*;

verus! {

/// A key that a ledger table can be indexed by: exact equality is
/// decidable in executable code.
pub trait TableKey: Sized {
    fn same(&self, other: &Self) -> (r: bool)
        ensures
            r == (*self == *other),
    ;
}

/// An account or contract that can hold tokens: a kind tag and a 32-byte
/// hash, the hash split into two `u128` halves.
#[derive(Clone, Copy, Debug, PartialEq, Eq, Structural)]
pub struct AccountId {
    pub tag: u8,
    pub hi: u128,
    pub lo: u128,
}

impl TableKey for AccountId {
    fn same(&self, other: &AccountId) -> (r: bool) {
        self.tag == other.tag && self.hi == other.hi && self.lo == other.lo
    }
}

/// The slot of an allowance: what `spender` may move out of `owner`'s
/// balance.
#[derive(Clone, Copy, Debug, PartialEq, Eq, Structural)]
pub struct AllowanceKey {
    pub owner: AccountId,
    pub spender: AccountId,
}

impl TableKey for AllowanceKey {
    fn same(&self, other: &AllowanceKey) -> (r: bool) {
        self.owner.same(&other.owner) && self.spender.same(&other.spender)
    }
}

/// A handle to a purse of native currency: its 32-byte address and its
/// access rights.
#[derive(Clone, Copy, Debug, PartialEq, Eq, Structural)]
pub struct PurseRef {
    pub hi: u128,
    pub lo: u128,
    pub rights: u8,
}

/// The 32-byte hash of a contract package.
#[derive(Clone, Copy, Debug, PartialEq, Eq, Structural)]
pub struct PackageHash {
    pub hi: u128,
    pub lo: u128,
}

} // verus!
