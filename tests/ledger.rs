use wcspr::account::{AccountId, PackageHash, PurseRef};
use wcspr::error::{FailureCode, LedgerError};
use wcspr::uint::{U256, U512};
use wcspr::wcspr::WCSPR;

fn account(n: u128) -> AccountId {
    AccountId { tag: 0, hi: 0, lo: n }
}

fn qty(n: u128) -> U256 {
    U256::from_u128(n)
}

fn motes(n: u128) -> U512 {
    U512::from_u128(n)
}

fn fresh() -> WCSPR {
    WCSPR::init(
        String::from("Wrapped CSPR"),
        String::from("WCSPR"),
        9,
        AccountId { tag: 1, hi: 7, lo: 7 },
        PackageHash { hi: 8, lo: 8 },
        PurseRef { hi: 9, lo: 9, rights: 7 },
    )
}

/// A ledger in which `a` holds `n`, put there by a deposit.
fn funded(a: &AccountId, n: u128) -> WCSPR {
    let mut w = fresh();
    if n > 0 {
        assert_eq!(w.deposit(a, motes(n), motes(n)), Ok(()));
    }
    w
}

fn max256() -> U256 {
    U256 { hi: u128::MAX, lo: u128::MAX }
}

#[test]
fn transfer_moves_thirty() {
    let (a, b) = (account(1), account(2));
    let mut w = funded(&a, 100);
    assert_eq!(w.transfer(&a, &b, qty(30)), Ok(()));
    assert_eq!(w.balance_of(&a), qty(70));
    assert_eq!(w.balance_of(&b), qty(30));
}

#[test]
fn transfer_beyond_balance_reverts() {
    let (a, b) = (account(1), account(2));
    let mut w = funded(&a, 10);
    let r = w.transfer(&a, &b, qty(30));
    assert_eq!(r, Err(LedgerError::Revert(FailureCode::One)));
    assert!(r.unwrap_err().is_revert());
    assert_eq!(w.balance_of(&a), qty(10));
    assert_eq!(w.balance_of(&b), qty(0));
}

#[test]
fn increase_allowance_capped_by_balance() {
    let (a, b) = (account(1), account(2));
    let mut w = funded(&a, 40);
    w.approve(&a, &b, qty(50));
    assert_eq!(w.increase_allowance(&a, &b, qty(5)), Err(LedgerError::InvalidParties));
    assert_eq!(w.allowance(&a, &b), qty(50));
}

#[test]
fn deposit_then_withdraw_moves_reserve() {
    let caller = account(1);
    let mut w = fresh();
    let mut reserve: u128 = 1000;
    let mut source: u128 = 500;
    let mut external: u128 = 0;
    assert_eq!(w.deposit(&caller, motes(200), motes(source)), Ok(()));
    source -= 200;
    reserve += 200;
    assert_eq!(w.balance_of(&caller), qty(200));
    assert_eq!((source, reserve), (300, 1200));
    assert_eq!(w.withdraw(&caller, motes(150), motes(reserve)), Ok(()));
    reserve -= 150;
    external += 150;
    assert_eq!(w.balance_of(&caller), qty(50));
    assert_eq!((reserve, external), (1050, 150));
}

#[test]
fn transfers_keep_total_supply() {
    let (a, b, c) = (account(1), account(2), account(3));
    let mut w = funded(&a, 100);
    assert_eq!(w.transfer(&a, &b, qty(40)), Ok(()));
    assert_eq!(w.transfer(&b, &c, qty(15)), Ok(()));
    w.approve(&a, &c, qty(20));
    assert_eq!(w.transfer_from(&c, &a, &b, qty(20)), Ok(()));
    let total = w.balance_of(&a).lo + w.balance_of(&b).lo + w.balance_of(&c).lo;
    assert_eq!(total, 100);
    assert_eq!(w.balance_of(&a), qty(40));
    assert_eq!(w.allowance(&a, &c), qty(0));
}

#[test]
fn reserve_covers_supply_after_bridge_calls() {
    let (a, b) = (account(1), account(2));
    let mut w = fresh();
    let mut reserve: u128 = 0;
    assert_eq!(w.deposit(&a, motes(70), motes(70)), Ok(()));
    reserve += 70;
    assert_eq!(w.deposit(&b, motes(30), motes(80)), Ok(()));
    reserve += 30;
    assert_eq!(w.withdraw(&a, motes(50), motes(reserve)), Ok(()));
    reserve -= 50;
    assert_eq!(w.withdraw(&b, motes(31), motes(reserve)), Err(LedgerError::InsufficientFunds));
    let supply = w.balance_of(&a).lo + w.balance_of(&b).lo;
    assert!(supply <= reserve);
    assert_eq!(supply, 50);
}

#[test]
fn withdraw_refused_when_reserve_short() {
    let a = account(1);
    let mut w = funded(&a, 100);
    assert_eq!(w.withdraw(&a, motes(60), motes(59)), Err(LedgerError::InsufficientFunds));
    assert_eq!(w.balance_of(&a), qty(100));
}

#[test]
fn self_transfer_rejected() {
    let a = account(1);
    let mut w = funded(&a, 100);
    let r = w.transfer(&a, &a, qty(10));
    assert_eq!(r, Err(LedgerError::InvalidParties));
    assert_eq!(r.unwrap_err().code(), 4);
    assert_eq!(w.balance_of(&a), qty(100));
}

#[test]
fn zero_amounts_rejected() {
    let (a, b) = (account(1), account(2));
    let mut w = funded(&a, 100);
    let r = w.transfer(&a, &b, qty(0));
    assert_eq!(r, Err(LedgerError::ZeroAmount));
    assert_eq!(r.unwrap_err().code(), 5);
    assert_eq!(w.deposit(&a, motes(0), motes(100)), Err(LedgerError::ZeroAmount));
    assert_eq!(w.withdraw(&a, motes(0), motes(100)), Err(LedgerError::ZeroAmount));
    assert_eq!(w.balance_of(&a), qty(100));
    assert_eq!(w.balance_of(&b), qty(0));
}

#[test]
fn decrease_by_zero_rejected() {
    let (a, b) = (account(1), account(2));
    let mut w = fresh();
    w.approve(&a, &b, qty(10));
    assert_eq!(w.decrease_allowance(&a, &b, qty(0)), Err(LedgerError::InvalidParties));
    assert_eq!(w.allowance(&a, &b), qty(10));
    assert_eq!(w.decrease_allowance(&a, &b, qty(4)), Ok(()));
    assert_eq!(w.allowance(&a, &b), qty(6));
}

#[test]
fn decrease_below_zero_reverts() {
    let (a, b) = (account(1), account(2));
    let mut w = fresh();
    w.approve(&a, &b, qty(3));
    let r = w.decrease_allowance(&a, &b, qty(4));
    assert_eq!(r, Err(LedgerError::Revert(FailureCode::One)));
    assert_eq!(r.unwrap_err().code(), 65537);
    assert_eq!(w.allowance(&a, &b), qty(3));
}

#[test]
fn self_allowance_rejected() {
    let a = account(1);
    let mut w = funded(&a, 100);
    assert_eq!(w.increase_allowance(&a, &a, qty(5)), Err(LedgerError::InvalidParties));
    w.approve(&a, &a, qty(5));
    assert_eq!(w.decrease_allowance(&a, &a, qty(1)), Err(LedgerError::InvalidParties));
    assert_eq!(w.allowance(&a, &a), qty(5));
}

#[test]
fn increase_allowance_overflow_reverts() {
    let (a, b) = (account(1), account(2));
    let mut w = fresh();
    w.approve(&a, &b, max256());
    let r = w.increase_allowance(&a, &b, qty(1));
    assert_eq!(r, Err(LedgerError::Revert(FailureCode::Zero)));
    assert_eq!(r.unwrap_err().code(), 65536);
}

#[test]
fn transfer_from_spends_allowance() {
    let (owner, spender, to) = (account(1), account(2), account(3));
    let mut w = funded(&owner, 100);
    w.approve(&owner, &spender, qty(50));
    assert_eq!(w.transfer_from(&spender, &owner, &to, qty(30)), Ok(()));
    assert_eq!(w.balance_of(&owner), qty(70));
    assert_eq!(w.balance_of(&to), qty(30));
    assert_eq!(w.allowance(&owner, &spender), qty(20));
}

#[test]
fn transfer_from_without_allowance_changes_nothing() {
    let (owner, spender, to) = (account(1), account(2), account(3));
    let mut w = funded(&owner, 100);
    w.approve(&owner, &spender, qty(10));
    let r = w.transfer_from(&spender, &owner, &to, qty(30));
    assert_eq!(r, Err(LedgerError::Revert(FailureCode::One)));
    assert_eq!(w.balance_of(&owner), qty(100));
    assert_eq!(w.balance_of(&to), qty(0));
    assert_eq!(w.allowance(&owner, &spender), qty(10));
}

#[test]
fn transfer_from_by_owner_rejected() {
    let (owner, to) = (account(1), account(3));
    let mut w = funded(&owner, 100);
    w.approve(&owner, &owner, qty(50));
    assert_eq!(w.transfer_from(&owner, &owner, &to, qty(30)), Err(LedgerError::InvalidParties));
    assert_eq!(w.balance_of(&owner), qty(100));
    assert_eq!(w.allowance(&owner, &owner), qty(50));
}

#[test]
fn transfer_from_propagates_transfer_error() {
    let (owner, spender) = (account(1), account(2));
    let mut w = funded(&owner, 100);
    w.approve(&owner, &spender, qty(50));
    assert_eq!(w.transfer_from(&spender, &owner, &owner, qty(5)), Err(LedgerError::InvalidParties));
    assert_eq!(w.transfer_from(&spender, &owner, &spender, qty(0)), Err(LedgerError::ZeroAmount));
    assert_eq!(w.allowance(&owner, &spender), qty(50));
}

#[test]
fn deposit_short_purse_rejected() {
    let a = account(1);
    let mut w = fresh();
    let r = w.deposit(&a, motes(200), motes(199));
    assert_eq!(r, Err(LedgerError::InsufficientFunds));
    assert_eq!(r.unwrap_err().code(), 2);
    assert_eq!(w.balance_of(&a), qty(0));
}

#[test]
fn deposits_carry_into_high_limb() {
    let (a, b) = (account(1), account(2));
    let mut w = fresh();
    let big = u128::MAX;
    for _ in 0..3 {
        assert_eq!(w.deposit(&a, motes(big), motes(big)), Ok(()));
    }
    assert_eq!(w.balance_of(&a), U256 { hi: 2, lo: u128::MAX - 2 });
    assert_eq!(w.transfer(&a, &b, qty(1)), Ok(()));
    assert_eq!(w.balance_of(&b), qty(1));
}

#[test]
fn checked_add_at_the_top() {
    let mut x = max256();
    let y = qty(1);
    assert_eq!(x.checked_add(&y), None);
    x.lo -= 1;
    assert_eq!(x.checked_add(&y), Some(max256()));
}

#[test]
fn wide_arithmetic_carries_and_borrows() {
    let a = U256 { hi: 0, lo: u128::MAX };
    let one = qty(1);
    let sum = a.checked_add(&one).unwrap();
    assert_eq!(sum, U256 { hi: 1, lo: 0 });
    assert_eq!(sum.checked_sub(&one), Some(a));
    assert_eq!(one.checked_sub(&sum), None);
    assert!(a.lt(&sum));
    assert!(!sum.le(&a));
    assert!(qty(0).is_zero());
    let big = U512 { hi: U256::from_u128(1), lo: U256::zero() };
    assert!(motes(u128::MAX).le(&big));
    assert!(!big.le(&motes(5)));
    assert_eq!(motes(42).as_u128(), 42);
}

#[test]
fn metadata_is_kept() {
    let w = fresh();
    assert_eq!(w.name(), "Wrapped CSPR");
    assert_eq!(w.symbol(), "WCSPR");
    assert_eq!(w.decimals(), 9);
    assert_eq!(w.purse(), PurseRef { hi: 9, lo: 9, rights: 7 });
    assert_eq!(w.get_package_hash(), PackageHash { hi: 8, lo: 8 });
    assert_eq!(w.contract_hash(), AccountId { tag: 1, hi: 7, lo: 7 });
}

#[test]
fn accounts_differ_by_tag() {
    let a = AccountId { tag: 0, hi: 5, lo: 5 };
    let b = AccountId { tag: 1, hi: 5, lo: 5 };
    let mut w = funded(&a, 10);
    assert_eq!(w.transfer(&a, &b, qty(4)), Ok(()));
    assert_eq!(w.balance_of(&b), qty(4));
    assert_eq!(w.balance_of(&a), qty(6));
}
