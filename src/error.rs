//! What a ledger operation reports when it does not succeed.

use vstd::prelude::*;

verus! {

/// The user codes with which a call reverts when 256-bit arithmetic would
/// leave its range.
#[derive(Clone, Copy, Debug, PartialEq, Eq, Structural)]
pub enum FailureCode {
    /// A checked addition overflowed.
    Zero,
    /// A checked subtraction underflowed.
    One,
}

impl FailureCode {
    /// The user error number of the revert.
    pub fn code(&self) -> (r: u16)
        ensures
            r == match self {
                FailureCode::Zero => 0u16,
                FailureCode::One => 1u16,
            },
    {
        match self {
            FailureCode::Zero => 0,
            FailureCode::One => 1,
        }
    }
}

/// The ways an operation can fail. The first three are returned to the
/// caller as error codes; `Revert` is an arithmetic impossibility that
/// aborts the whole call.
#[derive(Clone, Copy, Debug, PartialEq, Eq, Structural)]
pub enum LedgerError {
    /// The source holds less than the amount asked for.
    InsufficientFunds,
    /// Sender and recipient (or owner and spender) coincide, or an
    /// allowance check after the move failed.
    InvalidParties,
    /// The amount is zero.
    ZeroAmount,
    /// Checked arithmetic failed; the call aborts with this user code.
    Revert(FailureCode),
}

/// The offset of user error numbers among the host's error numbers.
pub const USER_ERROR_BASE: u32 = 65536;

impl LedgerError {
    /// The number the host reports: the returned code, or for a revert the
    /// host's number for the user error.
    pub fn code(&self) -> (r: u32)
        ensures
            r == match self {
                LedgerError::InsufficientFunds => 2u32,
                LedgerError::InvalidParties => 4u32,
                LedgerError::ZeroAmount => 5u32,
                LedgerError::Revert(FailureCode::Zero) => USER_ERROR_BASE,
                LedgerError::Revert(FailureCode::One) => (USER_ERROR_BASE + 1) as u32,
            },
    {
        match self {
            LedgerError::InsufficientFunds => 2,
            LedgerError::InvalidParties => 4,
            LedgerError::ZeroAmount => 5,
            LedgerError::Revert(c) => USER_ERROR_BASE + c.code() as u32,
        }
    }

    /// Whether the error aborts the call rather than being returned.
    pub fn is_revert(&self) -> (r: bool)
        ensures
            r == (self is Revert),
    {
        match self {
            LedgerError::Revert(_) => true,
            _ => false,
        }
    }
}

} // verus!
