//! A wrapped-native-currency token ledger: balances, allowances, and the
//! deposit/withdraw bridge to a native-currency reserve, with every
//! operation stated and proved against a mathematical model.

pub mod uint;
pub mod account;
pub mod table;
pub mod error;
pub mod wcspr;
pub mod laws;
