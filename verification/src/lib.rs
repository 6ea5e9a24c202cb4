//! Verified stand-ins for the downstream contracts that a remittance
//! orchestrator talks to: a family wallet that enforces a spending limit,
//! a remittance split, a savings-goals contract, a bill-payments contract
//! and an insurance contract.
//!
//! Each contract's decisions are plain functions over plain values; the
//! stateful contracts carry what they keep in storage as an ordinary field,
//! so that what a call does to that storage is part of its contract.
pub mod bill_payments;
pub mod family_wallet;
pub mod host;
pub mod insurance;
pub mod remittance_split;
pub mod savings_goals;

pub use bill_payments::{BillPaymentError, BillsState, MockBillPayments};
pub use family_wallet::MockFamilyWallet;
pub use insurance::{InsurancePaymentError, MockInsurance};
pub use remittance_split::MockRemittanceSplit;
pub use savings_goals::{MockSavingsGoals, SavingsGoalError, SavingsState};
