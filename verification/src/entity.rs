//! Persistent records: the member table and the two tables the listing
//! joins against (employees and consume records).
//!
//! Monetary amounts are fixed-point decimals stored as integer counts of
//! the smallest currency unit; timestamps are seconds since the epoch.

use vstd::prelude::*;

verus! {

/// A member row: a customer account with a monetary balance.
///
/// `id` is immutable once assigned; `balance` is exactly zero for a
/// freshly created member.
#[derive(Debug, Clone, PartialEq)]
pub struct Model {
    pub id: i32,
    pub name: Option<String>,
    pub phone: Option<String>,
    pub balance: i64,
    pub code: String,
    pub registration_time: i64,
    pub level: Option<String>,
    pub salesman_id: Option<i32>,
    pub create_time: i64,
    pub update_time: Option<i64>,
}

/// An employee row; a member may reference at most one employee as its
/// salesman.
#[derive(Debug, Clone, PartialEq)]
pub struct Employee {
    pub id: i32,
    pub name: Option<String>,
}

/// A ledger entry attributing a recharge and/or consume amount to a member.
/// Several records may exist per member; the listing aggregates them by SUM.
#[derive(Debug, Clone, PartialEq)]
pub struct ConsumeRecord {
    pub member_id: i32,
    pub recharge_amount: i64,
    pub consume_amount: i64,
}

} // verus!
