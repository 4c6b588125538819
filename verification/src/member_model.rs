//! Request-scoped values of the member listing: the optional filter, the
//! row projection the query returns, and the generic page envelope.

use vstd::prelude::*;

verus! {

/// The optional constraints a caller may apply to a member listing.
/// Every field is independently optional; absence means "no constraint
/// on this dimension".
///
/// `name` and `phone` are substring patterns; the six numeric fields are
/// inclusive bounds (`balance_*` on the member's balance, `recharge_*`
/// and `consume_*` on the per-member aggregated sums); `order` names a
/// sort clause, validated against an allow-list of sortable columns.
#[derive(Debug, Clone)]
pub struct ListFilter {
    pub name: Option<String>,
    pub phone: Option<String>,
    pub balance_max: Option<i64>,
    pub balance_min: Option<i64>,
    pub recharge_max: Option<i64>,
    pub recharge_min: Option<i64>,
    pub consume_max: Option<i64>,
    pub consume_min: Option<i64>,
    pub order: Option<String>,
}

/// One row of the member listing: all member columns, the joined salesman
/// name, and the per-member sums of recharge and consume amounts
/// (absent when the member has no consume records at all).
#[derive(Debug, Clone, PartialEq)]
pub struct MemberListItem {
    pub id: i32,
    pub name: Option<String>,
    pub phone: Option<String>,
    pub balance: i64,
    pub code: String,
    pub registration_time: i64,
    pub level: Option<String>,
    pub salesman_id: Option<i32>,
    pub salesman_name: Option<String>,
    pub recharge_amount: Option<i128>,
    pub consume_amount: Option<i128>,
}

/// A page of a filtered result set: the rows of the requested page, the
/// echoed page number and size, and the total page count.
#[derive(Debug, Clone, PartialEq)]
pub struct PageResult<T> {
    pub data: Vec<T>,
    pub pages: u64,
    pub page_num: u64,
    pub page_size: u64,
}

/// Why a listing request was rejected before any row was considered.
#[derive(Debug, Clone, Copy, PartialEq, Eq, Structural)]
pub enum ListError {
    /// The page number was zero; pages are counted from one.
    PageNumZero,
    /// The page size was zero; a page holds at least one row.
    PageSizeZero,
    /// The sort clause named no entry of the allow-list of sortable columns.
    UnknownOrder,
}

/// The fields a caller supplies when creating a member: only `code` is
/// required.
#[derive(Debug, Clone)]
pub struct MemberCreate {
    pub name: Option<String>,
    pub phone: Option<String>,
    pub code: String,
}

} // verus!
