//! Administrative backend core: members with balances and recharge/consume
//! history, listed through a dynamic-filter paginated query.
//!
//! The library holds the verified logic: the entity records, the filter
//! model, the parameterized SQL assembly for the member listing (with an
//! allow-list for the sort clause), the pagination arithmetic, and a
//! reference evaluation of the listing over in-memory rows, against which
//! the listing's guarantees are stated and proved.

pub mod entity;
pub mod listing;
pub mod member;
pub mod member_model;
pub mod post;
pub mod query;
pub mod sort;
pub mod text;
