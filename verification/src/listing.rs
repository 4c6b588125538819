//! The meaning of the member listing: which members a filter keeps, what
//! each returned row holds, and how a result set is cut into pages.
//!
//! The listing joins every member with its salesman's name and with the
//! sums of its consume records, keeps the members that satisfy the
//! filter's row constraints (WHERE) and aggregate constraints (HAVING),
//! and serves one page of the outcome.

use vstd::arithmetic::div_mod::lemma_fundamental_div_mod;
use vstd::prelude::*;

use crate::entity::{ConsumeRecord, Employee, Model};
use crate::member_model::{ListFilter, MemberListItem};
use crate::text::is_substring;

verus! {

/// A member has at least one consume record. With none, the sums of the
/// outer join aggregate nothing and the listed amounts are absent.
pub open spec fn has_records(rs: Seq<ConsumeRecord>, mid: i32) -> bool {
    exists|i: int| 0 <= i < rs.len() && #[trigger] rs[i].member_id == mid
}

/// The sum of the recharge amounts of the member's consume records.
pub open spec fn sum_recharge(rs: Seq<ConsumeRecord>, mid: i32) -> int
    decreases rs.len(),
{
    if rs.len() == 0 {
        0
    } else {
        sum_recharge(rs.drop_last(), mid) + (if rs.last().member_id == mid {
            rs.last().recharge_amount as int
        } else {
            0
        })
    }
}

/// The sum of the consume amounts of the member's consume records.
pub open spec fn sum_consume(rs: Seq<ConsumeRecord>, mid: i32) -> int
    decreases rs.len(),
{
    if rs.len() == 0 {
        0
    } else {
        sum_consume(rs.drop_last(), mid) + (if rs.last().member_id == mid {
            rs.last().consume_amount as int
        } else {
            0
        })
    }
}

/// The name of the first employee with the given id, if the member has a
/// salesman at all.
pub open spec fn employee_name(es: Seq<Employee>, sid: Option<i32>) -> Option<String>
    decreases es.len(),
{
    if sid is None {
        None
    } else if es.len() == 0 {
        None
    } else if es.first().id == sid->0 {
        es.first().name
    } else {
        employee_name(es.drop_first(), sid)
    }
}

/// The row the listing returns for a member: the member's columns, the
/// joined salesman name, and the aggregated sums, absent when the member
/// has no consume records.
pub open spec fn projected(m: Model, es: Seq<Employee>, rs: Seq<ConsumeRecord>) -> MemberListItem {
    MemberListItem {
        id: m.id,
        name: m.name,
        phone: m.phone,
        balance: m.balance,
        code: m.code,
        registration_time: m.registration_time,
        level: m.level,
        salesman_id: m.salesman_id,
        salesman_name: employee_name(es, m.salesman_id),
        recharge_amount: if has_records(rs, m.id) {
            Some(sum_recharge(rs, m.id) as i128)
        } else {
            None
        },
        consume_amount: if has_records(rs, m.id) {
            Some(sum_consume(rs, m.id) as i128)
        } else {
            None
        },
    }
}

/// The filter's row constraints: each present field constrains its
/// column, and a substring pattern rejects a member whose column is
/// absent (as a LIKE over NULL never holds).
pub open spec fn where_ok(f: ListFilter, m: Model) -> bool {
    &&& (f.name is Some ==> m.name is Some && is_substring(f.name->0@, m.name->0@))
    &&& (f.phone is Some ==> m.phone is Some && is_substring(f.phone->0@, m.phone->0@))
    &&& (f.balance_max is Some ==> m.balance <= f.balance_max->0)
    &&& (f.balance_min is Some ==> m.balance >= f.balance_min->0)
}

/// The filter's aggregate constraints: each present bound constrains the
/// member's aggregated sum, and rejects a member with no consume records
/// at all (whose aggregate is absent, and a comparison over an absent
/// aggregate never holds).
pub open spec fn having_ok(f: ListFilter, rs: Seq<ConsumeRecord>, mid: i32) -> bool {
    &&& (f.recharge_max is Some ==> has_records(rs, mid) && sum_recharge(rs, mid)
        <= f.recharge_max->0)
    &&& (f.recharge_min is Some ==> has_records(rs, mid) && sum_recharge(rs, mid)
        >= f.recharge_min->0)
    &&& (f.consume_max is Some ==> has_records(rs, mid) && sum_consume(rs, mid)
        <= f.consume_max->0)
    &&& (f.consume_min is Some ==> has_records(rs, mid) && sum_consume(rs, mid)
        >= f.consume_min->0)
}

/// A member passes the filter: its row constraints and its aggregate
/// constraints both hold.
pub open spec fn filter_matches(f: ListFilter, m: Model, rs: Seq<ConsumeRecord>) -> bool {
    where_ok(f, m) && having_ok(f, rs, m.id)
}

/// The rows of the whole filtered listing, one per passing member, in
/// table order.
pub open spec fn listed(
    ms: Seq<Model>,
    es: Seq<Employee>,
    rs: Seq<ConsumeRecord>,
    f: ListFilter,
) -> Seq<MemberListItem>
    decreases ms.len(),
{
    if ms.len() == 0 {
        Seq::<MemberListItem>::empty()
    } else {
        let prefix = listed(ms.drop_last(), es, rs, f);
        if filter_matches(f, ms.last(), rs) {
            prefix.push(projected(ms.last(), es, rs))
        } else {
            prefix
        }
    }
}

/// How many pages a result set of `total` rows fills at `page_size` rows
/// per page: zero when there are no rows, otherwise the rounded-up
/// quotient.
pub open spec fn num_pages(total: int, page_size: int) -> int {
    if total == 0 {
        0
    } else {
        (total - 1) / page_size + 1
    }
}

/// The rows of the 1-based page `page_num`: the slice of `page_size` rows
/// starting at the zero-based offset `(page_num - 1) * page_size`, cut
/// short at the end of the result set, and empty beyond it.
pub open spec fn page_slice<T>(s: Seq<T>, page_num: int, page_size: int) -> Seq<T> {
    let lo = (page_num - 1) * page_size;
    if lo >= s.len() {
        Seq::<T>::empty()
    } else if lo + page_size <= s.len() {
        s.subrange(lo, lo + page_size)
    } else {
        s.subrange(lo, s.len() as int)
    }
}

/// No optional filter constraint is present.
pub open spec fn no_constraints(f: ListFilter) -> bool {
    &&& f.name is None
    &&& f.phone is None
    &&& f.balance_max is None
    &&& f.balance_min is None
    &&& f.recharge_max is None
    &&& f.recharge_min is None
    &&& f.consume_max is None
    &&& f.consume_min is None
}

/// The sums of a member's records are bounded by the record count times
/// the extreme single amounts.
pub proof fn lemma_sum_bounds(rs: Seq<ConsumeRecord>, mid: i32)
    ensures
        -(rs.len() as int) * 0x8000_0000_0000_0000 <= sum_recharge(rs, mid) <= (
        rs.len() as int) * 0x7fff_ffff_ffff_ffff,
        -(rs.len() as int) * 0x8000_0000_0000_0000 <= sum_consume(rs, mid) <= (
        rs.len() as int) * 0x7fff_ffff_ffff_ffff,
    decreases rs.len(),
{
    if rs.len() == 0 {
    } else {
        lemma_sum_bounds(rs.drop_last(), mid);
        let n = rs.len() as int;
        assert(-(n - 1) * 0x8000_0000_0000_0000 - 0x8000_0000_0000_0000 == -n
            * 0x8000_0000_0000_0000) by (nonlinear_arith);
        assert((n - 1) * 0x7fff_ffff_ffff_ffff + 0x7fff_ffff_ffff_ffff == n
            * 0x7fff_ffff_ffff_ffff) by (nonlinear_arith);
    }
}

/// For a record table a machine can hold, the sums fit the listed
/// aggregate's integer type.
pub proof fn lemma_sum_fits(rs: Seq<ConsumeRecord>, mid: i32)
    requires
        rs.len() <= 0xffff_ffff_ffff_ffff,
    ensures
        i128::MIN <= sum_recharge(rs, mid) <= i128::MAX,
        i128::MIN <= sum_consume(rs, mid) <= i128::MAX,
{
    lemma_sum_bounds(rs, mid);
    let n = rs.len() as int;
    assert(n * 0x7fff_ffff_ffff_ffff <= 0xffff_ffff_ffff_ffff * 0x7fff_ffff_ffff_ffff)
        by (nonlinear_arith)
        requires n <= 0xffff_ffff_ffff_ffff;
    assert(-n * 0x8000_0000_0000_0000 >= -0x1_0000_0000_0000_0000 * 0x8000_0000_0000_0000)
        by (nonlinear_arith)
        requires n <= 0x1_0000_0000_0000_0000;
}

/// With no optional constraint present, the listing keeps every member,
/// in table order, joined and aggregated as always: only pagination
/// limits what a request returns.
pub proof fn lemma_unfiltered_lists_all(
    ms: Seq<Model>,
    es: Seq<Employee>,
    rs: Seq<ConsumeRecord>,
    f: ListFilter,
)
    requires
        no_constraints(f),
    ensures
        listed(ms, es, rs, f) == ms.map_values(|m: Model| projected(m, es, rs)),
    decreases ms.len(),
{
    if ms.len() == 0 {
        assert(listed(ms, es, rs, f) =~= ms.map_values(|m: Model| projected(m, es, rs)));
    } else {
        lemma_unfiltered_lists_all(ms.drop_last(), es, rs, f);
        assert(filter_matches(f, ms.last(), rs));
        assert(ms.map_values(|m: Model| projected(m, es, rs)) =~= ms.drop_last().map_values(
            |m: Model| projected(m, es, rs),
        ).push(projected(ms.last(), es, rs)));
    }
}

/// Every row of the filtered listing satisfies every present constraint:
/// its name and phone contain the requested substrings, its balance lies
/// within the requested inclusive bounds, and its aggregated recharge and
/// consume sums (of the member's whole record set, not of any single
/// record) are present and lie within theirs.
pub proof fn lemma_listed_respects_filter(
    ms: Seq<Model>,
    es: Seq<Employee>,
    rs: Seq<ConsumeRecord>,
    f: ListFilter,
)
    requires
        rs.len() <= 0xffff_ffff_ffff_ffff,
    ensures
        forall|i: int|
            0 <= i < listed(ms, es, rs, f).len() ==> {
                let it = #[trigger] listed(ms, es, rs, f)[i];
                &&& (f.name is Some ==> it.name is Some && is_substring(f.name->0@, it.name->0@))
                &&& (f.phone is Some ==> it.phone is Some && is_substring(
                    f.phone->0@,
                    it.phone->0@,
                ))
                &&& (f.balance_max is Some ==> it.balance <= f.balance_max->0)
                &&& (f.balance_min is Some ==> it.balance >= f.balance_min->0)
                &&& (f.recharge_max is Some ==> it.recharge_amount is Some && it.recharge_amount->0
                    <= f.recharge_max->0 as i128)
                &&& (f.recharge_min is Some ==> it.recharge_amount is Some && it.recharge_amount->0
                    >= f.recharge_min->0 as i128)
                &&& (f.consume_max is Some ==> it.consume_amount is Some && it.consume_amount->0
                    <= f.consume_max->0 as i128)
                &&& (f.consume_min is Some ==> it.consume_amount is Some && it.consume_amount->0
                    >= f.consume_min->0 as i128)
            },
    decreases ms.len(),
{
    if ms.len() == 0 {
    } else {
        lemma_listed_respects_filter(ms.drop_last(), es, rs, f);
        if filter_matches(f, ms.last(), rs) {
            lemma_sum_fits(rs, ms.last().id);
        }
    }
}

/// A page number beyond the last available page yields an empty page, not
/// an error; the page count is untouched by which page was asked for.
pub proof fn lemma_page_beyond_last<T>(s: Seq<T>, page_num: int, page_size: int)
    requires
        page_size >= 1,
        page_num >= 1,
        page_num > num_pages(s.len() as int, page_size),
    ensures
        page_slice(s, page_num, page_size) == Seq::<T>::empty(),
{
    let total = s.len() as int;
    let pages = num_pages(total, page_size);
    assert((page_num - 1) * page_size >= pages * page_size) by (nonlinear_arith)
        requires page_num - 1 >= pages, page_size >= 1;
    if total == 0 {
        assert(pages * page_size >= 0) by (nonlinear_arith)
            requires pages >= 0, page_size >= 1;
    } else {
        lemma_fundamental_div_mod(total - 1, page_size);
        assert(pages * page_size == ((total - 1) / page_size) * page_size + page_size)
            by (nonlinear_arith)
            requires pages == (total - 1) / page_size + 1;
        assert(pages * page_size >= total);
    }
}

/// With no matching rows the page count is zero and every page is empty.
pub proof fn lemma_no_matching_rows<T>(s: Seq<T>, page_num: int, page_size: int)
    requires
        page_size >= 1,
        page_num >= 1,
        s.len() == 0,
    ensures
        num_pages(s.len() as int, page_size) == 0,
        page_slice(s, page_num, page_size) == Seq::<T>::empty(),
{
    assert((page_num - 1) * page_size >= 0) by (nonlinear_arith)
        requires page_num - 1 >= 0, page_size >= 1;
}

} // verus!
