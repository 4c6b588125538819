//! The member service: the filtered, paginated listing evaluated over the
//! member, employee and consume-record tables, and member creation.

use vstd::prelude::*;
use vstd::string::StringExecFns;

use crate::entity::{ConsumeRecord, Employee, Model};
use crate::listing::{
    employee_name, filter_matches, has_records, lemma_no_matching_rows, lemma_page_beyond_last,
    listed, num_pages, page_slice, projected, sum_consume, sum_recharge,
};
use crate::member_model::{ListError, ListFilter, MemberCreate, MemberListItem, PageResult};
use crate::query::{like_pattern, parse_order, parse_order_str, OrderBy};
use crate::sort::{sort_items, sorted_by};
use crate::text::contains_substring;
use vstd::arithmetic::div_mod::lemma_fundamental_div_mod;

verus! {

/// Relies on chrono::Local::now for the wall-clock time, as seconds since
/// the epoch; nothing is assumed of the value.
#[verifier::external_body]
fn now_timestamp() -> i64 {
    chrono::Local::now().naive_local().and_utc().timestamp()
}

fn clone_opt_string(o: &Option<String>) -> (r: Option<String>)
    ensures
        r == *o,
{
    match o {
        Some(s) => Some(s.clone()),
        None => None,
    }
}

fn clone_item(it: &MemberListItem) -> (r: MemberListItem)
    ensures
        r == *it,
{
    MemberListItem {
        id: it.id,
        name: clone_opt_string(&it.name),
        phone: clone_opt_string(&it.phone),
        balance: it.balance,
        code: it.code.clone(),
        registration_time: it.registration_time,
        level: clone_opt_string(&it.level),
        salesman_id: it.salesman_id,
        salesman_name: clone_opt_string(&it.salesman_name),
        recharge_amount: it.recharge_amount,
        consume_amount: it.consume_amount,
    }
}

/// The name of the first employee with the member's salesman id.
fn employee_name_of(es: &Vec<Employee>, sid: Option<i32>) -> (r: Option<String>)
    ensures
        r == employee_name(es@, sid),
{
    let id = match sid {
        Some(v) => v,
        None => {
            return None;
        },
    };
    let mut i: usize = 0;
    proof {
        assert(es@.skip(0) =~= es@);
    }
    while i < es.len()
        invariant
            0 <= i <= es@.len(),
            sid is Some && sid->0 == id,
            employee_name(es@, sid) == employee_name(es@.skip(i as int), sid),
        decreases es@.len() - i,
    {
        if es[i].id == id {
            proof {
                assert(es@.skip(i as int).first() == es@[i as int]);
            }
            return clone_opt_string(&es[i].name);
        }
        proof {
            assert(es@.skip(i as int).first() == es@[i as int]);
            assert(es@.skip(i as int).drop_first() =~= es@.skip(i + 1 as int));
        }
        i += 1;
    }
    None
}

/// Whether the member has records, and the sums of its recharge and
/// consume amounts.
fn sums_for(rs: &Vec<ConsumeRecord>, mid: i32) -> (r: (bool, i128, i128))
    ensures
        r.0 == has_records(rs@, mid),
        r.1 == sum_recharge(rs@, mid),
        r.2 == sum_consume(rs@, mid),
{
    let n = rs.len();
    let mut has = false;
    let mut rsum: i128 = 0;
    let mut csum: i128 = 0;
    let mut i: usize = 0;
    while i < n
        invariant
            n == rs@.len(),
            0 <= i <= n,
            has == has_records(rs@.subrange(0, i as int), mid),
            rsum == sum_recharge(rs@.subrange(0, i as int), mid),
            csum == sum_consume(rs@.subrange(0, i as int), mid),
            -(i as int) * 0x8000_0000_0000_0000 <= rsum as int <= (i as int)
                * 0x7fff_ffff_ffff_ffff,
            -(i as int) * 0x8000_0000_0000_0000 <= csum as int <= (i as int)
                * 0x7fff_ffff_ffff_ffff,
        decreases n - i,
    {
        proof {
            assert(rs@.subrange(0, i + 1 as int).drop_last() =~= rs@.subrange(0, i as int));
            assert(rs@.subrange(0, i + 1 as int).last() == rs@[i as int]);
            let ii = i as int;
            assert((ii + 1) * 0x7fff_ffff_ffff_ffff == ii * 0x7fff_ffff_ffff_ffff
                + 0x7fff_ffff_ffff_ffff) by (nonlinear_arith);
            assert(-(ii + 1) * 0x8000_0000_0000_0000 == -ii * 0x8000_0000_0000_0000
                - 0x8000_0000_0000_0000) by (nonlinear_arith);
            assert((ii + 1) * 0x7fff_ffff_ffff_ffff <= 0xffff_ffff_ffff_ffff
                * 0x7fff_ffff_ffff_ffff) by (nonlinear_arith)
                requires
                    0 <= ii + 1 <= 0xffff_ffff_ffff_ffff,
            ;
            assert(-(ii + 1) * 0x8000_0000_0000_0000 >= -0x1_0000_0000_0000_0000
                * 0x8000_0000_0000_0000) by (nonlinear_arith)
                requires
                    0 <= ii + 1 <= 0x1_0000_0000_0000_0000,
            ;
        }
        if rs[i].member_id == mid {
            has = true;
            rsum = rsum + rs[i].recharge_amount as i128;
            csum = csum + rs[i].consume_amount as i128;
            proof {
                assert(rs@.subrange(0, i + 1 as int)[i as int].member_id == mid);
            }
        }
        i += 1;
    }
    proof {
        assert(rs@.subrange(0, n as int) =~= rs@);
    }
    (has, rsum, csum)
}

/// The listing row of one member.
fn project_member(m: &Model, employees: &Vec<Employee>, records: &Vec<ConsumeRecord>) -> (r:
    MemberListItem)
    ensures
        r == projected(*m, employees@, records@),
{
    let (has, rsum, csum) = sums_for(records, m.id);
    MemberListItem {
        id: m.id,
        name: clone_opt_string(&m.name),
        phone: clone_opt_string(&m.phone),
        balance: m.balance,
        code: m.code.clone(),
        registration_time: m.registration_time,
        level: clone_opt_string(&m.level),
        salesman_id: m.salesman_id,
        salesman_name: employee_name_of(employees, m.salesman_id),
        recharge_amount: if has {
            Some(rsum)
        } else {
            None
        },
        consume_amount: if has {
            Some(csum)
        } else {
            None
        },
    }
}

/// Whether the member passes every present filter constraint.
fn matches_filter(f: &ListFilter, m: &Model, records: &Vec<ConsumeRecord>) -> (r: bool)
    ensures
        r == filter_matches(*f, *m, records@),
{
    match &f.name {
        Some(pat) => match &m.name {
            Some(n) => {
                if !contains_substring(n.as_str(), pat.as_str()) {
                    return false;
                }
            },
            None => {
                return false;
            },
        },
        None => {},
    }
    match &f.phone {
        Some(pat) => match &m.phone {
            Some(p) => {
                if !contains_substring(p.as_str(), pat.as_str()) {
                    return false;
                }
            },
            None => {
                return false;
            },
        },
        None => {},
    }
    if let Some(v) = f.balance_max {
        if m.balance > v {
            return false;
        }
    }
    if let Some(v) = f.balance_min {
        if m.balance < v {
            return false;
        }
    }
    if f.recharge_max.is_some() || f.recharge_min.is_some() || f.consume_max.is_some()
        || f.consume_min.is_some() {
        let (has, rsum, csum) = sums_for(records, m.id);
        if has == false {
            return false;
        }
        if let Some(v) = f.recharge_max {
            if rsum > v as i128 {
                return false;
            }
        }
        if let Some(v) = f.recharge_min {
            if rsum < v as i128 {
                return false;
            }
        }
        if let Some(v) = f.consume_max {
            if csum > v as i128 {
                return false;
            }
        }
        if let Some(v) = f.consume_min {
            if csum < v as i128 {
                return false;
            }
        }
    }
    true
}

/// The member service.
pub struct MemberService;

impl MemberService {
    /// The LIKE pattern of an optional keyword: the keyword, or nothing,
    /// wrapped in `%` wildcards.
    pub fn like_str(keyword: Option<String>) -> (r: String)
        ensures
            r@ == like_pattern(
                if keyword is Some {
                    keyword->0@
                } else {
                    Seq::<char>::empty()
                },
            ),
    {
        let mut t = "%".to_owned();
        match &keyword {
            Some(k) => t.append(k.as_str()),
            None => (),
        }
        t.append("%");
        t
    }

    /// One page of the filtered member listing.
    ///
    /// The listing joins each member with its salesman's name and its
    /// aggregated recharge and consume sums, keeps the members the filter
    /// accepts, sorts them when an allowed sort clause is present, and
    /// returns the requested 1-based page together with the total page
    /// count. A page number beyond the last page yields an empty page,
    /// not an error. A page number or page size of zero, or a sort clause
    /// outside the allow-list, is rejected.
    pub fn list_in_page(
        members: &Vec<Model>,
        employees: &Vec<Employee>,
        records: &Vec<ConsumeRecord>,
        page_num: u64,
        page_size: u64,
        filter: &ListFilter,
    ) -> (r: Result<PageResult<MemberListItem>, ListError>)
        ensures
            r is Err <==> (page_num == 0 || page_size == 0 || (filter.order is Some
                && parse_order(filter.order->0@) is None)),
            r matches Err(e) ==> e == (if page_num == 0 {
                ListError::PageNumZero
            } else if page_size == 0 {
                ListError::PageSizeZero
            } else {
                ListError::UnknownOrder
            }),
            r matches Ok(p) ==> {
                let items = listed(members@, employees@, records@, *filter);
                &&& p.page_num == page_num
                &&& p.page_size == page_size
                &&& p.pages == num_pages(items.len() as int, page_size as int)
                &&& (filter.order is None ==> p.data@ == page_slice(
                    items,
                    page_num as int,
                    page_size as int,
                ))
                &&& (filter.order is Some ==> (exists|sorted: Seq<MemberListItem>|
                    {
                        &&& #[trigger] sorted_by(sorted, parse_order(filter.order->0@)->0)
                        &&& sorted.to_multiset() == items.to_multiset()
                        &&& sorted.len() == items.len()
                        &&& p.data@ == page_slice(sorted, page_num as int, page_size as int)
                    }))
            },
    {
        if page_num == 0 {
            return Err(ListError::PageNumZero);
        }
        if page_size == 0 {
            return Err(ListError::PageSizeZero);
        }
        let order: Option<OrderBy> = match &filter.order {
            None => None,
            Some(o) => match parse_order_str(o) {
                Some(ob) => Some(ob),
                None => {
                    return Err(ListError::UnknownOrder);
                },
            },
        };

        // evaluate the filter over the joined, aggregated rows
        let mut items: Vec<MemberListItem> = Vec::new();
        let n = members.len();
        let mut i: usize = 0;
        while i < n
            invariant
                n == members@.len(),
                0 <= i <= n,
                items@ == listed(members@.subrange(0, i as int), employees@, records@, *filter),
            decreases n - i,
        {
            proof {
                assert(members@.subrange(0, i + 1 as int).drop_last() =~= members@.subrange(
                    0,
                    i as int,
                ));
                assert(members@.subrange(0, i + 1 as int).last() == members@[i as int]);
            }
            if matches_filter(filter, &members[i], records) {
                items.push(project_member(&members[i], employees, records));
            }
            i += 1;
        }
        proof {
            assert(members@.subrange(0, n as int) =~= members@);
        }
        let ghost unsorted = listed(members@, employees@, records@, *filter);

        // apply the allowed sort, if one was asked for
        if let Some(ob) = order {
            sort_items(&mut items, ob);
        }
        let ghost full = items@;

        // pagination arithmetic
        let total: u64 = items.len() as u64;
        let pages: u64 = if total == 0 {
            0
        } else {
            (total - 1) / page_size + 1
        };
        assert(pages as int == num_pages(full.len() as int, page_size as int));

        let mut data: Vec<MemberListItem> = Vec::new();
        if pages > 0 && page_num - 1 < pages {
            proof {
                let t = total as int;
                let ps = page_size as int;
                lemma_fundamental_div_mod(t - 1, ps);
                vstd::arithmetic::div_mod::lemma_mod_bound(t - 1, ps);
                assert((pages as int - 1) * ps == ps * ((t - 1) / ps)) by (nonlinear_arith)
                    requires
                        pages as int - 1 == (t - 1) / ps,
                ;
                assert(ps * ((t - 1) / ps) <= t - 1);
                assert(0 <= (page_num as int - 1) * ps <= (pages as int - 1) * ps)
                    by (nonlinear_arith)
                    requires
                        0 <= page_num as int - 1 <= pages as int - 1,
                        ps >= 1,
                ;
            }
            let lo: u64 = (page_num - 1) * page_size;
            let take: u64 = if page_size <= total - lo {
                page_size
            } else {
                total - lo
            };
            let mut j: u64 = 0;
            while j < take
                invariant
                    lo + take <= total,
                    total == full.len(),
                    total == items@.len(),
                    items@ == full,
                    data@.len() == j,
                    0 <= j <= take,
                    forall|t: int| 0 <= t < j ==> data@[t] == full[lo as int + t],
                decreases take - j,
            {
                data.push(clone_item(&items[(lo + j) as usize]));
                j += 1;
            }
            proof {
                assert(data@ =~= page_slice(full, page_num as int, page_size as int));
            }
        } else if pages > 0 {
            proof {
                lemma_page_beyond_last::<MemberListItem>(full, page_num as int, page_size as int);
            }
        } else {
            proof {
                lemma_no_matching_rows::<MemberListItem>(full, page_num as int, page_size as int);
            }
        }
        Ok(PageResult { data, pages, page_num, page_size })
    }

    /// Creates a member from the supplied fields: the new row carries a
    /// fresh id no existing row has, a balance of exactly zero, the
    /// registration and creation timestamps of the moment of creation,
    /// and no level, salesman or update time; every existing row stays
    /// untouched. Returns the new id.
    pub fn create(members: &mut Vec<Model>, create_member: MemberCreate) -> (id: i32)
        requires
            forall|i: int|
                0 <= i < old(members)@.len() ==> #[trigger] old(members)@[i].id < i32::MAX,
        ensures
            final(members)@.len() == old(members)@.len() + 1,
            final(members)@.subrange(0, old(members)@.len() as int) == old(members)@,
            final(members)@.last().id == id,
            id >= 1,
            forall|i: int| 0 <= i < old(members)@.len() ==> #[trigger] old(members)@[i].id != id,
            final(members)@.last().balance == 0,
            final(members)@.last().name == create_member.name,
            final(members)@.last().phone == create_member.phone,
            final(members)@.last().code == create_member.code,
            final(members)@.last().level is None,
            final(members)@.last().salesman_id is None,
            final(members)@.last().update_time is None,
            final(members)@.last().registration_time == final(members)@.last().create_time,
    {
        let mut next: i32 = 1;
        let mut i: usize = 0;
        while i < members.len()
            invariant
                members@ == old(members)@,
                0 <= i <= members@.len(),
                1 <= next <= i32::MAX,
                forall|k: int|
                    0 <= k < members@.len() ==> #[trigger] members@[k].id < i32::MAX,
                forall|k: int| 0 <= k < i ==> #[trigger] members@[k].id < next,
            decreases members@.len() - i,
        {
            if members[i].id >= next {
                next = members[i].id + 1;
            }
            i += 1;
        }
        let now = now_timestamp();
        members.push(
            Model {
                id: next,
                name: create_member.name,
                phone: create_member.phone,
                balance: 0,
                code: create_member.code,
                registration_time: now,
                level: None,
                salesman_id: None,
                create_time: now,
                update_time: None,
            },
        );
        proof {
            assert(members@.subrange(0, old(members)@.len() as int) =~= old(members)@);
        }
        next
    }
}

} // verus!
