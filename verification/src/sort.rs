//! Ordering the listing by an allowed sort clause.
//!
//! An ascending sort puts rows with an absent aggregate last, a
//! descending one puts them first, as the database's default null
//! placement does.

use vstd::prelude::*;

use crate::member_model::MemberListItem;
use crate::query::OrderBy;

verus! {

/// Absent-aware comparison of two optional aggregates, ascending: a
/// present value precedes an absent one.
pub open spec fn opt_le_asc(a: Option<i128>, b: Option<i128>) -> bool {
    match a {
        None => b is None,
        Some(x) => match b {
            None => true,
            Some(y) => x <= y,
        },
    }
}

/// Absent-aware comparison of two optional aggregates, descending: an
/// absent value precedes a present one.
pub open spec fn opt_le_desc(a: Option<i128>, b: Option<i128>) -> bool {
    match a {
        None => true,
        Some(x) => match b {
            None => false,
            Some(y) => x >= y,
        },
    }
}

/// Row `a` may stand before row `b` under the given sort.
pub open spec fn le_item(o: OrderBy, a: MemberListItem, b: MemberListItem) -> bool {
    match o {
        OrderBy::BalanceAsc => a.balance <= b.balance,
        OrderBy::BalanceDesc => a.balance >= b.balance,
        OrderBy::RechargeAsc => opt_le_asc(a.recharge_amount, b.recharge_amount),
        OrderBy::RechargeDesc => opt_le_desc(a.recharge_amount, b.recharge_amount),
        OrderBy::ConsumeAsc => opt_le_asc(a.consume_amount, b.consume_amount),
        OrderBy::ConsumeDesc => opt_le_desc(a.consume_amount, b.consume_amount),
    }
}

/// The rows stand in the order of the given sort.
pub open spec fn sorted_by(s: Seq<MemberListItem>, o: OrderBy) -> bool {
    forall|i: int, j: int| 0 <= i < j < s.len() ==> le_item(o, s[i], s[j])
}

/// The sort order is total: of any two rows, one may stand first.
pub proof fn lemma_le_total(o: OrderBy, a: MemberListItem, b: MemberListItem)
    ensures
        le_item(o, a, b) || le_item(o, b, a),
{
}

/// The sort order is transitive.
pub proof fn lemma_le_trans(o: OrderBy, a: MemberListItem, b: MemberListItem, c: MemberListItem)
    ensures
        le_item(o, a, b) && le_item(o, b, c) ==> le_item(o, a, c),
{
}

/// Whether row `a` may stand before row `b` under the given sort.
fn le_exec(o: OrderBy, a: &MemberListItem, b: &MemberListItem) -> (r: bool)
    ensures
        r == le_item(o, *a, *b),
{
    match o {
        OrderBy::BalanceAsc => a.balance <= b.balance,
        OrderBy::BalanceDesc => a.balance >= b.balance,
        OrderBy::RechargeAsc => match a.recharge_amount {
            None => b.recharge_amount.is_none(),
            Some(x) => match b.recharge_amount {
                None => true,
                Some(y) => x <= y,
            },
        },
        OrderBy::RechargeDesc => match a.recharge_amount {
            None => true,
            Some(x) => match b.recharge_amount {
                None => false,
                Some(y) => x >= y,
            },
        },
        OrderBy::ConsumeAsc => match a.consume_amount {
            None => b.consume_amount.is_none(),
            Some(x) => match b.consume_amount {
                None => true,
                Some(y) => x <= y,
            },
        },
        OrderBy::ConsumeDesc => match a.consume_amount {
            None => true,
            Some(x) => match b.consume_amount {
                None => false,
                Some(y) => x >= y,
            },
        },
    }
}

/// Reorders the rows into the given sort order; no row is added, dropped
/// or changed.
pub fn sort_items(items: &mut Vec<MemberListItem>, o: OrderBy)
    ensures
        final(items)@.to_multiset() == old(items)@.to_multiset(),
        final(items)@.len() == old(items)@.len(),
        sorted_by(final(items)@, o),
{
    broadcast use vstd::seq_lib::group_to_multiset_ensures;

    let mut out: Vec<MemberListItem> = Vec::new();
    let ghost orig = items@;
    while items.len() > 0
        invariant
            out@.to_multiset().add(items@.to_multiset()) == orig.to_multiset(),
            out@.len() + items@.len() == orig.len(),
            sorted_by(out@, o),
            forall|k: int, j: int|
                0 <= k < out@.len() && 0 <= j < items@.len() ==> le_item(
                    o,
                    #[trigger] out@[k],
                    #[trigger] items@[j],
                ),
        decreases items@.len(),
    {
        // pick a least remaining row
        let mut min_i: usize = 0;
        let mut i: usize = 1;
        while i < items.len()
            invariant
                items@.len() > 0,
                0 <= min_i < items@.len(),
                1 <= i <= items@.len(),
                forall|k: int| 0 <= k < i ==> le_item(o, items@[min_i as int], #[trigger] items@[k]),
            decreases items@.len() - i,
        {
            if !le_exec(o, &items[min_i], &items[i]) {
                proof {
                    lemma_le_total(o, items@[min_i as int], items@[i as int]);
                    assert forall|k: int| 0 <= k < i + 1 implies le_item(
                        o,
                        items@[i as int],
                        #[trigger] items@[k],
                    ) by {
                        lemma_le_trans(o, items@[i as int], items@[min_i as int], items@[k]);
                    }
                }
                min_i = i;
            }
            i += 1;
        }
        let ghost pre = items@;
        let ghost out0 = out@;
        let m = items.remove(min_i);
        out.push(m);
        proof {
            broadcast use vstd::multiset::group_multiset_axioms;

            vstd::seq_lib::to_multiset_remove(pre, min_i as int);
            vstd::seq_lib::to_multiset_build(out0, m);
            vstd::seq_lib::to_multiset_contains(pre, m);
            assert(pre.contains(m));
            assert(pre.to_multiset().count(m) > 0);
            assert(out@.to_multiset().add(items@.to_multiset()) =~= orig.to_multiset());
            assert forall|k: int, j: int|
                0 <= k < out@.len() && 0 <= j < items@.len() implies le_item(
                o,
                #[trigger] out@[k],
                #[trigger] items@[j],
            ) by {
                let jj = if j < min_i {
                    j
                } else {
                    j + 1
                };
                assert(items@[j] == pre[jj]);
                if k < out@.len() - 1 {
                    lemma_le_trans(o, out@[k], m, pre[jj]);
                }
            }
        }
    }
    *items = out;
}

} // verus!
