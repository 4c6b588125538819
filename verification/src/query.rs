//! Assembly of the parameterized member-listing statement.
//!
//! The statement is built from a fixed base query plus conditional WHERE,
//! GROUP BY, HAVING and ORDER BY parts. Every user-supplied value is bound
//! through a positional parameter (`$1`, `$2`, ...), never interpolated
//! into the statement text; the sort clause is mapped through an explicit
//! allow-list of sortable columns and is rejected otherwise.
//!
//! The specification functions build the statement text and the parameter
//! list the same way the code does: clause by clause, each present filter
//! field contributing one predicate and one bound value.

use vstd::prelude::*;
use vstd::string::StringExecFns;

use crate::member_model::{ListError, ListFilter};

verus! {

/// A value bound to a positional parameter of the statement.
#[derive(Debug, Clone)]
pub enum SqlParam {
    Text(String),
    Int(i64),
}

/// The mathematical value of a bound parameter.
pub enum ParamVal {
    Text(Seq<char>),
    Int(int),
}

impl View for SqlParam {
    type V = ParamVal;

    open spec fn view(&self) -> ParamVal {
        match self {
            SqlParam::Text(s) => ParamVal::Text(s@),
            SqlParam::Int(n) => ParamVal::Int(*n as int),
        }
    }
}

/// A sort accepted by the allow-list: a sortable column and a direction.
#[derive(Debug, Clone, Copy, PartialEq, Eq, Structural)]
pub enum OrderBy {
    BalanceAsc,
    BalanceDesc,
    RechargeAsc,
    RechargeDesc,
    ConsumeAsc,
    ConsumeDesc,
}

/// A fully assembled listing statement: the SQL text and the values of its
/// positional parameters, in placeholder order.
#[derive(Debug, Clone)]
pub struct ListQuery {
    pub sql: String,
    pub params: Vec<SqlParam>,
}

/// The fixed base query: all member columns, the joined salesman name, and
/// the per-member sums over the consume records, with left outer joins so
/// that members without a salesman or without records are still included.
pub open spec fn base_sql() -> Seq<char> {
    "SELECT M.*, E.name AS \"salesman_name\", SUM(CR.recharge_amount) AS \"recharge_amount\", SUM(CR.consume_amount) AS \"consume_amount\" FROM \"member\" M LEFT JOIN \"employee\" AS E ON M.salesman_id = E.id LEFT JOIN \"consume_record\" AS CR ON M.id = CR.member_id"@
}

pub open spec fn b2i(b: bool) -> int {
    if b {
        1
    } else {
        0
    }
}

/// The text of the placeholder with the given 1-based position.
pub open spec fn ph(i: int) -> Seq<char> {
    if i == 1 {
        "$1"@
    } else if i == 2 {
        "$2"@
    } else if i == 3 {
        "$3"@
    } else if i == 4 {
        "$4"@
    } else if i == 5 {
        "$5"@
    } else if i == 6 {
        "$6"@
    } else if i == 7 {
        "$7"@
    } else {
        "$8"@
    }
}

/// How many WHERE predicates the filter contributes.
pub open spec fn where_count(f: ListFilter) -> int {
    b2i(f.name is Some) + b2i(f.phone is Some) + b2i(f.balance_max is Some) + b2i(
        f.balance_min is Some,
    )
}

/// How many HAVING predicates the filter contributes.
pub open spec fn having_count(f: ListFilter) -> int {
    b2i(f.recharge_max is Some) + b2i(f.recharge_min is Some) + b2i(f.consume_max is Some) + b2i(
        f.consume_min is Some,
    )
}

/// The statement text after the WHERE clause of the filter: one predicate
/// per present field, in the fixed order name, phone, balance_max,
/// balance_min, joined by AND and bound to the placeholders `$1` onward;
/// nothing is appended when no such field is present.
pub open spec fn where_sql(s: Seq<char>, f: ListFilter) -> Seq<char> {
    if where_count(f) == 0 {
        s
    } else {
        let s0 = s + " WHERE "@;
        let s1 = if f.name is Some {
            s0 + "M.name LIKE "@ + ph(1)
        } else {
            s0
        };
        let s2 = if f.phone is Some {
            (if f.name is Some {
                s1 + " AND "@
            } else {
                s1
            }) + "M.phone LIKE "@ + ph(1 + b2i(f.name is Some))
        } else {
            s1
        };
        let s3 = if f.balance_max is Some {
            (if f.name is Some || f.phone is Some {
                s2 + " AND "@
            } else {
                s2
            }) + "M.balance <= "@ + ph(1 + b2i(f.name is Some) + b2i(f.phone is Some))
        } else {
            s2
        };
        let s4 = if f.balance_min is Some {
            (if f.name is Some || f.phone is Some || f.balance_max is Some {
                s3 + " AND "@
            } else {
                s3
            }) + "M.balance >= "@ + ph(
                1 + b2i(f.name is Some) + b2i(f.phone is Some) + b2i(f.balance_max is Some),
            )
        } else {
            s3
        };
        s4
    }
}

/// The statement text after the HAVING clause of the filter: one predicate
/// per present aggregate bound, in the fixed order recharge_max,
/// recharge_min, consume_max, consume_min, joined by AND; placeholder
/// numbering continues after the WHERE parameters. Nothing is appended
/// when no such field is present.
pub open spec fn having_sql(s: Seq<char>, f: ListFilter) -> Seq<char> {
    if having_count(f) == 0 {
        s
    } else {
        let base = 1 + where_count(f);
        let s0 = s + " HAVING "@;
        let s1 = if f.recharge_max is Some {
            s0 + "SUM(CR.recharge_amount) <= "@ + ph(base)
        } else {
            s0
        };
        let s2 = if f.recharge_min is Some {
            (if f.recharge_max is Some {
                s1 + " AND "@
            } else {
                s1
            }) + "SUM(CR.recharge_amount) >= "@ + ph(base + b2i(f.recharge_max is Some))
        } else {
            s1
        };
        let s3 = if f.consume_max is Some {
            (if f.recharge_max is Some || f.recharge_min is Some {
                s2 + " AND "@
            } else {
                s2
            }) + "SUM(CR.consume_amount) <= "@ + ph(
                base + b2i(f.recharge_max is Some) + b2i(f.recharge_min is Some),
            )
        } else {
            s2
        };
        let s4 = if f.consume_min is Some {
            (if f.recharge_max is Some || f.recharge_min is Some || f.consume_max is Some {
                s3 + " AND "@
            } else {
                s3
            }) + "SUM(CR.consume_amount) >= "@ + ph(
                base + b2i(f.recharge_max is Some) + b2i(f.recharge_min is Some) + b2i(
                    f.consume_max is Some,
                ),
            )
        } else {
            s3
        };
        s4
    }
}

/// The allow-list of sort clauses: the exact request strings that name a
/// sortable column and a direction. Anything else is rejected.
pub open spec fn parse_order(s: Seq<char>) -> Option<OrderBy> {
    if s == "balance asc"@ {
        Some(OrderBy::BalanceAsc)
    } else if s == "balance desc"@ {
        Some(OrderBy::BalanceDesc)
    } else if s == "recharge_amount asc"@ {
        Some(OrderBy::RechargeAsc)
    } else if s == "recharge_amount desc"@ {
        Some(OrderBy::RechargeDesc)
    } else if s == "consume_amount asc"@ {
        Some(OrderBy::ConsumeAsc)
    } else if s == "consume_amount desc"@ {
        Some(OrderBy::ConsumeDesc)
    } else {
        None
    }
}

/// The ORDER BY clause of each allowed sort.
pub open spec fn order_sql(o: OrderBy) -> Seq<char> {
    match o {
        OrderBy::BalanceAsc => " ORDER BY M.balance ASC"@,
        OrderBy::BalanceDesc => " ORDER BY M.balance DESC"@,
        OrderBy::RechargeAsc => " ORDER BY recharge_amount ASC"@,
        OrderBy::RechargeDesc => " ORDER BY recharge_amount DESC"@,
        OrderBy::ConsumeAsc => " ORDER BY consume_amount ASC"@,
        OrderBy::ConsumeDesc => " ORDER BY consume_amount DESC"@,
    }
}

/// The full statement text of a filter whose sort clause, if present, is
/// in the allow-list: the base query, the WHERE clause, the fixed GROUP BY
/// over the member id and the salesman name, the HAVING clause, and the
/// allowed ORDER BY clause.
pub open spec fn list_sql(f: ListFilter) -> Seq<char> {
    let grouped = having_sql(where_sql(base_sql(), f) + " GROUP BY M.id, E.name"@, f);
    match f.order {
        Some(o) => match parse_order(o@) {
            Some(ob) => grouped + order_sql(ob),
            None => grouped,
        },
        None => grouped,
    }
}

/// The LIKE pattern that matches any text containing the given one.
pub open spec fn like_pattern(s: Seq<char>) -> Seq<char> {
    "%"@ + s + "%"@
}

/// The parameter values after those of the WHERE clause: one `%`-wrapped
/// text pattern per present substring field, then one numeric value per
/// present balance bound, in placeholder order.
pub open spec fn where_params(p: Seq<ParamVal>, f: ListFilter) -> Seq<ParamVal> {
    let p1 = if f.name is Some {
        p.push(ParamVal::Text(like_pattern(f.name->0@)))
    } else {
        p
    };
    let p2 = if f.phone is Some {
        p1.push(ParamVal::Text(like_pattern(f.phone->0@)))
    } else {
        p1
    };
    let p3 = if f.balance_max is Some {
        p2.push(ParamVal::Int(f.balance_max->0 as int))
    } else {
        p2
    };
    let p4 = if f.balance_min is Some {
        p3.push(ParamVal::Int(f.balance_min->0 as int))
    } else {
        p3
    };
    p4
}

/// The parameter values after those of the HAVING clause: one numeric
/// value per present aggregate bound, in placeholder order.
pub open spec fn having_params(p: Seq<ParamVal>, f: ListFilter) -> Seq<ParamVal> {
    let p1 = if f.recharge_max is Some {
        p.push(ParamVal::Int(f.recharge_max->0 as int))
    } else {
        p
    };
    let p2 = if f.recharge_min is Some {
        p1.push(ParamVal::Int(f.recharge_min->0 as int))
    } else {
        p1
    };
    let p3 = if f.consume_max is Some {
        p2.push(ParamVal::Int(f.consume_max->0 as int))
    } else {
        p2
    };
    let p4 = if f.consume_min is Some {
        p3.push(ParamVal::Int(f.consume_min->0 as int))
    } else {
        p3
    };
    p4
}

/// All parameter values of the statement, in placeholder order.
pub open spec fn list_params(f: ListFilter) -> Seq<ParamVal> {
    having_params(where_params(Seq::<ParamVal>::empty(), f), f)
}

pub open spec fn param_views(ps: Seq<SqlParam>) -> Seq<ParamVal> {
    ps.map_values(|p: SqlParam| p@)
}

/// Pushing a parameter appends its value to the parameter views.
pub broadcast proof fn lemma_param_views_push(ps: Seq<SqlParam>, p: SqlParam)
    ensures
        #[trigger] param_views(ps.push(p)) == param_views(ps).push(p@),
{
    assert(param_views(ps.push(p)) =~= param_views(ps).push(p@));
}

/// The parameter views of an empty parameter list are empty.
pub broadcast proof fn lemma_param_views_empty(ps: Seq<SqlParam>)
    requires
        ps.len() == 0,
    ensures
        #[trigger] param_views(ps) == Seq::<ParamVal>::empty(),
{
    assert(param_views(ps) =~= Seq::<ParamVal>::empty());
}

/// The text of the placeholder with the given 1-based position.
fn placeholder(i: usize) -> (r: &'static str)
    requires
        1 <= i <= 8,
    ensures
        r@ == ph(i as int),
{
    match i {
        1 => "$1",
        2 => "$2",
        3 => "$3",
        4 => "$4",
        5 => "$5",
        6 => "$6",
        7 => "$7",
        _ => "$8",
    }
}

/// The LIKE pattern that matches any text containing `s`.
fn like_string(s: &String) -> (r: String)
    ensures
        r@ == like_pattern(s@),
{
    let mut t = "%".to_owned();
    t.append(s.as_str());
    t.append("%");
    t
}

/// Maps a requested sort clause through the allow-list.
pub fn parse_order_str(s: &String) -> (r: Option<OrderBy>)
    ensures
        r == parse_order(s@),
{
    if *s == "balance asc".to_owned() {
        Some(OrderBy::BalanceAsc)
    } else if *s == "balance desc".to_owned() {
        Some(OrderBy::BalanceDesc)
    } else if *s == "recharge_amount asc".to_owned() {
        Some(OrderBy::RechargeAsc)
    } else if *s == "recharge_amount desc".to_owned() {
        Some(OrderBy::RechargeDesc)
    } else if *s == "consume_amount asc".to_owned() {
        Some(OrderBy::ConsumeAsc)
    } else if *s == "consume_amount desc".to_owned() {
        Some(OrderBy::ConsumeDesc)
    } else {
        None
    }
}

/// The ORDER BY clause of an allowed sort.
fn order_clause_str(o: OrderBy) -> (r: &'static str)
    ensures
        r@ == order_sql(o),
{
    match o {
        OrderBy::BalanceAsc => " ORDER BY M.balance ASC",
        OrderBy::BalanceDesc => " ORDER BY M.balance DESC",
        OrderBy::RechargeAsc => " ORDER BY recharge_amount ASC",
        OrderBy::RechargeDesc => " ORDER BY recharge_amount DESC",
        OrderBy::ConsumeAsc => " ORDER BY consume_amount ASC",
        OrderBy::ConsumeDesc => " ORDER BY consume_amount DESC",
    }
}

/// Appends the WHERE clause of the filter and pushes its parameter values.
#[verifier::rlimit(50)]
fn append_where(sql: &mut String, params: &mut Vec<SqlParam>, f: &ListFilter)
    requires
        old(params)@.len() == 0,
    ensures
        final(sql)@ == where_sql(old(sql)@, *f),
        param_views(final(params)@) == where_params(Seq::<ParamVal>::empty(), *f),
        final(params)@.len() == where_count(*f),
{
    broadcast use lemma_param_views_push, lemma_param_views_empty;

    if f.name.is_some() || f.phone.is_some() || f.balance_max.is_some() || f.balance_min.is_some() {
        sql.append(" WHERE ");
        let mut and_flag = false;

        if let Some(n) = &f.name {
            sql.append("M.name LIKE ");
            sql.append(placeholder(params.len() + 1));
            params.push(SqlParam::Text(like_string(n)));
            and_flag = true;
        }

        if let Some(p) = &f.phone {
            if and_flag {
                sql.append(" AND ");
            }
            sql.append("M.phone LIKE ");
            sql.append(placeholder(params.len() + 1));
            params.push(SqlParam::Text(like_string(p)));
            and_flag = true;
        }

        if let Some(v) = f.balance_max {
            if and_flag {
                sql.append(" AND ");
            }
            sql.append("M.balance <= ");
            sql.append(placeholder(params.len() + 1));
            params.push(SqlParam::Int(v));
            and_flag = true;
        }

        if let Some(v) = f.balance_min {
            if and_flag {
                sql.append(" AND ");
            }
            sql.append("M.balance >= ");
            sql.append(placeholder(params.len() + 1));
            params.push(SqlParam::Int(v));
        }
    }
}

/// Appends the HAVING clause of the filter and pushes its parameter
/// values; placeholder numbering continues after the WHERE parameters.
#[verifier::rlimit(50)]
fn append_having(sql: &mut String, params: &mut Vec<SqlParam>, f: &ListFilter)
    requires
        old(params)@.len() == where_count(*f),
    ensures
        final(sql)@ == having_sql(old(sql)@, *f),
        param_views(final(params)@) == having_params(param_views(old(params)@), *f),
{
    broadcast use lemma_param_views_push;

    if f.recharge_max.is_some() || f.recharge_min.is_some() || f.consume_max.is_some()
        || f.consume_min.is_some() {
        sql.append(" HAVING ");
        let mut and_flag = false;

        if let Some(v) = f.recharge_max {
            sql.append("SUM(CR.recharge_amount) <= ");
            sql.append(placeholder(params.len() + 1));
            params.push(SqlParam::Int(v));
            and_flag = true;
        }

        if let Some(v) = f.recharge_min {
            if and_flag {
                sql.append(" AND ");
            }
            sql.append("SUM(CR.recharge_amount) >= ");
            sql.append(placeholder(params.len() + 1));
            params.push(SqlParam::Int(v));
            and_flag = true;
        }

        if let Some(v) = f.consume_max {
            if and_flag {
                sql.append(" AND ");
            }
            sql.append("SUM(CR.consume_amount) <= ");
            sql.append(placeholder(params.len() + 1));
            params.push(SqlParam::Int(v));
            and_flag = true;
        }

        if let Some(v) = f.consume_min {
            if and_flag {
                sql.append(" AND ");
            }
            sql.append("SUM(CR.consume_amount) >= ");
            sql.append(placeholder(params.len() + 1));
            params.push(SqlParam::Int(v));
        }
    }
}

/// Assembles the listing statement of a filter: the exact statement text
/// and, in placeholder order, the exact parameter values. Fails exactly
/// when the filter carries a sort clause outside the allow-list.
pub fn build_list_query(f: &ListFilter) -> (r: Result<ListQuery, ListError>)
    ensures
        r is Err <==> (f.order is Some && parse_order(f.order->0@) is None),
        r matches Err(e) ==> e == ListError::UnknownOrder,
        r matches Ok(q) ==> q.sql@ == list_sql(*f) && param_views(q.params@) == list_params(*f),
{
    let order: Option<OrderBy> = match &f.order {
        None => None,
        Some(o) => match parse_order_str(o) {
            Some(ob) => Some(ob),
            None => {
                return Err(ListError::UnknownOrder);
            },
        },
    };

    let mut sql: String =
        "SELECT M.*, E.name AS \"salesman_name\", SUM(CR.recharge_amount) AS \"recharge_amount\", SUM(CR.consume_amount) AS \"consume_amount\" FROM \"member\" M LEFT JOIN \"employee\" AS E ON M.salesman_id = E.id LEFT JOIN \"consume_record\" AS CR ON M.id = CR.member_id".to_owned();
    let mut params: Vec<SqlParam> = Vec::new();

    append_where(&mut sql, &mut params, f);
    sql.append(" GROUP BY M.id, E.name");
    append_having(&mut sql, &mut params, f);

    // ORDER BY, already validated against the allow-list
    if let Some(ob) = order {
        sql.append(order_clause_str(ob));
    }

    Ok(ListQuery { sql, params })
}

} // verus!
