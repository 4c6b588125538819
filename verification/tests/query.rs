use member_admin::entity::Model;
use member_admin::member::MemberService;
use member_admin::member_model::{ListError, ListFilter, MemberCreate};
use member_admin::post::Params;
use member_admin::query::{build_list_query, SqlParam};

const BASE: &str = "SELECT M.*, E.name AS \"salesman_name\", SUM(CR.recharge_amount) AS \"recharge_amount\", SUM(CR.consume_amount) AS \"consume_amount\" FROM \"member\" M LEFT JOIN \"employee\" AS E ON M.salesman_id = E.id LEFT JOIN \"consume_record\" AS CR ON M.id = CR.member_id";

fn empty_filter() -> ListFilter {
    ListFilter {
        name: None,
        phone: None,
        balance_max: None,
        balance_min: None,
        recharge_max: None,
        recharge_min: None,
        consume_max: None,
        consume_min: None,
        order: None,
    }
}

fn text_of(p: &SqlParam) -> &str {
    match p {
        SqlParam::Text(s) => s.as_str(),
        SqlParam::Int(_) => panic!("expected a text parameter"),
    }
}

fn int_of(p: &SqlParam) -> i64 {
    match p {
        SqlParam::Int(n) => *n,
        SqlParam::Text(_) => panic!("expected a numeric parameter"),
    }
}

#[test]
fn empty_filter_builds_base_query_with_group_by_only() {
    let q = build_list_query(&empty_filter()).unwrap();
    assert_eq!(q.sql, format!("{} GROUP BY M.id, E.name", BASE));
    assert!(q.params.is_empty());
}

#[test]
fn present_fields_become_positional_parameters_in_fixed_order() {
    let f = ListFilter {
        name: Some("ann".to_string()),
        phone: Some("138".to_string()),
        balance_max: Some(10000),
        balance_min: Some(1000),
        recharge_max: Some(5000),
        recharge_min: Some(3001),
        consume_max: Some(900),
        consume_min: Some(100),
        order: None,
    };
    let q = build_list_query(&f).unwrap();
    assert_eq!(
        q.sql,
        format!(
            "{} WHERE M.name LIKE $1 AND M.phone LIKE $2 AND M.balance <= $3 AND M.balance >= $4 \
             GROUP BY M.id, E.name \
             HAVING SUM(CR.recharge_amount) <= $5 AND SUM(CR.recharge_amount) >= $6 \
             AND SUM(CR.consume_amount) <= $7 AND SUM(CR.consume_amount) >= $8",
            BASE
        )
    );
    assert_eq!(q.params.len(), 8);
    assert_eq!(text_of(&q.params[0]), "%ann%");
    assert_eq!(text_of(&q.params[1]), "%138%");
    assert_eq!(int_of(&q.params[2]), 10000);
    assert_eq!(int_of(&q.params[3]), 1000);
    assert_eq!(int_of(&q.params[4]), 5000);
    assert_eq!(int_of(&q.params[5]), 3001);
    assert_eq!(int_of(&q.params[6]), 900);
    assert_eq!(int_of(&q.params[7]), 100);
}

#[test]
fn placeholder_numbering_skips_absent_fields() {
    let mut f = empty_filter();
    f.phone = Some("555".to_string());
    f.consume_min = Some(7);
    let q = build_list_query(&f).unwrap();
    assert_eq!(
        q.sql,
        format!(
            "{} WHERE M.phone LIKE $1 GROUP BY M.id, E.name HAVING SUM(CR.consume_amount) >= $2",
            BASE
        )
    );
    assert_eq!(q.params.len(), 2);
    assert_eq!(text_of(&q.params[0]), "%555%");
    assert_eq!(int_of(&q.params[1]), 7);
}

#[test]
fn user_values_never_appear_in_statement_text() {
    let mut f = empty_filter();
    f.name = Some("x' OR '1'='1".to_string());
    let q = build_list_query(&f).unwrap();
    assert!(!q.sql.contains("OR '1'='1"));
    assert_eq!(text_of(&q.params[0]), "%x' OR '1'='1%");
}

#[test]
fn allowed_order_is_appended_from_the_allow_list() {
    let mut f = empty_filter();
    f.order = Some("recharge_amount asc".to_string());
    let q = build_list_query(&f).unwrap();
    assert_eq!(
        q.sql,
        format!("{} GROUP BY M.id, E.name ORDER BY recharge_amount ASC", BASE)
    );
}

#[test]
fn unknown_order_is_rejected_by_the_builder() {
    let mut f = empty_filter();
    f.order = Some("registration_time; --".to_string());
    assert_eq!(build_list_query(&f).unwrap_err(), ListError::UnknownOrder);
}

#[test]
fn like_str_wraps_keyword_in_wildcards() {
    assert_eq!(MemberService::like_str(Some("abc".to_string())), "%abc%");
    assert_eq!(MemberService::like_str(None), "%%");
}

#[test]
fn create_with_only_code_yields_zero_balance_and_fresh_id() {
    let mut members: Vec<Model> = Vec::new();
    let id = MemberService::create(
        &mut members,
        MemberCreate { name: None, phone: None, code: "111".to_string() },
    );
    assert_eq!(id, 1);
    assert_eq!(members.len(), 1);
    let m = &members[0];
    assert_eq!(m.balance, 0);
    assert_eq!(m.code, "111");
    assert!(m.name.is_none());
    assert!(m.phone.is_none());
    assert!(m.level.is_none());
    assert!(m.salesman_id.is_none());
    assert!(m.update_time.is_none());
    assert_eq!(m.registration_time, m.create_time);

    let second = MemberService::create(
        &mut members,
        MemberCreate { name: Some("ann".to_string()), phone: None, code: "222".to_string() },
    );
    assert_ne!(second, id);
    assert_eq!(members.len(), 2);
    assert_eq!(members[1].id, second);
    assert_eq!(members[1].name.as_deref(), Some("ann"));
}

#[test]
fn post_params_resolve_defaults() {
    let p = Params { page: None, posts_per_page: None };
    assert_eq!(p.resolve(), (1, 5));
    let p = Params { page: Some(3), posts_per_page: Some(20) };
    assert_eq!(p.resolve(), (3, 20));
}
