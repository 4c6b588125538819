use member_admin::entity::{ConsumeRecord, Employee, Model};
use member_admin::member::MemberService;
use member_admin::member_model::{ListError, ListFilter, PageResult};

fn empty_filter() -> ListFilter {
    ListFilter {
        name: None,
        phone: None,
        balance_max: None,
        balance_min: None,
        recharge_max: None,
        recharge_min: None,
        consume_max: None,
        consume_min: None,
        order: None,
    }
}

fn member(id: i32, name: &str, balance: i64) -> Model {
    Model {
        id,
        name: Some(name.to_string()),
        phone: None,
        balance,
        code: format!("C{}", id),
        registration_time: 0,
        level: None,
        salesman_id: None,
        create_time: 0,
        update_time: None,
    }
}

#[test]
fn unfiltered_returns_all_members() {
    let members = vec![member(1, "ann", 10), member(2, "bob", 20), member(3, "cid", 30)];
    let employees: Vec<Employee> = vec![];
    let records: Vec<ConsumeRecord> = vec![];
    let page = MemberService::list_in_page(&members, &employees, &records, 1, 10, &empty_filter())
        .unwrap();
    assert_eq!(page.pages, 1);
    assert_eq!(page.data.len(), 3);
    let ids: Vec<i32> = page.data.iter().map(|it| it.id).collect();
    assert_eq!(ids, vec![1, 2, 3]);
    // no consume records at all: the aggregates are absent
    assert!(page.data.iter().all(|it| it.recharge_amount.is_none()));
    assert!(page.data.iter().all(|it| it.consume_amount.is_none()));
}

#[test]
fn unfiltered_respects_pagination_only() {
    let members: Vec<Model> = (1..=5).map(|i| member(i, "m", i as i64)).collect();
    let employees: Vec<Employee> = vec![];
    let records: Vec<ConsumeRecord> = vec![];
    let page = MemberService::list_in_page(&members, &employees, &records, 2, 2, &empty_filter())
        .unwrap();
    assert_eq!(page.pages, 3);
    let ids: Vec<i32> = page.data.iter().map(|it| it.id).collect();
    assert_eq!(ids, vec![3, 4]);
}

#[test]
fn name_filter_keeps_only_names_containing_substring() {
    let members = vec![
        member(1, "alice", 1),
        member(2, "malice", 2),
        member(3, "bob", 3),
        Model { name: None, ..member(4, "x", 4) },
    ];
    let mut f = empty_filter();
    f.name = Some("lic".to_string());
    let page = MemberService::list_in_page(&members, &vec![], &vec![], 1, 10, &f).unwrap();
    assert_eq!(page.data.len(), 2);
    for it in &page.data {
        assert!(it.name.as_ref().unwrap().contains("lic"));
    }
}

#[test]
fn empty_substring_matches_any_present_name() {
    let members = vec![member(1, "alice", 1), Model { name: None, ..member(2, "x", 2) }];
    let mut f = empty_filter();
    f.name = Some(String::new());
    let page = MemberService::list_in_page(&members, &vec![], &vec![], 1, 10, &f).unwrap();
    let ids: Vec<i32> = page.data.iter().map(|it| it.id).collect();
    assert_eq!(ids, vec![1]);
}

#[test]
fn balance_bounds_are_inclusive() {
    let members = vec![
        member(1, "a", 999),
        member(2, "b", 1000),
        member(3, "c", 5000),
        member(4, "d", 10000),
        member(5, "e", 10001),
    ];
    let mut f = empty_filter();
    f.balance_min = Some(1000);
    f.balance_max = Some(10000);
    let page = MemberService::list_in_page(&members, &vec![], &vec![], 1, 10, &f).unwrap();
    let ids: Vec<i32> = page.data.iter().map(|it| it.id).collect();
    assert_eq!(ids, vec![2, 3, 4]);

    // only one side set: only that side constrains
    let mut low = empty_filter();
    low.balance_min = Some(1000);
    let page = MemberService::list_in_page(&members, &vec![], &vec![], 1, 10, &low).unwrap();
    let ids: Vec<i32> = page.data.iter().map(|it| it.id).collect();
    assert_eq!(ids, vec![2, 3, 4, 5]);
}

#[test]
fn aggregate_bounds_apply_to_summed_records() {
    let members = vec![member(1, "a", 0), member(2, "b", 0), member(3, "c", 0)];
    let records = vec![
        // member 1: two records summing to 300 recharge / 60 consume
        ConsumeRecord { member_id: 1, recharge_amount: 100, consume_amount: 10 },
        ConsumeRecord { member_id: 1, recharge_amount: 200, consume_amount: 50 },
        // member 2: one record of 250 / 100
        ConsumeRecord { member_id: 2, recharge_amount: 250, consume_amount: 100 },
        // member 3: no records
    ];
    let mut f = empty_filter();
    f.recharge_min = Some(300);
    let page = MemberService::list_in_page(&members, &vec![], &records, 1, 10, &f).unwrap();
    // no single record of member 1 reaches 300, but the sum does
    let ids: Vec<i32> = page.data.iter().map(|it| it.id).collect();
    assert_eq!(ids, vec![1]);
    assert_eq!(page.data[0].recharge_amount, Some(300));
    assert_eq!(page.data[0].consume_amount, Some(60));

    // a member with no records fails any aggregate bound
    let mut g = empty_filter();
    g.consume_max = Some(1_000_000);
    let page = MemberService::list_in_page(&members, &vec![], &records, 1, 10, &g).unwrap();
    let ids: Vec<i32> = page.data.iter().map(|it| it.id).collect();
    assert_eq!(ids, vec![1, 2]);
}

#[test]
fn page_beyond_last_is_empty_not_an_error() {
    let members = vec![member(1, "a", 1), member(2, "b", 2), member(3, "c", 3)];
    let page = MemberService::list_in_page(&members, &vec![], &vec![], 7, 2, &empty_filter())
        .unwrap();
    assert_eq!(page.pages, 2);
    assert!(page.data.is_empty());
    assert_eq!(page.page_num, 7);
}

#[test]
fn zero_matching_rows_give_zero_pages() {
    let members = vec![member(1, "a", 1)];
    let mut f = empty_filter();
    f.name = Some("nothing-like-this".to_string());
    let page = MemberService::list_in_page(&members, &vec![], &vec![], 1, 10, &f).unwrap();
    assert_eq!(page.pages, 0);
    assert!(page.data.is_empty());
}

#[test]
fn fifteen_matching_rows_at_size_ten_fill_two_pages() {
    // the balance window [1000, 10000] keeps exactly 15 of the members
    let mut members: Vec<Model> = (1..=15).map(|i| member(i, "in", 1000 + i as i64)).collect();
    members.push(member(100, "lo", 500));
    members.push(member(101, "hi", 20000));
    let mut f = empty_filter();
    f.balance_min = Some(1000);
    f.balance_max = Some(10000);
    let page = MemberService::list_in_page(&members, &vec![], &vec![], 1, 10, &f).unwrap();
    assert_eq!(page.pages, 2);
    assert_eq!(page.data.len(), 10);
    for it in &page.data {
        assert!(1000 <= it.balance && it.balance <= 10000);
    }
}

#[test]
fn empty_table_yields_empty_first_page() {
    let page = MemberService::list_in_page(&vec![], &vec![], &vec![], 1, 25, &empty_filter())
        .unwrap();
    assert_eq!(
        page,
        PageResult { data: vec![], pages: 0, page_num: 1, page_size: 25 }
    );
}

#[test]
fn salesman_name_is_joined_from_employees() {
    let mut m = member(1, "a", 0);
    m.salesman_id = Some(9);
    let members = vec![m, member(2, "b", 0)];
    let employees = vec![
        Employee { id: 8, name: Some("other".to_string()) },
        Employee { id: 9, name: Some("seller".to_string()) },
    ];
    let page = MemberService::list_in_page(&members, &employees, &vec![], 1, 10, &empty_filter())
        .unwrap();
    assert_eq!(page.data[0].salesman_name.as_deref(), Some("seller"));
    assert!(page.data[1].salesman_name.is_none());
}

#[test]
fn sort_by_balance_descending() {
    let members = vec![member(1, "a", 5), member(2, "b", 30), member(3, "c", 10)];
    let mut f = empty_filter();
    f.order = Some("balance desc".to_string());
    let page = MemberService::list_in_page(&members, &vec![], &vec![], 1, 10, &f).unwrap();
    let balances: Vec<i64> = page.data.iter().map(|it| it.balance).collect();
    assert_eq!(balances, vec![30, 10, 5]);
}

#[test]
fn sort_by_recharge_ascending_puts_absent_sums_last() {
    let members = vec![member(1, "a", 0), member(2, "b", 0), member(3, "c", 0)];
    let records = vec![
        ConsumeRecord { member_id: 1, recharge_amount: 500, consume_amount: 0 },
        ConsumeRecord { member_id: 3, recharge_amount: 100, consume_amount: 0 },
    ];
    let mut f = empty_filter();
    f.order = Some("recharge_amount asc".to_string());
    let page = MemberService::list_in_page(&members, &vec![], &records, 1, 10, &f).unwrap();
    let sums: Vec<Option<i128>> = page.data.iter().map(|it| it.recharge_amount).collect();
    assert_eq!(sums, vec![Some(100), Some(500), None]);
}

#[test]
fn zero_page_number_is_rejected() {
    let r = MemberService::list_in_page(&vec![], &vec![], &vec![], 0, 10, &empty_filter());
    assert_eq!(r.unwrap_err(), ListError::PageNumZero);
}

#[test]
fn zero_page_size_is_rejected() {
    let r = MemberService::list_in_page(&vec![], &vec![], &vec![], 1, 0, &empty_filter());
    assert_eq!(r.unwrap_err(), ListError::PageSizeZero);
}

#[test]
fn sort_clause_outside_allow_list_is_rejected() {
    let mut f = empty_filter();
    f.order = Some("balance; DROP TABLE member".to_string());
    let r = MemberService::list_in_page(&vec![], &vec![], &vec![], 1, 10, &f);
    assert_eq!(r.unwrap_err(), ListError::UnknownOrder);
}
