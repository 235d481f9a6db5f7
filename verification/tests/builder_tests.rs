//! The predicate builder: clause composition, fixed ordering, and bound
//! parameters on concrete filter sets.

use wallet_core::builder::{
    build_select_all_users, build_select_user_by_email, build_transaction_query,
    push_where_or_and, BindValue, FilterSet,
};
use wallet_core::vocab::{TransactionCategory, TransactionType};

#[test]
fn empty_filter_set_yields_base_query_and_no_parameters() {
    let (sql, params) = build_transaction_query(&FilterSet::empty());
    assert_eq!(sql, "SELECT * FROM transactions");
    assert_eq!(params.len(), 0);
}

#[test]
fn user_and_category_yield_fixed_clause_order() {
    let mut filters = FilterSet::empty();
    filters.user_id = Some(42);
    filters.category = Some(TransactionCategory::Groceries);
    let (sql, params) = build_transaction_query(&filters);
    assert_eq!(
        sql,
        "SELECT * FROM transactions WHERE user_id = ? AND category = ?"
    );
    assert_eq!(params.len(), 2);
    assert!(matches!(params[0], BindValue::Id(42)));
    match &params[1] {
        BindValue::Text(label) => assert_eq!(label, "Groceries"),
        other => panic!("expected a text parameter, got {:?}", other),
    }
}

#[test]
fn clause_order_ignores_assignment_order() {
    let mut first = FilterSet::empty();
    first.user_id = Some(42);
    first.category = Some(TransactionCategory::Groceries);

    // The same two filters, set the other way round.
    let mut second = FilterSet::empty();
    second.category = Some(TransactionCategory::Groceries);
    second.user_id = Some(42);

    let (sql_first, _) = build_transaction_query(&first);
    let (sql_second, _) = build_transaction_query(&second);
    assert_eq!(sql_first, sql_second);
}

#[test]
fn all_filters_yield_full_clause_table_in_order() {
    let filters = FilterSet {
        user_id: Some(7),
        category: Some(TransactionCategory::Housing),
        transaction_type: Some(TransactionType::Expense),
        amount_min: Some(-10_000),
        amount_max: Some(0),
        start_time: Some(1_700_000_000),
        end_time: Some(1_800_000_000),
    };
    let (sql, params) = build_transaction_query(&filters);
    assert_eq!(
        sql,
        "SELECT * FROM transactions WHERE user_id = ? AND category = ? \
         AND transaction_type = ? AND amount >= ? AND amount <= ? \
         AND created_at >= ? AND created_at <= ?"
    );
    assert_eq!(params.len(), 7);
    assert!(matches!(params[0], BindValue::Id(7)));
    match &params[1] {
        BindValue::Text(label) => assert_eq!(label, "Housing"),
        other => panic!("expected a text parameter, got {:?}", other),
    }
    match &params[2] {
        BindValue::Text(label) => assert_eq!(label, "Expense"),
        other => panic!("expected a text parameter, got {:?}", other),
    }
    assert!(matches!(params[3], BindValue::Cents(-10_000)));
    assert!(matches!(params[4], BindValue::Cents(0)));
    assert!(matches!(params[5], BindValue::Time(1_700_000_000)));
    assert!(matches!(params[6], BindValue::Time(1_800_000_000)));
}

#[test]
fn each_single_filter_yields_its_own_clause() {
    let cases: Vec<(FilterSet, &str)> = vec![
        (
            FilterSet {
                user_id: Some(1),
                ..FilterSet::empty()
            },
            "SELECT * FROM transactions WHERE user_id = ?",
        ),
        (
            FilterSet {
                category: Some(TransactionCategory::Other),
                ..FilterSet::empty()
            },
            "SELECT * FROM transactions WHERE category = ?",
        ),
        (
            FilterSet {
                transaction_type: Some(TransactionType::Income),
                ..FilterSet::empty()
            },
            "SELECT * FROM transactions WHERE transaction_type = ?",
        ),
        (
            FilterSet {
                amount_min: Some(100),
                ..FilterSet::empty()
            },
            "SELECT * FROM transactions WHERE amount >= ?",
        ),
        (
            FilterSet {
                amount_max: Some(100),
                ..FilterSet::empty()
            },
            "SELECT * FROM transactions WHERE amount <= ?",
        ),
        (
            FilterSet {
                start_time: Some(5),
                ..FilterSet::empty()
            },
            "SELECT * FROM transactions WHERE created_at >= ?",
        ),
        (
            FilterSet {
                end_time: Some(5),
                ..FilterSet::empty()
            },
            "SELECT * FROM transactions WHERE created_at <= ?",
        ),
    ];
    for (filters, expected) in cases {
        let (sql, params) = build_transaction_query(&filters);
        assert_eq!(sql, expected);
        assert_eq!(params.len(), 1);
    }
}

#[test]
fn first_clause_gets_where_and_later_clauses_get_and() {
    let mut sql = String::from("BASE");
    let mut started = false;
    push_where_or_and(&mut sql, &mut started);
    assert_eq!(sql, "BASE WHERE");
    assert!(started);
    push_where_or_and(&mut sql, &mut started);
    assert_eq!(sql, "BASE WHERE AND");
    assert!(started);
}

#[test]
fn user_lookup_binds_the_email_as_a_parameter() {
    let (sql, params) = build_select_user_by_email("alice@example.com");
    assert_eq!(
        sql,
        "SELECT id, email, name, password, created_at, updated_at \
         FROM users WHERE email = ? LIMIT 1"
    );
    assert_eq!(params.len(), 1);
    match &params[0] {
        BindValue::Text(email) => assert_eq!(email, "alice@example.com"),
        other => panic!("expected a text parameter, got {:?}", other),
    }
}

#[test]
fn all_users_statement_binds_nothing() {
    let sql = build_select_all_users();
    assert_eq!(
        sql,
        "SELECT id, email, name, password, created_at, updated_at FROM users"
    );
}

#[test]
fn no_filter_value_enters_the_sql_text() {
    let mut filters = FilterSet::empty();
    filters.user_id = Some(99999);
    filters.category = Some(TransactionCategory::Shopping);
    let (sql, _) = build_transaction_query(&filters);
    assert!(!sql.contains("99999"));
    assert!(!sql.contains("Shopping"));
}
