//! The normalizer and the aggregator: sign handling, exact sums, and the
//! mandatory user filter.

use wallet_core::aggregate::{prepare_sum_query, sum_amounts, sum_mapped_rows};
use wallet_core::builder::{BindValue, FilterSet};
use wallet_core::errors::WalletError;
use wallet_core::models::{normalize, TransactionQuery};
use wallet_core::rows::TransactionRow;
use wallet_core::vocab::{TransactionCategory, TransactionType};

fn typed(kind: TransactionType, amount: i64) -> TransactionQuery {
    TransactionQuery::new(
        0,
        10,
        kind,
        amount,
        TransactionCategory::Other,
        String::new(),
        0,
        0,
    )
}

fn raw(kind: &str, amount: i64) -> TransactionRow {
    TransactionRow {
        id: 0,
        user_id: 10,
        transaction_type: kind.to_string(),
        amount,
        category: "Other".to_string(),
        description: String::new(),
        created_at: 0,
        updated_at: 0,
    }
}

#[test]
fn normalize_expense_is_negative_magnitude() {
    assert_eq!(normalize(TransactionType::Expense, 5000), -5000);
    assert_eq!(normalize(TransactionType::Expense, -5000), -5000);
    assert_eq!(normalize(TransactionType::Expense, 0), 0);
}

#[test]
fn normalize_income_is_positive_magnitude() {
    assert_eq!(normalize(TransactionType::Income, 5000), 5000);
    assert_eq!(normalize(TransactionType::Income, -2000), 2000);
    assert_eq!(normalize(TransactionType::Income, 0), 0);
}

#[test]
fn normalize_expense_and_income_are_exact_negatives() {
    for magnitude in [0, 1, 99, 10_000, i64::MAX] {
        assert_eq!(
            normalize(TransactionType::Expense, magnitude),
            -normalize(TransactionType::Income, magnitude)
        );
    }
}

#[test]
fn normalize_handles_the_extremes() {
    assert_eq!(normalize(TransactionType::Income, i64::MAX), i64::MAX);
    assert_eq!(normalize(TransactionType::Expense, i64::MAX), -i64::MAX);
    assert_eq!(normalize(TransactionType::Income, i64::MIN + 1), i64::MAX);
}

#[test]
fn summing_nothing_is_exact_zero() {
    assert_eq!(sum_amounts(&vec![]), 0);
    assert_eq!(sum_mapped_rows(&vec![]).unwrap(), 0);
}

#[test]
fn summing_income_and_expense_is_exact() {
    // 50.00 income and 20.00 expense, in cents: exactly 30.00.
    let ts = vec![
        typed(TransactionType::Income, 5000),
        typed(TransactionType::Expense, -2000),
    ];
    assert_eq!(sum_amounts(&ts), 3000);
}

#[test]
fn repeated_sums_never_drift() {
    let rows = vec![raw("Income", 5000), raw("Expense", -2000)];
    for _ in 0..100 {
        assert_eq!(sum_mapped_rows(&rows).unwrap(), 3000);
    }
}

#[test]
fn sum_of_large_amounts_is_exact() {
    let ts = vec![
        typed(TransactionType::Income, i64::MAX),
        typed(TransactionType::Income, i64::MAX),
        typed(TransactionType::Expense, -1),
    ];
    assert_eq!(sum_amounts(&ts), i64::MAX as i128 * 2 - 1);
}

#[test]
fn sum_without_user_filter_is_refused() {
    match prepare_sum_query(&FilterSet::empty()) {
        Err(WalletError::MissingRequiredFilter { field }) => {
            assert_eq!(field, "user_id");
        }
        other => panic!("expected MissingRequiredFilter, got {:?}", other),
    }
}

#[test]
fn sum_with_user_filter_builds_the_filtered_query() {
    let mut filters = FilterSet::empty();
    filters.user_id = Some(10);
    filters.transaction_type = Some(TransactionType::Income);
    let (sql, params) = prepare_sum_query(&filters).unwrap();
    assert_eq!(
        sql,
        "SELECT * FROM transactions WHERE user_id = ? AND transaction_type = ?"
    );
    assert_eq!(params.len(), 2);
    assert!(matches!(params[0], BindValue::Id(10)));
}

#[test]
fn sum_fails_atomically_on_a_bad_row() {
    let rows = vec![raw("Income", 5000), raw("Dividend", 100)];
    match sum_mapped_rows(&rows) {
        Err(WalletError::RowMappingError { field, raw_value }) => {
            assert_eq!(field, "transaction_type");
            assert_eq!(raw_value, "Dividend");
        }
        other => panic!("expected RowMappingError, got {:?}", other),
    }
}
