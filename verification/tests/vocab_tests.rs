//! The closed vocabulary: strict parsing, canonical serialization, and the
//! round-trip law on concrete labels.

use wallet_core::errors::WalletError;
use wallet_core::vocab::{TransactionCategory, TransactionType};

#[test]
fn type_parses_canonical_labels() {
    assert_eq!(
        TransactionType::from_str("Expense").unwrap(),
        TransactionType::Expense
    );
    assert_eq!(
        TransactionType::from_str("Income").unwrap(),
        TransactionType::Income
    );
}

#[test]
fn type_serializes_canonical_labels() {
    assert_eq!(TransactionType::Expense.to_string(), "Expense");
    assert_eq!(TransactionType::Income.to_string(), "Income");
}

#[test]
fn type_rejects_unknown_and_wrong_case() {
    assert!(TransactionType::from_str("expense").is_err());
    assert!(TransactionType::from_str("INCOME").is_err());
    assert!(TransactionType::from_str("").is_err());
    assert!(TransactionType::from_str("Transfer").is_err());
}

#[test]
fn type_error_names_field_and_value() {
    match TransactionType::from_str("Transfer") {
        Err(WalletError::InvalidEnumValue { field, value }) => {
            assert_eq!(field, "transaction_type");
            assert_eq!(value, "Transfer");
        }
        other => panic!("expected InvalidEnumValue, got {:?}", other),
    }
}

#[test]
fn category_parses_canonical_labels() {
    let cases = [
        ("Groceries", TransactionCategory::Groceries),
        ("Restaurant", TransactionCategory::Restaurant),
        ("Housing", TransactionCategory::Housing),
        ("Holidays", TransactionCategory::Holidays),
        ("Shopping", TransactionCategory::Shopping),
        ("Entertainment", TransactionCategory::Entertainment),
        ("Other", TransactionCategory::Other),
    ];
    for (label, expected) in cases {
        assert_eq!(TransactionCategory::from_str(label).unwrap(), expected);
        assert_eq!(expected.to_string(), label);
    }
}

#[test]
fn category_rejects_unknown_and_wrong_case() {
    assert!(TransactionCategory::from_str("Snacks").is_err());
    assert!(TransactionCategory::from_str("groceries").is_err());
    assert!(TransactionCategory::from_str("").is_err());
}

#[test]
fn category_error_names_field_and_value() {
    match TransactionCategory::from_str("Snacks") {
        Err(WalletError::InvalidEnumValue { field, value }) => {
            assert_eq!(field, "category");
            assert_eq!(value, "Snacks");
        }
        other => panic!("expected InvalidEnumValue, got {:?}", other),
    }
}

#[test]
fn enum_round_trip_is_identity() {
    for label in ["Expense", "Income"] {
        let parsed = TransactionType::from_str(label).unwrap();
        let reparsed = TransactionType::from_str(&parsed.to_string()).unwrap();
        assert_eq!(reparsed, parsed);
    }
    for label in [
        "Groceries",
        "Restaurant",
        "Housing",
        "Holidays",
        "Shopping",
        "Entertainment",
        "Other",
    ] {
        let parsed = TransactionCategory::from_str(label).unwrap();
        let reparsed = TransactionCategory::from_str(&parsed.to_string()).unwrap();
        assert_eq!(reparsed, parsed);
    }
}
