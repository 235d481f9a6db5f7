//! Closed vocabulary for transaction kinds and spending categories.
//!
//! Both enumerations parse from their canonical labels with an exact,
//! case-sensitive match and serialize back to those labels; any other input
//! is rejected with `InvalidEnumValue`, never coerced. Serialize-then-parse
//! is the identity, which `lemma_type_round_trip` and
//! `lemma_category_round_trip` prove.

use vstd::prelude::*;

use crate::errors::WalletError;

verus! {

/// Direction of a transaction: money leaving (expense) or entering (income).
#[derive(Clone, Copy, Debug, PartialEq, Eq, Structural)]
pub enum TransactionType {
    Expense,
    Income,
}

/// Closed classification label for a transaction's purpose.
#[derive(Clone, Copy, Debug, PartialEq, Eq, Structural)]
pub enum TransactionCategory {
    Groceries,
    Restaurant,
    Housing,
    Holidays,
    Shopping,
    Entertainment,
    Other,
}

/// Canonical label of a transaction kind.
pub open spec fn spec_type_label(k: TransactionType) -> Seq<char> {
    match k {
        TransactionType::Expense => "Expense"@,
        TransactionType::Income => "Income"@,
    }
}

/// Strict parse of a transaction kind: exact match against a canonical label.
pub open spec fn spec_parse_type(s: Seq<char>) -> Option<TransactionType> {
    if s == "Expense"@ {
        Some(TransactionType::Expense)
    } else if s == "Income"@ {
        Some(TransactionType::Income)
    } else {
        None
    }
}

/// Canonical label of a category.
pub open spec fn spec_category_label(c: TransactionCategory) -> Seq<char> {
    match c {
        TransactionCategory::Groceries => "Groceries"@,
        TransactionCategory::Restaurant => "Restaurant"@,
        TransactionCategory::Housing => "Housing"@,
        TransactionCategory::Holidays => "Holidays"@,
        TransactionCategory::Shopping => "Shopping"@,
        TransactionCategory::Entertainment => "Entertainment"@,
        TransactionCategory::Other => "Other"@,
    }
}

/// Strict parse of a category: exact match against a canonical label.
pub open spec fn spec_parse_category(s: Seq<char>) -> Option<TransactionCategory> {
    if s == "Groceries"@ {
        Some(TransactionCategory::Groceries)
    } else if s == "Restaurant"@ {
        Some(TransactionCategory::Restaurant)
    } else if s == "Housing"@ {
        Some(TransactionCategory::Housing)
    } else if s == "Holidays"@ {
        Some(TransactionCategory::Holidays)
    } else if s == "Shopping"@ {
        Some(TransactionCategory::Shopping)
    } else if s == "Entertainment"@ {
        Some(TransactionCategory::Entertainment)
    } else if s == "Other"@ {
        Some(TransactionCategory::Other)
    } else {
        None
    }
}

impl TransactionType {
    /// Canonical string form of the kind; total, and the inverse of
    /// `from_str` on valid values.
    pub fn to_string(&self) -> (r: String)
        ensures
            r@ == spec_type_label(*self),
    {
        match self {
            TransactionType::Expense => "Expense".to_owned(),
            TransactionType::Income => "Income".to_owned(),
        }
    }

    /// Exact, case-sensitive parse from a canonical label. Any other input
    /// fails with `InvalidEnumValue` naming the field and the rejected value.
    pub fn from_str(s: &str) -> (r: Result<TransactionType, WalletError>)
        ensures
            r matches Ok(k) ==> spec_parse_type(s@) == Some(k),
            r is Err <==> spec_parse_type(s@) is None,
            r matches Err(e) ==> e matches WalletError::InvalidEnumValue { field, value }
                && field@ == "transaction_type"@ && value@ == s@,
    {
        let owned = s.to_owned();
        if owned == "Expense".to_owned() {
            Ok(TransactionType::Expense)
        } else if owned == "Income".to_owned() {
            Ok(TransactionType::Income)
        } else {
            Err(WalletError::InvalidEnumValue {
                field: "transaction_type".to_owned(),
                value: owned,
            })
        }
    }
}

impl TransactionCategory {
    /// Canonical string form of the category; total, and the inverse of
    /// `from_str` on valid values.
    pub fn to_string(&self) -> (r: String)
        ensures
            r@ == spec_category_label(*self),
    {
        match self {
            TransactionCategory::Groceries => "Groceries".to_owned(),
            TransactionCategory::Restaurant => "Restaurant".to_owned(),
            TransactionCategory::Housing => "Housing".to_owned(),
            TransactionCategory::Holidays => "Holidays".to_owned(),
            TransactionCategory::Shopping => "Shopping".to_owned(),
            TransactionCategory::Entertainment => "Entertainment".to_owned(),
            TransactionCategory::Other => "Other".to_owned(),
        }
    }

    /// Exact, case-sensitive parse from a canonical label. Any other input
    /// fails with `InvalidEnumValue` naming the field and the rejected value.
    pub fn from_str(s: &str) -> (r: Result<TransactionCategory, WalletError>)
        ensures
            r matches Ok(c) ==> spec_parse_category(s@) == Some(c),
            r is Err <==> spec_parse_category(s@) is None,
            r matches Err(e) ==> e matches WalletError::InvalidEnumValue { field, value }
                && field@ == "category"@ && value@ == s@,
    {
        let owned = s.to_owned();
        if owned == "Groceries".to_owned() {
            Ok(TransactionCategory::Groceries)
        } else if owned == "Restaurant".to_owned() {
            Ok(TransactionCategory::Restaurant)
        } else if owned == "Housing".to_owned() {
            Ok(TransactionCategory::Housing)
        } else if owned == "Holidays".to_owned() {
            Ok(TransactionCategory::Holidays)
        } else if owned == "Shopping".to_owned() {
            Ok(TransactionCategory::Shopping)
        } else if owned == "Entertainment".to_owned() {
            Ok(TransactionCategory::Entertainment)
        } else if owned == "Other".to_owned() {
            Ok(TransactionCategory::Other)
        } else {
            Err(WalletError::InvalidEnumValue {
                field: "category".to_owned(),
                value: owned,
            })
        }
    }
}

/// Law: serializing a valid transaction kind and parsing the result gives
/// the kind back — parse is a left inverse of the canonical form.
pub proof fn lemma_type_round_trip(k: TransactionType)
    ensures
        spec_parse_type(spec_type_label(k)) == Some(k),
{
    broadcast use vstd::string::group_string_axioms;

    reveal_strlit("Expense");
    reveal_strlit("Income");
    assert("Expense"@.len() == 7);
    assert("Income"@.len() == 6);
}

/// Law: serializing a valid category and parsing the result gives the
/// category back — parse is a left inverse of the canonical form.
pub proof fn lemma_category_round_trip(c: TransactionCategory)
    ensures
        spec_parse_category(spec_category_label(c)) == Some(c),
{
    broadcast use vstd::string::group_string_axioms;

    reveal_strlit("Groceries");
    reveal_strlit("Restaurant");
    reveal_strlit("Housing");
    reveal_strlit("Holidays");
    reveal_strlit("Shopping");
    reveal_strlit("Entertainment");
    reveal_strlit("Other");
    assert("Groceries"@.len() == 9);
    assert("Restaurant"@.len() == 10);
    assert("Housing"@.len() == 7);
    assert("Holidays"@.len() == 8);
    assert("Shopping"@.len() == 8);
    assert("Entertainment"@.len() == 13);
    assert("Other"@.len() == 5);
    // The two labels of equal length differ in their first character.
    assert("Holidays"@[0] == 'H' && "Shopping"@[0] == 'S');
}

/// Law: for every string that parses as a transaction kind, parsing the
/// canonical form of the parsed kind gives the same result as parsing the
/// original string.
pub proof fn lemma_type_parse_canonical(label: Seq<char>, k: TransactionType)
    requires
        spec_parse_type(label) == Some(k),
    ensures
        spec_parse_type(spec_type_label(k)) == spec_parse_type(label),
{
    lemma_type_round_trip(k);
}

/// Law: for every string that parses as a category, parsing the canonical
/// form of the parsed category gives the same result as parsing the
/// original string.
pub proof fn lemma_category_parse_canonical(label: Seq<char>, c: TransactionCategory)
    requires
        spec_parse_category(label) == Some(c),
    ensures
        spec_parse_category(spec_category_label(c)) == spec_parse_category(label),
{
    lemma_category_round_trip(c);
}

} // verus!
