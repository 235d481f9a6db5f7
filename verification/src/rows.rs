//! The row mapper: reconstructs typed entities from raw storage rows.
//!
//! A raw row carries the vocabulary columns as strings; mapping parses them
//! strictly. A parse failure on any single row aborts the whole call with an
//! error naming the offending field and raw value — partial results are
//! never returned, and no row is ever silently dropped.

use vstd::prelude::*;

use crate::errors::WalletError;
use crate::models::{TransactionQuery, UserQuery};
use crate::vocab::{spec_parse_category, spec_parse_type, TransactionCategory, TransactionType};

verus! {

/// A raw transaction row as the storage collaborator hands it over:
/// vocabulary columns still as strings, the amount as exact-decimal cents,
/// timestamps as epoch values.
#[derive(Debug, Clone)]
pub struct TransactionRow {
    pub id: u128,
    pub user_id: u128,
    pub transaction_type: String,
    pub amount: i64,
    pub category: String,
    pub description: String,
    pub created_at: i64,
    pub updated_at: i64,
}

/// A raw user row as the storage collaborator hands it over.
#[derive(Debug, Clone)]
pub struct UserRow {
    pub id: u128,
    pub email: String,
    pub name: String,
    pub password: String,
    pub created_at: i64,
    pub updated_at: i64,
}

/// Whether a raw transaction row can be reconstructed: both vocabulary
/// columns hold canonical labels.
pub open spec fn spec_row_ok(row: TransactionRow) -> bool {
    &&& spec_parse_type(row.transaction_type@) is Some
    &&& spec_parse_category(row.category@) is Some
}

/// Whether a typed transaction is the faithful reconstruction of a raw row:
/// every plain column carried over unchanged, the vocabulary columns parsed.
pub open spec fn spec_tx_matches_row(t: TransactionQuery, row: TransactionRow) -> bool {
    &&& t.id == row.id
    &&& t.user_id == row.user_id
    &&& Some(t.transaction_type) == spec_parse_type(row.transaction_type@)
    &&& t.amount == row.amount
    &&& Some(t.category) == spec_parse_category(row.category@)
    &&& t.description@ == row.description@
    &&& t.created_at == row.created_at
    &&& t.updated_at == row.updated_at
}

/// Whether an error is the one mapping owes for a bad row: a mapping error
/// naming the first offending vocabulary column and its raw value.
pub open spec fn spec_row_error(e: WalletError, row: TransactionRow) -> bool {
    e matches WalletError::RowMappingError { field, raw_value } && (
        if spec_parse_type(row.transaction_type@) is None {
            field@ == "transaction_type"@ && raw_value@ == row.transaction_type@
        } else {
            field@ == "category"@ && raw_value@ == row.category@
        }
    )
}

/// Whether a typed user is the faithful reconstruction of a raw user row.
pub open spec fn spec_user_matches_row(q: UserQuery, row: UserRow) -> bool {
    &&& q.id == row.id
    &&& q.email@ == row.email@
    &&& q.name@ == row.name@
    &&& q.password@ == row.password@
    &&& q.created_at == row.created_at
    &&& q.updated_at == row.updated_at
}

/// Maps one raw transaction row to a typed transaction. Fails with a
/// `RowMappingError` naming the offending field and raw value when a
/// vocabulary column does not hold a canonical label.
pub fn map_row_to_transaction(row: &TransactionRow) -> (r: Result<
    TransactionQuery,
    WalletError,
>)
    ensures
        r is Ok <==> spec_row_ok(*row),
        r matches Ok(t) ==> spec_tx_matches_row(t, *row),
        r matches Err(e) ==> spec_row_error(e, *row),
{
    let transaction_type = match TransactionType::from_str(row.transaction_type.as_str()) {
        Ok(k) => k,
        Err(_) => {
            return Err(WalletError::RowMappingError {
                field: "transaction_type".to_owned(),
                raw_value: row.transaction_type.clone(),
            });
        },
    };
    let category = match TransactionCategory::from_str(row.category.as_str()) {
        Ok(c) => c,
        Err(_) => {
            return Err(WalletError::RowMappingError {
                field: "category".to_owned(),
                raw_value: row.category.clone(),
            });
        },
    };
    Ok(TransactionQuery::new(
        row.id,
        row.user_id,
        transaction_type,
        row.amount,
        category,
        row.description.clone(),
        row.created_at,
        row.updated_at,
    ))
}

/// Maps a whole result set atomically: every row is reconstructed, in
/// order, or the call fails with the error of the first row that cannot be,
/// and nothing is returned.
pub fn map_rows_to_transactions(rows: &Vec<TransactionRow>) -> (r: Result<
    Vec<TransactionQuery>,
    WalletError,
>)
    ensures
        r is Ok <==> (forall|i: int| 0 <= i < rows@.len() ==> spec_row_ok(#[trigger] rows@[i])),
        r matches Ok(ts) ==> ts@.len() == rows@.len() && (forall|i: int|
            0 <= i < rows@.len() ==> spec_tx_matches_row(#[trigger] ts@[i], rows@[i])),
        r matches Err(e) ==> exists|i: int|
            0 <= i < rows@.len() && !spec_row_ok(#[trigger] rows@[i]) && spec_row_error(
                e,
                rows@[i],
            ) && (forall|j: int| 0 <= j < i ==> spec_row_ok(#[trigger] rows@[j])),
{
    let mut out: Vec<TransactionQuery> = Vec::new();
    let mut idx: usize = 0;
    while idx < rows.len()
        invariant
            idx <= rows@.len(),
            out@.len() == idx,
            forall|j: int| 0 <= j < idx ==> spec_row_ok(#[trigger] rows@[j]),
            forall|j: int| 0 <= j < idx ==> spec_tx_matches_row(#[trigger] out@[j], rows@[j]),
        decreases rows@.len() - idx,
    {
        match map_row_to_transaction(&rows[idx]) {
            Ok(t) => {
                out.push(t);
            },
            Err(e) => {
                return Err(e);
            },
        }
        idx = idx + 1;
    }
    Ok(out)
}

/// Maps the optional single row of a user lookup: no row means the user is
/// not found — an outcome of its own, distinct from a storage failure.
pub fn map_row_to_user(row: Option<UserRow>) -> (r: Result<UserQuery, WalletError>)
    ensures
        r is Ok <==> row is Some,
        r matches Err(e) ==> e is NotFound,
        row matches Some(u) ==> r matches Ok(q) && spec_user_matches_row(q, u),
{
    match row {
        Some(u) => Ok(
            UserQuery::new(u.id, u.email, u.name, u.password, u.created_at, u.updated_at),
        ),
        None => Err(WalletError::NotFound),
    }
}

/// Maps a whole user result set; user rows carry no vocabulary column, so
/// every row reconstructs and the call cannot fail.
pub fn map_rows_to_users(rows: &Vec<UserRow>) -> (r: Vec<UserQuery>)
    ensures
        r@.len() == rows@.len(),
        forall|i: int| 0 <= i < rows@.len() ==> spec_user_matches_row(#[trigger] r@[i], rows@[i]),
{
    let mut out: Vec<UserQuery> = Vec::new();
    let mut idx: usize = 0;
    while idx < rows.len()
        invariant
            idx <= rows@.len(),
            out@.len() == idx,
            forall|j: int| 0 <= j < idx ==> spec_user_matches_row(#[trigger] out@[j], rows@[j]),
        decreases rows@.len() - idx,
    {
        let u = &rows[idx];
        out.push(
            UserQuery::new(
                u.id,
                u.email.clone(),
                u.name.clone(),
                u.password.clone(),
                u.created_at,
                u.updated_at,
            ),
        );
        idx = idx + 1;
    }
    out
}

} // verus!
