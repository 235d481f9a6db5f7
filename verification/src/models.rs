//! Entities of the bookkeeping core and the monetary amount normalizer.
//!
//! Monetary amounts are exact decimals held as a signed fixed-point number
//! of cents, so aggregation is free of binary-float rounding drift.
//! Identifiers are 128-bit values and timestamps are integer epoch values;
//! the surrounding program converts at the boundary.

use vstd::prelude::*;

use crate::vocab::{TransactionCategory, TransactionType};

verus! {

/// Application configuration: where the storage lives and how the server
/// binds. Loading it from the environment is the surrounding program's job.
#[derive(Debug, Clone)]
pub struct Config {
    /// Storage connection URL.
    pub database_url: String,
    /// Server port to listen on.
    pub port: u16,
    /// Server host address to bind to.
    pub host: String,
    /// Logging level keyword.
    pub rust_log: String,
}

/// A user registration about to be stored.
#[derive(Debug, Clone)]
pub struct UserCreate {
    pub email: String,
    pub name: String,
    pub password: String,
}

impl UserCreate {
    pub fn new(email: String, name: String, password: String) -> (r: Self)
        ensures
            r.email == email,
            r.name == name,
            r.password == password,
    {
        Self { email, name, password }
    }
}

/// Body of a user-registration request, already shaped as plain strings.
#[derive(Debug, Clone)]
pub struct CreateUserRequest {
    pub email: String,
    pub name: String,
    pub password: String,
}

/// A stored user as read back from storage.
#[derive(Debug, Clone)]
pub struct UserQuery {
    pub id: u128,
    pub email: String,
    pub name: String,
    pub password: String,
    pub created_at: i64,
    pub updated_at: i64,
}

impl UserQuery {
    pub fn new(
        id: u128,
        email: String,
        name: String,
        password: String,
        created_at: i64,
        updated_at: i64,
    ) -> (r: Self)
        ensures
            r.id == id,
            r.email == email,
            r.name == name,
            r.password == password,
            r.created_at == created_at,
            r.updated_at == updated_at,
    {
        Self { id, email, name, password, created_at, updated_at }
    }
}

/// Absolute value of a mathematical integer.
pub open spec fn spec_abs(a: int) -> int {
    if a < 0 {
        -a
    } else {
        a
    }
}

/// Sign-normalization of a stored amount: the magnitude of the raw amount
/// with the sign the kind dictates — negative for an expense, positive for
/// an income. The raw sign is never trusted.
pub open spec fn spec_normalize(kind: TransactionType, raw: int) -> int {
    match kind {
        TransactionType::Expense => -spec_abs(raw),
        TransactionType::Income => spec_abs(raw),
    }
}

/// Whether an amount's sign is the one its kind dictates: an expense is
/// never positive, an income never negative.
pub open spec fn spec_amount_sign_ok(kind: TransactionType, amount: int) -> bool {
    match kind {
        TransactionType::Expense => amount <= 0,
        TransactionType::Income => amount >= 0,
    }
}

/// Converts a raw amount of either sign into the signed stored amount:
/// `-|raw|` for an expense, `+|raw|` for an income.
///
/// `i64::MIN` is excluded because its magnitude has no `i64` representation.
pub fn normalize(kind: TransactionType, raw_amount: i64) -> (r: i64)
    requires
        raw_amount > i64::MIN,
    ensures
        r == spec_normalize(kind, raw_amount as int),
        spec_amount_sign_ok(kind, r as int),
{
    let magnitude = if raw_amount < 0 {
        -raw_amount
    } else {
        raw_amount
    };
    match kind {
        TransactionType::Expense => -magnitude,
        TransactionType::Income => magnitude,
    }
}

/// Law: for every raw amount `a >= 0`, the normalized amount has the sign
/// its kind dictates, and the expense and income normalizations of the same
/// magnitude are exact negatives of each other.
pub proof fn lemma_normalize_sign(kind: TransactionType, a: int)
    requires
        a >= 0,
    ensures
        spec_amount_sign_ok(kind, spec_normalize(kind, a)),
        spec_normalize(TransactionType::Expense, a) == -spec_normalize(
            TransactionType::Income,
            a,
        ),
{
}

/// A transaction about to be stored, with its amount already normalized.
#[derive(Debug, Clone)]
pub struct TransactionCreate {
    pub user_id: u128,
    pub transaction_type: TransactionType,
    /// Signed stored amount in cents; its sign matches `transaction_type`.
    pub amount: i64,
    pub category: TransactionCategory,
    pub description: String,
}

impl TransactionCreate {
    /// The stored-amount invariant: the amount's sign matches the kind.
    pub open spec fn wf(self) -> bool {
        spec_amount_sign_ok(self.transaction_type, self.amount as int)
    }

    /// Builds a transaction for storage. The amount is normalized from the
    /// raw magnitude — the raw sign is never trusted — the category
    /// defaults to `Other` and the description to the empty string.
    pub fn new(
        user_id: u128,
        transaction_type: TransactionType,
        amount: i64,
        category: Option<TransactionCategory>,
        description: Option<String>,
    ) -> (r: Self)
        requires
            amount > i64::MIN,
        ensures
            r.user_id == user_id,
            r.transaction_type == transaction_type,
            r.amount == spec_normalize(transaction_type, amount as int),
            r.category == (match category {
                Some(c) => c,
                None => TransactionCategory::Other,
            }),
            (match description {
                Some(d) => r.description == d,
                None => r.description@ == Seq::<char>::empty(),
            }),
            r.wf(),
    {
        Self {
            user_id,
            transaction_type,
            amount: normalize(transaction_type, amount),
            category: match category {
                Some(c) => c,
                None => TransactionCategory::Other,
            },
            description: match description {
                Some(d) => d,
                None => String::new(),
            },
        }
    }
}

/// A stored transaction as read back from storage, with its vocabulary
/// fields already reconstructed as typed values.
#[derive(Debug, Clone)]
pub struct TransactionQuery {
    pub id: u128,
    pub user_id: u128,
    pub transaction_type: TransactionType,
    /// Signed stored amount in cents.
    pub amount: i64,
    pub category: TransactionCategory,
    pub description: String,
    pub created_at: i64,
    pub updated_at: i64,
}

impl TransactionQuery {
    pub fn new(
        id: u128,
        user_id: u128,
        transaction_type: TransactionType,
        amount: i64,
        category: TransactionCategory,
        description: String,
        created_at: i64,
        updated_at: i64,
    ) -> (r: Self)
        ensures
            r.id == id,
            r.user_id == user_id,
            r.transaction_type == transaction_type,
            r.amount == amount,
            r.category == category,
            r.description == description,
            r.created_at == created_at,
            r.updated_at == updated_at,
    {
        Self { id, user_id, transaction_type, amount, category, description, created_at, updated_at }
    }
}

} // verus!
