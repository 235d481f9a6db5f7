//! The predicate builder: composes a parameterized SQL text from an
//! arbitrary subset of optional filters.
//!
//! Starting from a fixed base query, each present filter appends exactly one
//! comparison clause; the first clause is introduced with `WHERE`, every
//! later one with `AND`. Values never enter the SQL text: each clause holds
//! a `?` placeholder and the value goes into an ordered parameter list, so
//! the text is injection-free by construction. Clause order is fixed
//! (user, category, kind, amount bounds, time bounds), so the generated SQL
//! is deterministic byte for byte for a given set of present filters —
//! `lemma_sql_determined_by_shape` proves that the text depends on nothing
//! but which filters are present.
//!
//! This module also fixes the texts and parameter orders of the remaining
//! statements the core issues: user insertion and lookup, and transaction
//! insertion.

use vstd::prelude::*;

use crate::models::{TransactionCreate, UserCreate};
use crate::vocab::{
    spec_category_label, spec_type_label, TransactionCategory, TransactionType,
};

verus! {

/// A value bound to one `?` placeholder, as plain data: an identifier, a
/// canonical label or other text, an exact-decimal amount in cents, or an
/// epoch timestamp.
#[derive(Debug, Clone)]
pub enum BindValue {
    Id(u128),
    Text(String),
    Cents(i64),
    Time(i64),
}

/// Mathematical model of a bound value: text becomes a character sequence.
pub enum BindValueModel {
    Id(u128),
    Text(Seq<char>),
    Cents(i64),
    Time(i64),
}

impl View for BindValue {
    type V = BindValueModel;

    open spec fn view(&self) -> BindValueModel {
        match self {
            BindValue::Id(u) => BindValueModel::Id(*u),
            BindValue::Text(s) => BindValueModel::Text(s@),
            BindValue::Cents(c) => BindValueModel::Cents(*c),
            BindValue::Time(t) => BindValueModel::Time(*t),
        }
    }
}

/// Model of an ordered parameter list.
pub open spec fn params_model(params: Seq<BindValue>) -> Seq<BindValueModel> {
    params.map_values(|v: BindValue| v@)
}

/// An ephemeral, request-scoped set of optional filters; an empty set
/// matches every transaction. Amounts are cents, times are epoch values.
#[derive(Debug, Clone)]
pub struct FilterSet {
    pub user_id: Option<u128>,
    pub category: Option<TransactionCategory>,
    pub transaction_type: Option<TransactionType>,
    pub amount_min: Option<i64>,
    pub amount_max: Option<i64>,
    pub start_time: Option<i64>,
    pub end_time: Option<i64>,
}

/// Whether no filter is present.
pub open spec fn spec_is_empty(f: FilterSet) -> bool {
    &&& f.user_id is None
    &&& f.category is None
    &&& f.transaction_type is None
    &&& f.amount_min is None
    &&& f.amount_max is None
    &&& f.start_time is None
    &&& f.end_time is None
}

/// Whether the same filters are present in both sets, whatever their values.
pub open spec fn spec_same_shape(f1: FilterSet, f2: FilterSet) -> bool {
    &&& f1.user_id is Some <==> f2.user_id is Some
    &&& f1.category is Some <==> f2.category is Some
    &&& f1.transaction_type is Some <==> f2.transaction_type is Some
    &&& f1.amount_min is Some <==> f2.amount_min is Some
    &&& f1.amount_max is Some <==> f2.amount_max is Some
    &&& f1.start_time is Some <==> f2.start_time is Some
    &&& f1.end_time is Some <==> f2.end_time is Some
}

impl FilterSet {
    /// The filter set with nothing present.
    pub fn empty() -> (r: FilterSet)
        ensures
            spec_is_empty(r),
    {
        FilterSet {
            user_id: None,
            category: None,
            transaction_type: None,
            amount_min: None,
            amount_max: None,
            start_time: None,
            end_time: None,
        }
    }
}

/// The fixed base query selecting all transaction columns.
pub open spec fn spec_base_query() -> Seq<char> {
    "SELECT * FROM transactions"@
}

/// The keyword joining the next clause to the text so far: `WHERE` opens the
/// first clause, `AND` every later one.
pub open spec fn spec_connective(clause_started: bool) -> Seq<char> {
    if clause_started {
        " AND"@
    } else {
        " WHERE"@
    }
}

/// The SQL text and ordered parameter list composed from a filter set: one
/// clause per present filter, in the fixed order user, category, kind,
/// amount lower bound, amount upper bound, time lower bound, time upper
/// bound.
pub open spec fn spec_build(f: FilterSet) -> (Seq<char>, Seq<BindValueModel>) {
    let sql = spec_base_query();
    let params = Seq::<BindValueModel>::empty();
    let started = false;
    let (sql, params, started) = if f.user_id is Some {
        (
            sql + spec_connective(started) + " user_id = ?"@,
            params.push(BindValueModel::Id(f.user_id->0)),
            true,
        )
    } else {
        (sql, params, started)
    };
    let (sql, params, started) = if f.category is Some {
        (
            sql + spec_connective(started) + " category = ?"@,
            params.push(BindValueModel::Text(spec_category_label(f.category->0))),
            true,
        )
    } else {
        (sql, params, started)
    };
    let (sql, params, started) = if f.transaction_type is Some {
        (
            sql + spec_connective(started) + " transaction_type = ?"@,
            params.push(BindValueModel::Text(spec_type_label(f.transaction_type->0))),
            true,
        )
    } else {
        (sql, params, started)
    };
    let (sql, params, started) = if f.amount_min is Some {
        (
            sql + spec_connective(started) + " amount >= ?"@,
            params.push(BindValueModel::Cents(f.amount_min->0)),
            true,
        )
    } else {
        (sql, params, started)
    };
    let (sql, params, started) = if f.amount_max is Some {
        (
            sql + spec_connective(started) + " amount <= ?"@,
            params.push(BindValueModel::Cents(f.amount_max->0)),
            true,
        )
    } else {
        (sql, params, started)
    };
    let (sql, params, started) = if f.start_time is Some {
        (
            sql + spec_connective(started) + " created_at >= ?"@,
            params.push(BindValueModel::Time(f.start_time->0)),
            true,
        )
    } else {
        (sql, params, started)
    };
    let (sql, params, started) = if f.end_time is Some {
        (
            sql + spec_connective(started) + " created_at <= ?"@,
            params.push(BindValueModel::Time(f.end_time->0)),
            true,
        )
    } else {
        (sql, params, started)
    };
    (sql, params)
}

/// The SQL text composed from a filter set.
pub open spec fn spec_build_sql(f: FilterSet) -> Seq<char> {
    spec_build(f).0
}

/// The ordered parameter list composed from a filter set.
pub open spec fn spec_build_params(f: FilterSet) -> Seq<BindValueModel> {
    spec_build(f).1
}

/// The fixed base query as an owned string.
pub fn base_query() -> (r: String)
    ensures
        r@ == spec_base_query(),
{
    "SELECT * FROM transactions".to_owned()
}

/// Appends the keyword that joins the next clause: `WHERE` if no clause has
/// been emitted yet, `AND` otherwise; records that a clause now exists.
pub fn push_where_or_and(query: &mut String, where_is_inserted: &mut bool)
    ensures
        final(query)@ == old(query)@ + spec_connective(*old(where_is_inserted)),
        *final(where_is_inserted),
{
    if !*where_is_inserted {
        query.append(" WHERE");
        *where_is_inserted = true;
    } else {
        query.append(" AND");
    }
}

/// Composes the filtered transaction query: the parameterized SQL text and
/// the ordered values for its placeholders. No filter value ever enters the
/// text; an empty filter set yields the bare base query and no parameters.
pub fn build_transaction_query(filters: &FilterSet) -> (r: (String, Vec<BindValue>))
    ensures
        r.0@ == spec_build_sql(*filters),
        params_model(r.1@) == spec_build_params(*filters),
{
    let mut query = base_query();
    let mut params: Vec<BindValue> = Vec::new();
    let mut where_is_inserted = false;
    if let Some(user_id) = filters.user_id {
        push_where_or_and(&mut query, &mut where_is_inserted);
        query.append(" user_id = ?");
        params.push(BindValue::Id(user_id));
    }
    if let Some(category) = filters.category {
        push_where_or_and(&mut query, &mut where_is_inserted);
        query.append(" category = ?");
        params.push(BindValue::Text(category.to_string()));
    }
    if let Some(transaction_type) = filters.transaction_type {
        push_where_or_and(&mut query, &mut where_is_inserted);
        query.append(" transaction_type = ?");
        params.push(BindValue::Text(transaction_type.to_string()));
    }
    if let Some(amount_min) = filters.amount_min {
        push_where_or_and(&mut query, &mut where_is_inserted);
        query.append(" amount >= ?");
        params.push(BindValue::Cents(amount_min));
    }
    if let Some(amount_max) = filters.amount_max {
        push_where_or_and(&mut query, &mut where_is_inserted);
        query.append(" amount <= ?");
        params.push(BindValue::Cents(amount_max));
    }
    if let Some(start_time) = filters.start_time {
        push_where_or_and(&mut query, &mut where_is_inserted);
        query.append(" created_at >= ?");
        params.push(BindValue::Time(start_time));
    }
    if let Some(end_time) = filters.end_time {
        push_where_or_and(&mut query, &mut where_is_inserted);
        query.append(" created_at <= ?");
        params.push(BindValue::Time(end_time));
    }
    proof {
        assert(params_model(params@) =~= spec_build_params(*filters));
    }
    (query, params)
}

/// Law: an empty filter set yields the base query unchanged and zero bound
/// parameters.
pub proof fn lemma_build_empty(f: FilterSet)
    requires
        spec_is_empty(f),
    ensures
        spec_build_sql(f) == spec_base_query(),
        spec_build_params(f) == Seq::<BindValueModel>::empty(),
{
}

/// Law: the SQL text depends only on which filters are present, never on
/// their values — two filter sets of the same shape yield the same text.
pub proof fn lemma_sql_determined_by_shape(f1: FilterSet, f2: FilterSet)
    requires
        spec_same_shape(f1, f2),
    ensures
        spec_build_sql(f1) == spec_build_sql(f2),
{
}

/// Law: a filter set holding exactly a user and a category yields the base
/// query followed by `WHERE user_id = ?` and then `AND category = ?`, in
/// that fixed order, with the two values bound in the same order.
pub proof fn lemma_build_user_and_category(f: FilterSet)
    requires
        f.user_id is Some,
        f.category is Some,
        f.transaction_type is None,
        f.amount_min is None,
        f.amount_max is None,
        f.start_time is None,
        f.end_time is None,
    ensures
        spec_build_sql(f) == spec_base_query() + " WHERE"@ + " user_id = ?"@ + " AND"@
            + " category = ?"@,
        spec_build_params(f) =~= seq![
            BindValueModel::Id(f.user_id->0),
            BindValueModel::Text(spec_category_label(f.category->0)),
        ],
{
}

/// Law: the user-and-category query, byte for byte.
pub proof fn lemma_build_user_and_category_text(f: FilterSet)
    requires
        f.user_id is Some,
        f.category is Some,
        f.transaction_type is None,
        f.amount_min is None,
        f.amount_max is None,
        f.start_time is None,
        f.end_time is None,
    ensures
        spec_build_sql(f) == "SELECT * FROM transactions WHERE user_id = ? AND category = ?"@,
{
    lemma_build_user_and_category(f);
    reveal_strlit("SELECT * FROM transactions");
    reveal_strlit(" WHERE");
    reveal_strlit(" user_id = ?");
    reveal_strlit(" AND");
    reveal_strlit(" category = ?");
    reveal_strlit("SELECT * FROM transactions WHERE user_id = ? AND category = ?");
    assert(spec_build_sql(f) =~= "SELECT * FROM transactions WHERE user_id = ? AND category = ?"@);
}

/// The statement inserting a new user, and its ordered parameters: email,
/// display name, credential hash.
pub fn build_insert_user(user: &UserCreate) -> (r: (String, Vec<BindValue>))
    ensures
        r.0@ == "INSERT INTO users (email, name, password) VALUES (?, ?, ?)"@,
        params_model(r.1@) =~= seq![
            BindValueModel::Text(user.email@),
            BindValueModel::Text(user.name@),
            BindValueModel::Text(user.password@),
        ],
{
    let sql = "INSERT INTO users (email, name, password) VALUES (?, ?, ?)".to_owned();
    let mut params: Vec<BindValue> = Vec::new();
    params.push(BindValue::Text(user.email.clone()));
    params.push(BindValue::Text(user.name.clone()));
    params.push(BindValue::Text(user.password.clone()));
    (sql, params)
}

/// The statement fetching one user by email, and its single parameter.
pub fn build_select_user_by_email(email: &str) -> (r: (String, Vec<BindValue>))
    ensures
        r.0@ == "SELECT id, email, name, password, created_at, updated_at FROM users WHERE email = ? LIMIT 1"@,
        params_model(r.1@) =~= seq![BindValueModel::Text(email@)],
{
    let sql =
        "SELECT id, email, name, password, created_at, updated_at FROM users WHERE email = ? LIMIT 1".to_owned();
    let mut params: Vec<BindValue> = Vec::new();
    params.push(BindValue::Text(email.to_owned()));
    (sql, params)
}

/// The statement fetching every user; it binds nothing.
pub fn build_select_all_users() -> (r: String)
    ensures
        r@ == "SELECT id, email, name, password, created_at, updated_at FROM users"@,
{
    "SELECT id, email, name, password, created_at, updated_at FROM users".to_owned()
}

/// The statement inserting a transaction, and its ordered parameters: the
/// owning user, the canonical kind label, the signed amount, the canonical
/// category label, the description.
pub fn build_insert_transaction(t: &TransactionCreate) -> (r: (String, Vec<BindValue>))
    ensures
        r.0@ == "INSERT INTO transactions (user_id, transaction_type, amount, category, description) VALUES (?, ?, ?, ?, ?)"@,
        params_model(r.1@) =~= seq![
            BindValueModel::Id(t.user_id),
            BindValueModel::Text(spec_type_label(t.transaction_type)),
            BindValueModel::Cents(t.amount),
            BindValueModel::Text(spec_category_label(t.category)),
            BindValueModel::Text(t.description@),
        ],
{
    let sql =
        "INSERT INTO transactions (user_id, transaction_type, amount, category, description) VALUES (?, ?, ?, ?, ?)".to_owned();
    let mut params: Vec<BindValue> = Vec::new();
    params.push(BindValue::Id(t.user_id));
    params.push(BindValue::Text(t.transaction_type.to_string()));
    params.push(BindValue::Cents(t.amount));
    params.push(BindValue::Text(t.category.to_string()));
    params.push(BindValue::Text(t.description.clone()));
    (sql, params)
}

} // verus!
