//! The aggregator: folds a filtered transaction set into one signed total.
//!
//! Aggregation demands a user filter — its absence is a client error, not a
//! silent sum across every user — and folds with exact integer addition
//! starting from zero, so an empty filtered set yields exact zero and
//! repeated runs never drift. The total is a 128-bit value: no sum of
//! 64-bit amounts can overflow it, whatever the result set's size, which is
//! proved rather than assumed.

use vstd::prelude::*;

use crate::builder::{
    build_transaction_query, params_model, spec_build_params, spec_build_sql, BindValue,
    FilterSet,
};
use crate::errors::WalletError;
use crate::models::TransactionQuery;
use crate::rows::{
    map_rows_to_transactions, spec_row_error, spec_row_ok, spec_tx_matches_row, TransactionRow,
};

verus! {

/// The exact sum of a sequence of typed transaction amounts.
pub open spec fn spec_sum_transactions(ts: Seq<TransactionQuery>) -> int
    decreases ts.len(),
{
    if ts.len() == 0 {
        0
    } else {
        spec_sum_transactions(ts.drop_last()) + ts.last().amount
    }
}

/// The exact sum of the amounts of a sequence of raw rows.
pub open spec fn spec_sum_rows(rows: Seq<TransactionRow>) -> int
    decreases rows.len(),
{
    if rows.len() == 0 {
        0
    } else {
        spec_sum_rows(rows.drop_last()) + rows.last().amount
    }
}

/// Law: summing an empty result set yields exact zero.
pub proof fn lemma_sum_empty()
    ensures
        spec_sum_transactions(Seq::<TransactionQuery>::empty()) == 0,
        spec_sum_rows(Seq::<TransactionRow>::empty()) == 0,
{
}

/// Two sequences whose amounts agree index by index have the same sum; in
/// particular a mapped result set sums to what its raw rows sum to.
proof fn lemma_sum_of_matching(ts: Seq<TransactionQuery>, rows: Seq<TransactionRow>)
    requires
        ts.len() == rows.len(),
        forall|i: int| 0 <= i < ts.len() ==> #[trigger] ts[i].amount == rows[i].amount,
    ensures
        spec_sum_transactions(ts) == spec_sum_rows(rows),
    decreases ts.len(),
{
    if ts.len() > 0 {
        lemma_sum_of_matching(ts.drop_last(), rows.drop_last());
    }
}

/// Every partial sum of 64-bit amounts stays far inside the 128-bit range.
proof fn lemma_sum_bound(ts: Seq<TransactionQuery>)
    ensures
        -(ts.len() as int) * 0x8000_0000_0000_0000 <= spec_sum_transactions(ts) <= (
        ts.len() as int) * 0x8000_0000_0000_0000,
    decreases ts.len(),
{
    if ts.len() > 0 {
        lemma_sum_bound(ts.drop_last());
    }
}

/// Folds a sequence of typed transactions into its exact signed total,
/// starting from zero, in the order given.
pub fn sum_amounts(ts: &Vec<TransactionQuery>) -> (r: i128)
    ensures
        r == spec_sum_transactions(ts@),
{
    let mut total: i128 = 0;
    let mut idx: usize = 0;
    while idx < ts.len()
        invariant
            idx <= ts@.len(),
            total == spec_sum_transactions(ts@.take(idx as int)),
        decreases ts@.len() - idx,
    {
        proof {
            lemma_sum_bound(ts@.take(idx as int));
            assert(ts@.take(idx as int + 1).drop_last() =~= ts@.take(idx as int));
        }
        total = total + ts[idx].amount as i128;
        idx = idx + 1;
    }
    proof {
        assert(ts@.take(ts@.len() as int) =~= ts@);
    }
    total
}

/// Prepares the aggregation's single filtered fetch. The user filter is
/// mandatory: without it the request fails with `MissingRequiredFilter`
/// rather than summing across every user; with it the query is exactly the
/// predicate builder's.
pub fn prepare_sum_query(filters: &FilterSet) -> (r: Result<(String, Vec<BindValue>), WalletError>)
    ensures
        r is Err <==> filters.user_id is None,
        r matches Err(e) ==> e matches WalletError::MissingRequiredFilter { field }
            && field@ == "user_id"@,
        r matches Ok(q) ==> q.0@ == spec_build_sql(*filters) && params_model(q.1@)
            == spec_build_params(*filters),
{
    if filters.user_id.is_none() {
        return Err(WalletError::MissingRequiredFilter { field: "user_id".to_owned() });
    }
    Ok(build_transaction_query(filters))
}

/// Reduces the raw rows of the aggregation's fetch to the exact signed
/// total: every row is reconstructed — atomically, as in the row mapper —
/// and the typed amounts are folded from zero. An empty set yields `Ok(0)`.
pub fn sum_mapped_rows(rows: &Vec<TransactionRow>) -> (r: Result<i128, WalletError>)
    ensures
        r is Ok <==> (forall|i: int| 0 <= i < rows@.len() ==> spec_row_ok(#[trigger] rows@[i])),
        r matches Ok(total) ==> total == spec_sum_rows(rows@),
        r matches Err(e) ==> exists|i: int|
            0 <= i < rows@.len() && !spec_row_ok(#[trigger] rows@[i]) && spec_row_error(
                e,
                rows@[i],
            ),
{
    let ts = match map_rows_to_transactions(rows) {
        Ok(ts) => ts,
        Err(e) => {
            return Err(e);
        },
    };
    let total = sum_amounts(&ts);
    proof {
        assert forall|i: int| 0 <= i < ts@.len() implies #[trigger] ts@[i].amount
            == rows@[i].amount by {
            assert(spec_tx_matches_row(ts@[i], rows@[i]));
        }
        lemma_sum_of_matching(ts@, rows@);
    }
    Ok(total)
}

} // verus!
