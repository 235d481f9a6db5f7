//! Validation of raw request values at the boundary of the core.
//!
//! Clients hand vocabulary values as strings; these functions parse them
//! strictly before anything enters the core, so no raw string travels past
//! this point. A value outside the closed vocabulary fails the whole
//! request with `InvalidEnumValue` — never a coerced default, and nothing
//! is stored.

use vstd::prelude::*;

use crate::builder::FilterSet;
use crate::errors::WalletError;
use crate::models::{spec_normalize, TransactionCreate};
use crate::vocab::{
    spec_parse_category, spec_parse_type, TransactionCategory, TransactionType,
};

verus! {

/// Assembles a filter set from raw request values, parsing the optional
/// vocabulary strings strictly. The category is checked first, then the
/// kind; the first invalid value fails the request, naming the field and
/// the rejected value. Plain values pass through unchanged.
pub fn filter_set_from_raw(
    user_id: Option<u128>,
    category: Option<&str>,
    transaction_type: Option<&str>,
    amount_min: Option<i64>,
    amount_max: Option<i64>,
    start_time: Option<i64>,
    end_time: Option<i64>,
) -> (r: Result<FilterSet, WalletError>)
    ensures
        r is Ok <==> ((category matches Some(c) ==> spec_parse_category(c@) is Some) && (
        transaction_type matches Some(k) ==> spec_parse_type(k@) is Some)),
        r matches Ok(f) ==> {
            &&& f.user_id == user_id
            &&& (match category {
                Some(c) => Some(f.category->0) == spec_parse_category(c@) && f.category is Some,
                None => f.category is None,
            })
            &&& (match transaction_type {
                Some(k) => Some(f.transaction_type->0) == spec_parse_type(k@)
                    && f.transaction_type is Some,
                None => f.transaction_type is None,
            })
            &&& f.amount_min == amount_min
            &&& f.amount_max == amount_max
            &&& f.start_time == start_time
            &&& f.end_time == end_time
        },
        r matches Err(e) ==> e is InvalidEnumValue,
        (match category {
            Some(c) => spec_parse_category(c@) is None ==> (r matches Err(e) && e
                matches WalletError::InvalidEnumValue { field, value } && field@ == "category"@
                && value@ == c@),
            None => true,
        }),
        (match transaction_type {
            Some(k) => ((category matches Some(c) ==> spec_parse_category(c@) is Some)
                && spec_parse_type(k@) is None) ==> (r matches Err(e) && e
                matches WalletError::InvalidEnumValue { field, value } && field@
                == "transaction_type"@ && value@ == k@),
            None => true,
        }),
{
    let parsed_category = match category {
        Some(c) => match TransactionCategory::from_str(c) {
            Ok(parsed) => Some(parsed),
            Err(e) => {
                return Err(e);
            },
        },
        None => None,
    };
    let parsed_type = match transaction_type {
        Some(k) => match TransactionType::from_str(k) {
            Ok(parsed) => Some(parsed),
            Err(e) => {
                return Err(e);
            },
        },
        None => None,
    };
    Ok(
        FilterSet {
            user_id,
            category: parsed_category,
            transaction_type: parsed_type,
            amount_min,
            amount_max,
            start_time,
            end_time,
        },
    )
}

/// Validates a transaction-creation request and builds the record to store:
/// the kind is parsed first, then the category when given; the amount is
/// then normalized to the sign the kind dictates. On any invalid vocabulary
/// value the whole request fails and nothing is built.
pub fn transaction_create_from_request(
    user_id: u128,
    transaction_type: &str,
    amount: i64,
    category: Option<&str>,
    description: Option<String>,
) -> (r: Result<TransactionCreate, WalletError>)
    requires
        amount > i64::MIN,
    ensures
        r is Ok <==> (spec_parse_type(transaction_type@) is Some && (category matches Some(c)
            ==> spec_parse_category(c@) is Some)),
        r matches Ok(t) ==> {
            &&& t.user_id == user_id
            &&& Some(t.transaction_type) == spec_parse_type(transaction_type@)
            &&& t.amount == spec_normalize(spec_parse_type(transaction_type@)->0, amount as int)
            &&& (match category {
                Some(c) => Some(t.category) == spec_parse_category(c@),
                None => t.category == TransactionCategory::Other,
            })
            &&& (match description {
                Some(d) => t.description == d,
                None => t.description@ == Seq::<char>::empty(),
            })
            &&& t.wf()
        },
        (spec_parse_type(transaction_type@) is None) ==> (r matches Err(e) && e
            matches WalletError::InvalidEnumValue { field, value } && field@
            == "transaction_type"@ && value@ == transaction_type@),
        (match category {
            Some(c) => (spec_parse_type(transaction_type@) is Some && spec_parse_category(c@)
                is None) ==> (r matches Err(e) && e matches WalletError::InvalidEnumValue {
                field,
                value,
            } && field@ == "category"@ && value@ == c@),
            None => true,
        }),
{
    let kind = match TransactionType::from_str(transaction_type) {
        Ok(k) => k,
        Err(e) => {
            return Err(e);
        },
    };
    let parsed_category = match category {
        Some(c) => match TransactionCategory::from_str(c) {
            Ok(parsed) => Some(parsed),
            Err(e) => {
                return Err(e);
            },
        },
        None => None,
    };
    Ok(TransactionCreate::new(user_id, kind, amount, parsed_category, description))
}

} // verus!
