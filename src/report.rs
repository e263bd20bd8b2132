//! What becomes of one symbol once the quote provider has answered.
use vstd::prelude::*;
use crate::series::{chronological_order, is_chronological_order};

verus! {

/// Decides whether a symbol is reported. `received` is None where the request
/// for its quote history failed, else the timestamps of the quotes received,
/// in the order received. The symbol is skipped, with a notice, where the
/// request failed or returned no quote; else its closing prices are read in
/// the returned order.
pub fn report_order(received: Option<Vec<u64>>) -> (r: Option<Vec<usize>>)
    ensures
        r is None <==> (received is None || received->0@.len() == 0),
        r matches Some(order) ==> is_chronological_order(received->0@, order@),
{
    match received {
        None => None,
        Some(timestamps) => {
            if timestamps.len() == 0 {
                None
            } else {
                Some(chronological_order(&timestamps))
            }
        },
    }
}

/// The notice written to the error stream for a symbol that is skipped.
pub fn no_quotes_notice(symbol: &str) -> (r: String)
    ensures
        r@ == "No quotes found for symbol '"@ + symbol@ + "'"@,
{
    let mut r = "No quotes found for symbol '".to_owned();
    r.append(symbol);
    r.append("'");
    r
}

} // verus!
