//! Reading the idps-fw SQLite state: the `firewall_event` table stores
//! `event_type` and `action` as JSON-quoted enum names (such as `"Block"`);
//! they are unquoted here so the orchestrator receives clean names. The
//! report status counts events by their delivery state.

use vstd::prelude::*;

use crate::json::{json_string_from_str, json_string_literal};
use crate::text::str_eq;

verus! {

/// The clean name of a stored enum column: the string the column's JSON
/// literal denotes, or the column as it is when it is no JSON string.
pub open spec fn unquoted(value: Seq<char>) -> Seq<char> {
    match json_string_literal(value) {
        Some(t) => t,
        None => value,
    }
}

/// Strip the surrounding JSON quotes from a stored enum column.
pub fn unquote(value: &str) -> (s: String)
    ensures
        s@ == unquoted(value@),
{
    match json_string_from_str(value) {
        Some(t) => t,
        None => value.to_string(),
    }
}

/// How many of `states` equal `state`.
pub open spec fn count_state(states: Seq<Seq<char>>, state: Seq<char>) -> nat
    decreases states.len(),
{
    if states.len() == 0 {
        0
    } else {
        count_state(states.drop_last(), state) + if states.last() == state {
            1nat
        } else {
            0nat
        }
    }
}

/// How many events are in delivery state `state` (such as `sent` or
/// `pending`).
pub fn count_report_state(states: &Vec<String>, state: &str) -> (n: usize)
    ensures
        n == count_state(states@.map_values(|s: String| s@), state@),
{
    let ghost all = states@.map_values(|s: String| s@);
    let mut n: usize = 0;
    let mut i: usize = 0;
    while i < states.len()
        invariant
            i <= states.len(),
            all == states@.map_values(|s: String| s@),
            n == count_state(all.take(i as int), state@),
            n <= i,
        decreases states.len() - i,
    {
        assert(all.take(i + 1).drop_last() =~= all.take(i as int));
        if str_eq(states[i].as_str(), state) {
            n = n + 1;
        }
        i = i + 1;
    }
    assert(all.take(states.len() as int) =~= all);
    n
}

} // verus!
