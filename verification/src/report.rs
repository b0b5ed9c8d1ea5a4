//! Result reporting: the summary counts of a run.

use vstd::prelude::*;

use crate::events::count_state;
use crate::text::str_eq;
use crate::verify::CaseResult;

verus! {

/// How many cases ran, passed, failed and were skipped.
#[derive(Debug, Clone, Copy, PartialEq, Eq, Structural)]
pub struct Summary {
    pub total: usize,
    pub passed: usize,
    pub failed: usize,
    pub skipped: usize,
}

/// The statuses of a run's results.
pub open spec fn statuses(results: Seq<CaseResult>) -> Seq<Seq<char>> {
    results.map_values(|r: CaseResult| r.result@)
}

/// Count the results of a run by status.
pub fn summarize(results: &Vec<CaseResult>) -> (s: Summary)
    ensures
        s.total == results@.len(),
        s.passed == count_state(statuses(results@), "PASS"@),
        s.failed == count_state(statuses(results@), "FAIL"@),
        s.skipped == count_state(statuses(results@), "SKIP"@),
{
    let ghost all = statuses(results@);
    let mut passed: usize = 0;
    let mut failed: usize = 0;
    let mut skipped: usize = 0;
    let mut i: usize = 0;
    while i < results.len()
        invariant
            i <= results.len(),
            all == statuses(results@),
            passed == count_state(all.take(i as int), "PASS"@),
            failed == count_state(all.take(i as int), "FAIL"@),
            skipped == count_state(all.take(i as int), "SKIP"@),
            passed <= i,
            failed <= i,
            skipped <= i,
        decreases results.len() - i,
    {
        assert(all.take(i + 1).drop_last() =~= all.take(i as int));
        assert(all.take(i + 1).last() == results@[i as int].result@);
        let status = results[i].result.as_str();
        if str_eq(status, "PASS") {
            passed = passed + 1;
        }
        if str_eq(status, "FAIL") {
            failed = failed + 1;
        }
        if str_eq(status, "SKIP") {
            skipped = skipped + 1;
        }
        i = i + 1;
    }
    assert(all.take(results.len() as int) =~= all);
    Summary { total: results.len(), passed, failed, skipped }
}

} // verus!
