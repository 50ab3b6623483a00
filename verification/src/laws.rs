//! Laws relating the session outcome to the report line the process prints.

use vstd::prelude::*;
use crate::json::json_result;
use crate::outcome::{outcome_valid, spec_result, SessionOutcome};

verus! {

/// Law: a canceled session produces exactly the canceled report line,
/// whatever the request was.
pub proof fn lemma_cancel_report()
    ensures
        json_result(
            spec_result(SessionOutcome::Canceled).0,
            spec_result(SessionOutcome::Canceled).1,
        ) == "{\"canceled\": true, \"paths\": []}"@,
{
    reveal_strlit("{\"canceled\": ");
    reveal_strlit("true");
    reveal_strlit(", \"paths\": ");
    reveal_strlit("{\"canceled\": true, \"paths\": []}");
    assert(json_result(true, Seq::<Seq<char>>::empty()) =~= "{\"canceled\": true, \"paths\": []}"@);
}

/// Law: a confirmed single-selection session reports exactly one path.
pub proof fn lemma_single_selection(outcome: SessionOutcome)
    requires
        outcome_valid(false, outcome),
        outcome is Confirmed,
    ensures
        spec_result(outcome).1.len() == 1,
{
}

/// Law: without multi-selection a session reports at most one path, whether
/// it picks files or folders.
pub proof fn lemma_at_most_one(outcome: SessionOutcome)
    requires
        outcome_valid(false, outcome),
    ensures
        spec_result(outcome).1.len() <= 1,
{
}

/// Law: a confirmed multi-selection session reports at least one path and
/// keeps every picked path in the order the platform returned them.
pub proof fn lemma_multi_order(outcome: SessionOutcome)
    requires
        outcome_valid(true, outcome),
        outcome is Confirmed,
    ensures
        spec_result(outcome).1.len() >= 1,
        spec_result(outcome).1 == outcome->Confirmed_0.deep_view(),
{
}

/// Law: two invocations with equal user actions produce structurally equal
/// report lines; the line is a function of the outcome alone.
pub proof fn lemma_idempotent(a: SessionOutcome, b: SessionOutcome)
    requires
        a == b,
    ensures
        json_result(spec_result(a).0, spec_result(a).1) == json_result(
            spec_result(b).0,
            spec_result(b).1,
        ),
{
}

} // verus!
