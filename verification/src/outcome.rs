//! The outcome of one dialog session and the result handed to callers.

use vstd::prelude::*;

verus! {

/// How one dialog session ended: dismissed by the user, or confirmed with
/// the picked paths in the order the platform returned them.
pub enum SessionOutcome {
    Canceled,
    Confirmed(Vec<String>),
}

/// The result of one invocation. When `canceled` holds, `paths` is empty;
/// otherwise `paths` holds the picked paths in selection order.
pub struct DialogResult {
    pub canceled: bool,
    pub paths: Vec<String>,
}

/// The dialog never confirms an empty selection, and hands back exactly one
/// item unless multi-selection was allowed.
pub open spec fn outcome_valid(multi: bool, outcome: SessionOutcome) -> bool {
    match outcome {
        SessionOutcome::Canceled => true,
        SessionOutcome::Confirmed(paths) => paths@.len() >= 1 && (!multi ==> paths@.len() == 1),
    }
}

/// The report that an outcome maps to: cancellation gives the empty report,
/// confirmation keeps the picked paths and their order.
pub open spec fn spec_result(outcome: SessionOutcome) -> (bool, Seq<Seq<char>>) {
    match outcome {
        SessionOutcome::Canceled => (true, Seq::<Seq<char>>::empty()),
        SessionOutcome::Confirmed(paths) => (false, paths.deep_view()),
    }
}

impl DialogResult {
    /// Cancellation reports no paths; a confirmed result reports at least
    /// one.
    pub open spec fn well_formed(&self) -> bool {
        if self.canceled {
            self.paths@.len() == 0
        } else {
            self.paths@.len() >= 1
        }
    }
}

/// Translates how the session ended into the result handed to callers:
/// cancellation is a normal outcome with no paths, confirmation keeps every
/// picked path in selection order.
pub fn run_outcome(multi: bool, outcome: SessionOutcome) -> (r: DialogResult)
    requires
        outcome_valid(multi, outcome),
    ensures
        (r.canceled, r.paths.deep_view()) == spec_result(outcome),
        r.canceled == (outcome is Canceled),
        r.well_formed(),
        !multi ==> r.paths@.len() <= 1,
        outcome is Confirmed ==> r.paths@.len() >= 1 && r.paths.deep_view()
            == outcome->Confirmed_0.deep_view(),
{
    match outcome {
        SessionOutcome::Canceled => {
            let paths: Vec<String> = Vec::new();
            proof {
                assert(paths.deep_view() =~= Seq::<Seq<char>>::empty());
            }
            DialogResult { canceled: true, paths }
        },
        SessionOutcome::Confirmed(paths) => DialogResult { canceled: false, paths },
    }
}

} // verus!
