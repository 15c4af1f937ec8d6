//! Whole sessions: the reads of one editor, one after the other.

use crate::editor::{
    read_outcome, EditorReplyView, Outcome, ReadResultView, SuspendReportView,
    SuspendableErrorView,
};
use vstd::prelude::*;

verus! {

/// One read of a session: what the engine handed back, and what the driver
/// reports if a suspension is asked for.
pub type Round = (EditorReplyView, SuspendReportView);

/// Whether a read ended as suspended.
pub open spec fn is_suspended(outcome: Outcome) -> bool {
    outcome == Ok::<ReadResultView, SuspendableErrorView>(ReadResultView::Suspended)
}

/// The outcomes of the reads of a session, in order.
pub open spec fn session_outcomes(marker: Seq<char>, rounds: Seq<Round>) -> Seq<Outcome> {
    rounds.map_values(|round: Round| read_outcome(marker, round.0, round.1))
}

/// Holds of the rounds that do not end as suspended.
pub open spec fn round_counts(marker: Seq<char>) -> spec_fn(Round) -> bool {
    |round: Round| !is_suspended(read_outcome(marker, round.0, round.1))
}

/// Holds of the outcomes other than suspended.
pub open spec fn outcome_counts() -> spec_fn(Outcome) -> bool {
    |outcome: Outcome| !is_suspended(outcome)
}

/// Suspensions leave no trace in a session: however many reads end as
/// suspended, and wherever they fall, the other reads end as they would in
/// the session without them.
pub proof fn lemma_suspensions_leave_no_trace(marker: Seq<char>, rounds: Seq<Round>)
    ensures
        session_outcomes(marker, rounds).filter(outcome_counts()) == session_outcomes(
            marker,
            rounds.filter(round_counts(marker)),
        ),
    decreases rounds.len(),
{
    if rounds.len() == 0 {
        reveal(Seq::filter);
        assert(session_outcomes(marker, rounds).filter(outcome_counts()) =~= session_outcomes(
            marker,
            rounds.filter(round_counts(marker)),
        ));
    } else {
        let earlier = rounds.drop_last();
        let last = rounds.last();
        let outcome = read_outcome(marker, last.0, last.1);
        lemma_suspensions_leave_no_trace(marker, earlier);
        assert(rounds =~= earlier.push(last));
        assert(session_outcomes(marker, rounds) =~= session_outcomes(marker, earlier).push(
            outcome,
        ));
        earlier.lemma_filter_push(last, round_counts(marker));
        session_outcomes(marker, earlier).lemma_filter_push(outcome, outcome_counts());
        let kept = earlier.filter(round_counts(marker));
        assert(session_outcomes(marker, kept.push(last)) =~= session_outcomes(marker, kept).push(
            outcome,
        ));
    }
}

} // verus!
