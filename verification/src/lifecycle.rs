use crate::state::{Will, WillEvent, WillStatus};
use vstd::prelude::*;

verus! {

/// A will after deposits at the given times, one after the other.
pub open spec fn after_deposits(will: Will, times: Seq<i64>) -> Will
    decreases times.len(),
{
    if times.len() == 0 {
        will
    } else {
        after_deposits(will, times.drop_last()).spec_deposited(times.last())
    }
}

/// After one deposit or more, a will is what the last deposit alone would
/// have made of it.
pub proof fn lemma_after_deposits_closed_form(will: Will, times: Seq<i64>)
    ensures
        after_deposits(will, times) == (if times.len() == 0 {
            will
        } else {
            will.spec_deposited(times.last())
        }),
    decreases times.len(),
{
    if times.len() > 0 {
        lemma_after_deposits_closed_form(will, times.drop_last());
    }
}

/// Every deposit into a will that is created or active is admitted, restarts
/// the timer at its own time and leaves the will active. So only the first
/// deposit into a created will changes its status; every later one finds it
/// active already. Nothing else of the will changes.
pub proof fn lemma_deposits_refresh_and_activate(will: Will, times: Seq<i64>)
    requires
        will.status == WillStatus::Created || will.status == WillStatus::Active,
    ensures
        forall|k: int|
            0 <= k < times.len() ==> (#[trigger] after_deposits(
                will,
                times.take(k),
            )).status.spec_transition(WillEvent::Deposit) == Ok::<WillStatus, crate::error::AppError>(
                WillStatus::Active,
            ),
        forall|k: int|
            1 <= k <= times.len() ==> {
                &&& (#[trigger] after_deposits(will, times.take(k))).status == WillStatus::Active
                &&& after_deposits(will, times.take(k)).last_heartbeat == times[k - 1]
            },
        after_deposits(will, times) == (if times.len() == 0 {
            will
        } else {
            will.spec_deposited(times.last())
        }),
{
    assert forall|k: int| 0 <= k <= times.len() implies #[trigger] after_deposits(
        will,
        times.take(k),
    ) == (if k == 0 {
        will
    } else {
        will.spec_deposited(times[k - 1])
    }) by {
        lemma_after_deposits_closed_form(will, times.take(k));
    }
    assert(times.take(times.len() as int) =~= times);
}

} // verus!
