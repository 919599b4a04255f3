//! The grace period state machine that decides when a resource reading turns into an alert.
//!
//! A reading is either below its limit or at/above it. A counter of consecutive readings
//! at/above the limit is kept per resource; the alert fires when the counter reaches the
//! grace setting, and a recovery notice follows once the resource is back below its limit.
use vstd::prelude::*;

verus! {

/// Outcome of comparing one reading with its limit, given the grace setting and the
/// number of consecutive readings at/above the limit seen so far.
#[derive(Debug, Clone, Copy, PartialEq, Eq, Structural)]
pub enum ResourceEvaluation {
    /// Below the limit, no alert had been raised.
    Normal,
    /// At/above the limit, still within the grace period.
    Exceeding,
    /// At/above the limit, and the grace period is exhausted right now: raise the alert.
    StartsToExceed,
    /// Below the limit after an alert had been raised: send the recovery notice.
    BackToOk,
}

impl ResourceEvaluation {
    pub open spec fn spec_evaluate(below_limit: bool, grace: nat, current_grace: nat) -> ResourceEvaluation {
        if below_limit {
            if current_grace > grace {
                ResourceEvaluation::BackToOk
            } else {
                ResourceEvaluation::Normal
            }
        } else if current_grace == grace {
            ResourceEvaluation::StartsToExceed
        } else {
            ResourceEvaluation::Exceeding
        }
    }

    /// Evaluates one reading. `resource_below_limit` is whether the reading is strictly
    /// below its limit; `current_grace` counts the consecutive readings at/above the limit
    /// before this one.
    pub fn evaluate(resource_below_limit: bool, grace: usize, current_grace: usize) -> (r: ResourceEvaluation)
        ensures
            r == Self::spec_evaluate(resource_below_limit, grace as nat, current_grace as nat),
    {
        if resource_below_limit {
            if current_grace > grace {
                return ResourceEvaluation::BackToOk;
            }
            return ResourceEvaluation::Normal;
        }
        if current_grace == grace {
            return ResourceEvaluation::StartsToExceed;
        }
        ResourceEvaluation::Exceeding
    }

    /// Whether this outcome is sent out as a notification.
    pub open spec fn spec_is_notification(self) -> bool {
        self == ResourceEvaluation::StartsToExceed || self == ResourceEvaluation::BackToOk
    }

    pub fn is_notification(&self) -> (b: bool)
        ensures
            b == self.spec_is_notification(),
    {
        match self {
            ResourceEvaluation::StartsToExceed | ResourceEvaluation::BackToOk => true,
            _ => false,
        }
    }
}

/// The counter after an evaluation: readings below the limit reset it, readings at/above
/// the limit increment it.
pub open spec fn next_grace_counter(evaluation: ResourceEvaluation, counter: nat) -> nat {
    match evaluation {
        ResourceEvaluation::Normal => 0,
        ResourceEvaluation::Exceeding => counter + 1,
        ResourceEvaluation::StartsToExceed => counter + 1,
        ResourceEvaluation::BackToOk => 0,
    }
}

/// Evaluates one reading and advances its counter, as the alert actor does per resource.
/// Returns the evaluation and the new counter.
pub fn track_reading(resource_below_limit: bool, grace: usize, counter: usize) -> (r: (
    ResourceEvaluation,
    usize,
))
    requires
        resource_below_limit || counter < usize::MAX,
    ensures
        r.0 == ResourceEvaluation::spec_evaluate(resource_below_limit, grace as nat, counter as nat),
        r.1 as nat == next_grace_counter(r.0, counter as nat),
{
    let evaluation = ResourceEvaluation::evaluate(resource_below_limit, grace, counter);
    let next = match evaluation {
        ResourceEvaluation::Normal => 0,
        ResourceEvaluation::Exceeding => counter + 1,
        ResourceEvaluation::StartsToExceed => counter + 1,
        ResourceEvaluation::BackToOk => 0,
    };
    (evaluation, next)
}

/// The counter after a whole sequence of readings (`true` = below the limit), starting at 0.
pub open spec fn counter_after(readings: Seq<bool>, grace: nat) -> nat
    decreases readings.len(),
{
    if readings.len() == 0 {
        0
    } else {
        let before = counter_after(readings.drop_last(), grace);
        next_grace_counter(ResourceEvaluation::spec_evaluate(readings.last(), grace, before), before)
    }
}

/// The evaluation of the last reading of a non-empty sequence of readings.
pub open spec fn last_evaluation(readings: Seq<bool>, grace: nat) -> ResourceEvaluation {
    ResourceEvaluation::spec_evaluate(
        readings.last(),
        grace,
        counter_after(readings.drop_last(), grace),
    )
}

/// The notifications (alerts and recovery notices) a sequence of readings produces, in order.
pub open spec fn notifications(readings: Seq<bool>, grace: nat) -> Seq<ResourceEvaluation>
    decreases readings.len(),
{
    if readings.len() == 0 {
        Seq::empty()
    } else {
        let before = notifications(readings.drop_last(), grace);
        let evaluation = last_evaluation(readings, grace);
        if evaluation.spec_is_notification() {
            before.push(evaluation)
        } else {
            before
        }
    }
}

/// The number of readings at/above the limit at the end of the sequence.
pub open spec fn trailing_exceed_run(readings: Seq<bool>) -> nat
    decreases readings.len(),
{
    if readings.len() == 0 || readings.last() {
        0
    } else {
        trailing_exceed_run(readings.drop_last()) + 1
    }
}

/// A sequence of `n` readings, all at/above the limit.
pub open spec fn exceeding_readings(n: nat) -> Seq<bool> {
    Seq::new(n, |i: int| false)
}

/// Notifications alternate: the first is an alert, every alert is followed by a recovery
/// notice before the next alert.
pub open spec fn alternating_notifications(notes: Seq<ResourceEvaluation>) -> bool {
    &&& forall|i: int| 0 <= i < notes.len() ==> (#[trigger] notes[i]).spec_is_notification()
    &&& notes.len() > 0 ==> notes[0] == ResourceEvaluation::StartsToExceed
    &&& forall|i: int| 0 <= i < notes.len() - 1 ==> #[trigger] notes[i] != notes[i + 1]
}

/// The grace counter always equals the number of consecutive readings at/above the limit
/// at the end of the readings seen so far.
pub proof fn lemma_counter_counts_trailing_exceedances(readings: Seq<bool>, grace: nat)
    ensures
        counter_after(readings, grace) == trailing_exceed_run(readings),
    decreases readings.len(),
{
    if readings.len() > 0 {
        lemma_counter_counts_trailing_exceedances(readings.drop_last(), grace);
    }
}

/// A reading raises the alert exactly when it is the `grace + 1`-th consecutive reading
/// at/above the limit.
pub proof fn lemma_alert_on_exhausted_grace(readings: Seq<bool>, grace: nat)
    requires
        readings.len() > 0,
    ensures
        (last_evaluation(readings, grace) == ResourceEvaluation::StartsToExceed) <==> (
        trailing_exceed_run(readings) == grace + 1),
{
    lemma_counter_counts_trailing_exceedances(readings.drop_last(), grace);
}

proof fn lemma_notification_state(readings: Seq<bool>, grace: nat)
    ensures
        alternating_notifications(notifications(readings, grace)),
        (counter_after(readings, grace) > grace) <==> (notifications(readings, grace).len() > 0
            && notifications(readings, grace).last() == ResourceEvaluation::StartsToExceed),
    decreases readings.len(),
{
    if readings.len() > 0 {
        let prefix = readings.drop_last();
        lemma_notification_state(prefix, grace);
        let before = notifications(prefix, grace);
        let evaluation = last_evaluation(readings, grace);
        if evaluation.spec_is_notification() {
            let after = before.push(evaluation);
            assert(after.last() == evaluation);
            assert forall|i: int| 0 <= i < after.len() - 1 implies #[trigger] after[i] != after[i + 1] by {
                if i < before.len() - 1 {
                    assert(after[i] == before[i]);
                    assert(after[i + 1] == before[i + 1]);
                } else {
                    assert(after[i] == before.last());
                }
            }
            assert forall|i: int| 0 <= i < after.len() implies (#[trigger] after[i]).spec_is_notification() by {
                if i < before.len() {
                    assert(after[i] == before[i]);
                }
            }
            if before.len() > 0 {
                assert(after[0] == before[0]);
            }
        }
    }
}

/// Alerts and recovery notices alternate, starting with an alert: a resource never sends
/// two alerts without a recovery notice in between, and never a recovery notice that no
/// alert preceded.
pub proof fn lemma_notifications_alternate(readings: Seq<bool>, grace: nat)
    ensures
        alternating_notifications(notifications(readings, grace)),
{
    lemma_notification_state(readings, grace);
}

/// A recovery notice is due exactly when the resource is below its limit again after an
/// alert was raised and not yet answered by a recovery notice.
pub proof fn lemma_recovery_follows_alert(readings: Seq<bool>, grace: nat)
    requires
        readings.len() > 0,
        readings.last(),
    ensures
        (last_evaluation(readings, grace) == ResourceEvaluation::BackToOk) <==> (notifications(
            readings.drop_last(),
            grace,
        ).len() > 0 && notifications(readings.drop_last(), grace).last()
            == ResourceEvaluation::StartsToExceed),
{
    lemma_notification_state(readings.drop_last(), grace);
}

/// An uninterrupted run of `n` readings at/above the limit raises exactly one alert when it
/// outlasts the grace setting, and none otherwise.
pub proof fn lemma_one_alert_per_exceeding_run(n: nat, grace: nat)
    ensures
        notifications(exceeding_readings(n), grace) == (if n > grace {
            seq![ResourceEvaluation::StartsToExceed]
        } else {
            Seq::<ResourceEvaluation>::empty()
        }),
    decreases n,
{
    let readings = exceeding_readings(n);
    if n > 0 {
        let prefix = readings.drop_last();
        assert(prefix =~= exceeding_readings((n - 1) as nat));
        lemma_one_alert_per_exceeding_run((n - 1) as nat, grace);
        lemma_counter_counts_trailing_exceedances(prefix, grace);
        lemma_all_exceeding_run((n - 1) as nat);
        if n - 1 > grace {
            assert(notifications(readings, grace) =~= seq![ResourceEvaluation::StartsToExceed]);
        } else if n - 1 == grace {
            assert(notifications(readings, grace) =~= seq![ResourceEvaluation::StartsToExceed]);
        } else {
            assert(notifications(readings, grace) =~= Seq::<ResourceEvaluation>::empty());
        }
    } else {
        assert(notifications(readings, grace) =~= Seq::<ResourceEvaluation>::empty());
    }
}

proof fn lemma_all_exceeding_run(n: nat)
    ensures
        trailing_exceed_run(exceeding_readings(n)) == n,
    decreases n,
{
    if n > 0 {
        assert(exceeding_readings(n).drop_last() =~= exceeding_readings((n - 1) as nat));
        lemma_all_exceeding_run((n - 1) as nat);
    }
}

/// The grace counter never exceeds the number of readings seen: each reading raises it by
/// at most one.
pub proof fn lemma_counter_bounded_by_readings(readings: Seq<bool>, grace: nat)
    ensures
        counter_after(readings, grace) <= readings.len(),
    decreases readings.len(),
{
    if readings.len() > 0 {
        lemma_counter_bounded_by_readings(readings.drop_last(), grace);
    }
}

} // verus!
