use vstd::prelude::*;
use crate::config::EvalParams;
use crate::evaluate::{
    OpportunityRecord, eval_decision, evaluate_at, first_max, first_min, lemma_extrema,
    scan_extrema,
};
use crate::quote::{Snapshot, usable_count};

verus! {

/// The scheduler's two states: waiting for the next tick, or running
/// one sample-evaluate-store cycle.
#[derive(Clone, Copy, Debug, PartialEq, Eq, Structural)]
pub enum SchedulerState {
    Idle,
    Evaluating,
}

/// What can happen to the scheduler: the fixed-period timer elapses,
/// or the cycle in flight finishes (found an opportunity or not,
/// stored it or failed to; every outcome completes the cycle).
#[derive(Clone, Copy, Debug, PartialEq, Eq, Structural)]
pub enum SchedulerEvent {
    TickElapsed,
    CycleCompleted,
}

/// The scheduler's transition function. A tick starts a cycle only
/// from Idle; a tick during a running cycle starts nothing, since the
/// next sampling round may not begin before the current one ends. A
/// completed cycle returns to Idle. There is no terminal state: the
/// loop runs until the process is terminated from outside. The
/// returned flag says whether the caller is to run one
/// sample-evaluate-store cycle now.
pub fn scheduler_step(s: SchedulerState, e: SchedulerEvent) -> (r: (SchedulerState, bool))
    ensures
        s is Idle && e is TickElapsed ==> r.0 is Evaluating && r.1,
        s is Evaluating && e is TickElapsed ==> r.0 is Evaluating && !r.1,
        e is CycleCompleted ==> r.0 is Idle && !r.1,
{
    match (s, e) {
        (SchedulerState::Idle, SchedulerEvent::TickElapsed) => (SchedulerState::Evaluating, true),
        (SchedulerState::Evaluating, SchedulerEvent::TickElapsed) => (
            SchedulerState::Evaluating,
            false,
        ),
        (_, SchedulerEvent::CycleCompleted) => (SchedulerState::Idle, false),
    }
}

/// The outcome of one tick's evaluation: what to report, and whether
/// there is an opportunity to persist.
pub enum TickOutcome {
    /// Fewer than two venues answered with usable quotes.
    InsufficientQuotes,
    /// Every usable quote is equal: no arbitrage.
    NoSpread,
    /// A spread exists, but net of the cost estimate it does not
    /// strictly exceed the minimum profit threshold.
    BelowThreshold,
    /// A qualifying opportunity, to be persisted.
    Opportunity(OpportunityRecord),
}

/// Decide one tick: evaluate the snapshot and say what the cycle is
/// to do and report. Never fails; a tick without an opportunity is an
/// ordinary outcome.
pub fn plan_tick(snapshot: &Snapshot, params: &EvalParams, observed_at: String) -> (r: TickOutcome)
    requires
        params.wf(),
    ensures
        ({
            let s = snapshot.quotes@;
            let lo = s[first_min(s).unwrap()].output_amount;
            let hi = s[first_max(s).unwrap()].output_amount;
            &&& (r is InsufficientQuotes <==> usable_count(s) < 2)
            &&& (r is NoSpread <==> usable_count(s) >= 2 && lo == hi)
            &&& (r is BelowThreshold <==> usable_count(s) >= 2 && lo < hi && hi - lo
                <= params.cost_units + params.min_profit_units)
            &&& (r is Opportunity <==> eval_decision(
                s,
                params.cost_units,
                params.min_profit_units,
            ) is Some)
        }),
        r matches TickOutcome::Opportunity(rec) ==> {
            let (i, j, net) = eval_decision(
                snapshot.quotes@,
                params.cost_units,
                params.min_profit_units,
            ).unwrap();
            &&& rec.buy_venue@ == snapshot.quotes@[i].venue_id@
            &&& rec.sell_venue@ == snapshot.quotes@[j].venue_id@
            &&& rec.profit.units == net
            &&& rec.profit.scale == params.scale
            &&& rec.profit.wf()
            &&& rec.observed_at@ == observed_at@
        },
{
    proof {
        lemma_extrema(snapshot.quotes@);
    }
    match evaluate_at(snapshot, params, observed_at) {
        Some(rec) => TickOutcome::Opportunity(rec),
        None => {
            let (min_idx, max_idx, count) = scan_extrema(&snapshot.quotes);
            if count < 2 {
                return TickOutcome::InsufficientQuotes;
            }
            let i = match min_idx {
                Some(i) => i,
                None => { return TickOutcome::InsufficientQuotes; },
            };
            let j = match max_idx {
                Some(j) => j,
                None => { return TickOutcome::InsufficientQuotes; },
            };
            let lo = snapshot.quotes[i].output_amount;
            let hi = snapshot.quotes[j].output_amount;
            if lo == hi {
                TickOutcome::NoSpread
            } else {
                TickOutcome::BelowThreshold
            }
        },
    }
}

} // verus!
