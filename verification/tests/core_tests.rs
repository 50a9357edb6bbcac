use arb_sampler::config::{ConfigError, EvalParams};
use arb_sampler::evaluate::evaluate_at;
use arb_sampler::quote::{quote_output, sample, Snapshot, VenueQuote};
use arb_sampler::scheduler::{plan_tick, scheduler_step, SchedulerEvent, SchedulerState, TickOutcome};

fn two_venue_snapshot(a: u128, b: u128) -> Snapshot {
    Snapshot {
        quotes: vec![
            VenueQuote::new(String::from("QuickSwap"), a),
            VenueQuote::new(String::from("SushiSwap"), b),
        ],
    }
}

fn params(cost_units: u128, min_profit_units: u128) -> EvalParams {
    EvalParams::new(1_000_000_000_000_000_000, cost_units, min_profit_units, 6, 5).unwrap()
}

const TS: &str = "2024-05-01T12:00:00+00:00";

#[test]
fn scenario_a_profitable_spread_is_recorded() {
    let snap = two_venue_snapshot(1_000_000, 1_050_000);
    let p = params(10_000, 30_000);
    let rec = evaluate_at(&snap, &p, String::from(TS)).expect("opportunity expected");
    assert_eq!(rec.buy_venue, "QuickSwap");
    assert_eq!(rec.sell_venue, "SushiSwap");
    assert_eq!(rec.profit.units, 40_000);
    assert_eq!(rec.profit.scale, 6);
    assert_eq!(rec.profit.to_decimal_string(), "0.04");
    assert_eq!(rec.observed_at, TS);
}

#[test]
fn scenario_b_spread_below_cost_yields_nothing() {
    let snap = two_venue_snapshot(1_000_000, 1_005_000);
    let p = params(10_000, 30_000);
    assert!(evaluate_at(&snap, &p, String::from(TS)).is_none());
}

#[test]
fn scenario_c_failed_fetch_yields_nothing() {
    let snap = two_venue_snapshot(0, 1_000_000);
    let p = params(10_000, 30_000);
    assert!(evaluate_at(&snap, &p, String::from(TS)).is_none());
}

#[test]
fn scenario_d_equal_quotes_yield_nothing() {
    let snap = two_venue_snapshot(1_000_000, 1_000_000);
    let p = params(10_000, 30_000);
    assert!(evaluate_at(&snap, &p, String::from(TS)).is_none());
}

#[test]
fn buy_is_reversed_when_first_venue_quotes_higher() {
    let snap = two_venue_snapshot(1_050_000, 1_000_000);
    let p = params(10_000, 30_000);
    let rec = evaluate_at(&snap, &p, String::from(TS)).expect("opportunity expected");
    assert_eq!(rec.buy_venue, "SushiSwap");
    assert_eq!(rec.sell_venue, "QuickSwap");
    assert_eq!(rec.profit.units, 40_000);
}

#[test]
fn ties_go_to_the_earliest_venue() {
    let snap = Snapshot {
        quotes: vec![
            VenueQuote::new(String::from("a"), 5),
            VenueQuote::new(String::from("b"), 3),
            VenueQuote::new(String::from("c"), 3),
            VenueQuote::new(String::from("d"), 9),
            VenueQuote::new(String::from("e"), 9),
        ],
    };
    let p = EvalParams::new(1, 0, 0, 6, 5).unwrap();
    let rec = evaluate_at(&snap, &p, String::from(TS)).expect("opportunity expected");
    assert_eq!(rec.buy_venue, "b");
    assert_eq!(rec.sell_venue, "d");
    assert_eq!(rec.profit.units, 6);
}

#[test]
fn invalid_quotes_are_discarded_before_comparison() {
    // The lone zero quote is invalid; among the rest the spread is 9 - 4.
    let snap = Snapshot {
        quotes: vec![
            VenueQuote::new(String::from("a"), 0),
            VenueQuote::new(String::from("b"), 9),
            VenueQuote::new(String::from("c"), 4),
        ],
    };
    let p = EvalParams::new(1, 1, 1, 6, 5).unwrap();
    let rec = evaluate_at(&snap, &p, String::from(TS)).expect("opportunity expected");
    assert_eq!(rec.buy_venue, "c");
    assert_eq!(rec.sell_venue, "b");
    assert_eq!(rec.profit.units, 4);
}

#[test]
fn profit_equal_to_threshold_does_not_qualify() {
    // Net profit 30,000 equals the threshold: strict inequality required.
    let snap = two_venue_snapshot(1_000_000, 1_040_000);
    let p = params(10_000, 30_000);
    assert!(evaluate_at(&snap, &p, String::from(TS)).is_none());
}

#[test]
fn quote_output_selects_the_second_amount() {
    assert_eq!(quote_output(&vec![1_000_000, 2_000_000, 3]), 2_000_000);
    assert_eq!(quote_output(&vec![1_000_000]), 0);
    assert_eq!(quote_output(&vec![]), 0);
}

#[test]
fn sample_keeps_venue_order_and_marks_failures() {
    let ids = vec![String::from("QuickSwap"), String::from("SushiSwap")];
    let reported = vec![vec![1_000_000_u128, 42], vec![]];
    let snap = sample(&ids, &reported);
    assert_eq!(snap.quotes.len(), 2);
    assert_eq!(snap.quotes[0].venue_id, "QuickSwap");
    assert_eq!(snap.quotes[0].output_amount, 42);
    assert!(snap.quotes[0].valid);
    assert_eq!(snap.quotes[1].venue_id, "SushiSwap");
    assert_eq!(snap.quotes[1].output_amount, 0);
    assert!(!snap.quotes[1].valid);
}

#[test]
fn config_rejects_zero_trade_size() {
    assert_eq!(
        EvalParams::new(0, 1, 1, 6, 5).unwrap_err(),
        ConfigError::ZeroTradeSize
    );
}

#[test]
fn config_rejects_zero_interval() {
    assert_eq!(
        EvalParams::new(1, 1, 1, 6, 0).unwrap_err(),
        ConfigError::ZeroInterval
    );
}

#[test]
fn config_rejects_oversized_scale() {
    assert_eq!(
        EvalParams::new(1, 1, 1, 39, 5).unwrap_err(),
        ConfigError::ScaleTooLarge
    );
}

#[test]
fn config_accepts_and_keeps_valid_values() {
    let p = EvalParams::new(7, 10_000, 30_000, 6, 5).unwrap();
    assert_eq!(p.trade_size, 7);
    assert_eq!(p.cost_units, 10_000);
    assert_eq!(p.min_profit_units, 30_000);
    assert_eq!(p.scale, 6);
    assert_eq!(p.interval_secs, 5);
}

#[test]
fn plan_tick_reports_each_outcome() {
    let p = params(10_000, 30_000);

    let one_valid = two_venue_snapshot(0, 1_000_000);
    assert!(matches!(
        plan_tick(&one_valid, &p, String::from(TS)),
        TickOutcome::InsufficientQuotes
    ));

    let equal = two_venue_snapshot(1_000_000, 1_000_000);
    assert!(matches!(plan_tick(&equal, &p, String::from(TS)), TickOutcome::NoSpread));

    let small = two_venue_snapshot(1_000_000, 1_005_000);
    assert!(matches!(
        plan_tick(&small, &p, String::from(TS)),
        TickOutcome::BelowThreshold
    ));

    let wide = two_venue_snapshot(1_000_000, 1_050_000);
    match plan_tick(&wide, &p, String::from(TS)) {
        TickOutcome::Opportunity(rec) => {
            assert_eq!(rec.buy_venue, "QuickSwap");
            assert_eq!(rec.sell_venue, "SushiSwap");
            assert_eq!(rec.profit.units, 40_000);
        }
        _ => panic!("expected an opportunity"),
    }
}

#[test]
fn scheduler_runs_a_cycle_only_from_idle() {
    let (s, run) = scheduler_step(SchedulerState::Idle, SchedulerEvent::TickElapsed);
    assert_eq!(s, SchedulerState::Evaluating);
    assert!(run);

    let (s, run) = scheduler_step(SchedulerState::Evaluating, SchedulerEvent::TickElapsed);
    assert_eq!(s, SchedulerState::Evaluating);
    assert!(!run);

    let (s, run) = scheduler_step(SchedulerState::Evaluating, SchedulerEvent::CycleCompleted);
    assert_eq!(s, SchedulerState::Idle);
    assert!(!run);
}
