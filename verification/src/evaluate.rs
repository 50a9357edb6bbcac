use vstd::prelude::*;
use crate::config::EvalParams;
use crate::decimal::DecimalAmount;
use crate::quote::{Snapshot, VenueQuote, usable_count};
use crate::clock::utc_now_rfc3339;

verus! {

/// A detected, profit-qualifying price discrepancy between two
/// venues, net of the fixed cost estimate. Immutable once created;
/// its persistent identity is assigned by the store.
pub struct OpportunityRecord {
    /// The minimum-quoting venue.
    pub buy_venue: String,
    /// The maximum-quoting venue.
    pub sell_venue: String,
    /// Net profit, in the quote token's decimal unit.
    pub profit: DecimalAmount,
    /// UTC timestamp of the observation, RFC 3339.
    pub observed_at: String,
}

/// The index of the first usable quote with the minimum output
/// amount, if any quote is usable: later quotes replace the running
/// minimum only when strictly smaller, so ties go to the earliest
/// venue in configuration order.
pub open spec fn first_min(s: Seq<VenueQuote>) -> Option<int>
    decreases s.len(),
{
    if s.len() == 0 {
        None
    } else {
        let rest = first_min(s.drop_last());
        if s.last().usable() {
            match rest {
                None => Some(s.len() - 1),
                Some(i) => if s.last().output_amount < s[i].output_amount {
                    Some(s.len() - 1)
                } else {
                    Some(i)
                },
            }
        } else {
            rest
        }
    }
}

/// The index of the first usable quote with the maximum output
/// amount, if any quote is usable; ties go to the earliest venue.
pub open spec fn first_max(s: Seq<VenueQuote>) -> Option<int>
    decreases s.len(),
{
    if s.len() == 0 {
        None
    } else {
        let rest = first_max(s.drop_last());
        if s.last().usable() {
            match rest {
                None => Some(s.len() - 1),
                Some(i) => if s.last().output_amount > s[i].output_amount {
                    Some(s.len() - 1)
                } else {
                    Some(i)
                },
            }
        } else {
            rest
        }
    }
}

/// What the first-minimum and first-maximum indices mean: they exist
/// exactly when some quote is usable, they point at usable quotes,
/// they bound every usable quote's amount, and no earlier usable
/// quote attains the same amount.
pub proof fn lemma_extrema(s: Seq<VenueQuote>)
    ensures
        first_min(s) is Some <==> usable_count(s) > 0,
        first_max(s) is Some <==> usable_count(s) > 0,
        first_min(s) is Some ==> {
            let i = first_min(s).unwrap();
            &&& 0 <= i < s.len()
            &&& s[i].usable()
            &&& forall|j: int|
                0 <= j < s.len() && (#[trigger] s[j]).usable() ==> s[i].output_amount
                    <= s[j].output_amount
            &&& forall|j: int|
                0 <= j < i && (#[trigger] s[j]).usable() ==> s[i].output_amount
                    < s[j].output_amount
        },
        first_max(s) is Some ==> {
            let i = first_max(s).unwrap();
            &&& 0 <= i < s.len()
            &&& s[i].usable()
            &&& forall|j: int|
                0 <= j < s.len() && (#[trigger] s[j]).usable() ==> s[j].output_amount
                    <= s[i].output_amount
            &&& forall|j: int|
                0 <= j < i && (#[trigger] s[j]).usable() ==> s[j].output_amount
                    < s[i].output_amount
        },
    decreases s.len(),
{
    if s.len() > 0 {
        let t = s.drop_last();
        lemma_extrema(t);
        lemma_no_usable(t);
        assert(forall|j: int| 0 <= j < s.len() - 1 ==> t[j] == s[j]);
        let last = s.len() - 1;
        if s.last().usable() {
            if first_min(t) is Some {
                let i = first_min(t).unwrap();
                if s.last().output_amount < s[i].output_amount {
                    assert forall|j: int|
                        0 <= j < s.len() && (#[trigger] s[j]).usable() implies s[last].output_amount
                        <= s[j].output_amount by {
                        if j < last {
                            assert(t[j].usable());
                        }
                    }
                    assert forall|j: int|
                        0 <= j < last && (#[trigger] s[j]).usable() implies s[last].output_amount
                        < s[j].output_amount by {
                        assert(t[j].usable());
                    }
                } else {
                    assert forall|j: int|
                        0 <= j < s.len() && (#[trigger] s[j]).usable() implies s[i].output_amount
                        <= s[j].output_amount by {
                        if j < last {
                            assert(t[j].usable());
                        }
                    }
                }
            } else {
                assert forall|j: int|
                    0 <= j < s.len() && (#[trigger] s[j]).usable() implies s[last].output_amount
                    <= s[j].output_amount by {
                    if j < last {
                        assert(t[j].usable());
                    }
                }
            }
            if first_max(t) is Some {
                let i = first_max(t).unwrap();
                if s.last().output_amount > s[i].output_amount {
                    assert forall|j: int|
                        0 <= j < s.len() && (#[trigger] s[j]).usable() implies s[j].output_amount
                        <= s[last].output_amount by {
                        if j < last {
                            assert(t[j].usable());
                        }
                    }
                    assert forall|j: int|
                        0 <= j < last && (#[trigger] s[j]).usable() implies s[j].output_amount
                        < s[last].output_amount by {
                        assert(t[j].usable());
                    }
                } else {
                    assert forall|j: int|
                        0 <= j < s.len() && (#[trigger] s[j]).usable() implies s[j].output_amount
                        <= s[i].output_amount by {
                        if j < last {
                            assert(t[j].usable());
                        }
                    }
                }
            } else {
                assert forall|j: int|
                    0 <= j < s.len() && (#[trigger] s[j]).usable() implies s[j].output_amount
                    <= s[last].output_amount by {
                    if j < last {
                        assert(t[j].usable());
                    }
                }
            }
        } else {
            if first_min(t) is Some {
                let i = first_min(t).unwrap();
                assert forall|j: int|
                    0 <= j < s.len() && (#[trigger] s[j]).usable() implies s[i].output_amount
                    <= s[j].output_amount by {
                    if j < last {
                        assert(t[j].usable());
                    }
                }
            }
            if first_max(t) is Some {
                let i = first_max(t).unwrap();
                assert forall|j: int|
                    0 <= j < s.len() && (#[trigger] s[j]).usable() implies s[j].output_amount
                    <= s[i].output_amount by {
                    if j < last {
                        assert(t[j].usable());
                    }
                }
            }
        }
    }
}

/// A snapshot has no usable quote exactly when its usable count is
/// zero.
pub proof fn lemma_no_usable(s: Seq<VenueQuote>)
    ensures
        usable_count(s) == 0 <==> (forall|j: int| 0 <= j < s.len() ==> !(#[trigger] s[j]).usable()),
    decreases s.len(),
{
    if s.len() > 0 {
        let t = s.drop_last();
        lemma_no_usable(t);
        assert(forall|j: int| 0 <= j < s.len() - 1 ==> t[j] == s[j]);
        if usable_count(s) == 0 {
            assert forall|j: int| 0 <= j < s.len() implies !(#[trigger] s[j]).usable() by {
                if j < s.len() - 1 {
                    assert(!t[j].usable());
                }
            }
        }
    }
}

/// The evaluation decision over a snapshot: nothing unless at least
/// two quotes are usable and the spread between the maximum and
/// minimum usable quote exceeds the cost estimate by strictly more
/// than the minimum profit threshold; otherwise the buy index, sell
/// index and net profit in smallest units.
pub open spec fn eval_decision(
    s: Seq<VenueQuote>,
    cost_units: u128,
    min_profit_units: u128,
) -> Option<(int, int, u128)> {
    if usable_count(s) < 2 {
        None
    } else {
        let i = first_min(s).unwrap();
        let j = first_max(s).unwrap();
        let lo = s[i].output_amount;
        let hi = s[j].output_amount;
        if hi - lo > cost_units + min_profit_units {
            Some((i, j, (hi - lo - cost_units) as u128))
        } else {
            None
        }
    }
}

/// One pass over the snapshot: the first-minimum index, the
/// first-maximum index, and how many quotes are usable.
pub(crate) fn scan_extrema(quotes: &Vec<VenueQuote>) -> (r: (Option<usize>, Option<usize>, usize))
    ensures
        (r.0 is Some <==> first_min(quotes@) is Some),
        (r.1 is Some <==> first_max(quotes@) is Some),
        r.0 is Some ==> r.0.unwrap() == first_min(quotes@).unwrap(),
        r.1 is Some ==> r.1.unwrap() == first_max(quotes@).unwrap(),
        r.2 == usable_count(quotes@),
{
    let ghost s = quotes@;
    let n = quotes.len();
    let mut min_idx: Option<usize> = None;
    let mut max_idx: Option<usize> = None;
    let mut count: usize = 0;
    let mut k: usize = 0;
    while k < n
        invariant
            n == s.len(),
            s == quotes@,
            k <= n,
            count == usable_count(s.take(k as int)),
            count <= k,
            (min_idx is Some <==> first_min(s.take(k as int)) is Some),
            min_idx is Some ==> min_idx.unwrap() == first_min(s.take(k as int)).unwrap(),
            (max_idx is Some <==> first_max(s.take(k as int)) is Some),
            max_idx is Some ==> max_idx.unwrap() == first_max(s.take(k as int)).unwrap(),
        decreases n - k,
    {
        proof {
            assert(s.take(k + 1).drop_last() =~= s.take(k as int));
            assert(s.take(k + 1).last() == s[k as int]);
            lemma_extrema(s.take(k as int));
        }
        let q = &quotes[k];
        if q.valid && q.output_amount > 0 {
            count = count + 1;
            match min_idx {
                None => { min_idx = Some(k); },
                Some(i) => {
                    if q.output_amount < quotes[i].output_amount {
                        min_idx = Some(k);
                    }
                },
            }
            match max_idx {
                None => { max_idx = Some(k); },
                Some(i) => {
                    if q.output_amount > quotes[i].output_amount {
                        max_idx = Some(k);
                    }
                },
            }
        }
        k = k + 1;
    }
    proof {
        assert(s.take(n as int) =~= s);
    }
    (min_idx, max_idx, count)
}

/// Evaluate one snapshot against the configured cost estimate and
/// minimum profit threshold, stamping any detected opportunity with
/// the given observation timestamp. Never fails: the absence of an
/// opportunity is an ordinary outcome.
pub fn evaluate_at(snapshot: &Snapshot, params: &EvalParams, observed_at: String) -> (r: Option<
    OpportunityRecord,
>)
    requires
        params.wf(),
    ensures
        (r is Some) == (eval_decision(
            snapshot.quotes@,
            params.cost_units,
            params.min_profit_units,
        ) is Some),
        r is Some ==> {
            let (i, j, net) = eval_decision(
                snapshot.quotes@,
                params.cost_units,
                params.min_profit_units,
            ).unwrap();
            &&& r.unwrap().buy_venue@ == snapshot.quotes@[i].venue_id@
            &&& r.unwrap().sell_venue@ == snapshot.quotes@[j].venue_id@
            &&& r.unwrap().profit.units == net
            &&& r.unwrap().profit.scale == params.scale
            &&& r.unwrap().profit.wf()
            &&& r.unwrap().observed_at@ == observed_at@
        },
{
    let (min_idx, max_idx, count) = scan_extrema(&snapshot.quotes);
    proof {
        lemma_extrema(snapshot.quotes@);
    }
    if count < 2 {
        return None;
    }
    let i = match min_idx {
        Some(i) => i,
        None => { return None; },
    };
    let j = match max_idx {
        Some(j) => j,
        None => { return None; },
    };
    let lo = snapshot.quotes[i].output_amount;
    let hi = snapshot.quotes[j].output_amount;
    let diff = hi - lo;
    if diff > params.cost_units {
        let net = diff - params.cost_units;
        if net > params.min_profit_units {
            return Some(
                OpportunityRecord {
                    buy_venue: snapshot.quotes[i].venue_id.clone(),
                    sell_venue: snapshot.quotes[j].venue_id.clone(),
                    profit: DecimalAmount::new(net, params.scale),
                    observed_at,
                },
            );
        }
    }
    None
}

/// Evaluate one snapshot, stamping any detected opportunity with the
/// current UTC time.
pub fn evaluate(snapshot: &Snapshot, params: &EvalParams) -> (r: Option<OpportunityRecord>)
    requires
        params.wf(),
    ensures
        (r is Some) == (eval_decision(
            snapshot.quotes@,
            params.cost_units,
            params.min_profit_units,
        ) is Some),
        r is Some ==> {
            let (i, j, net) = eval_decision(
                snapshot.quotes@,
                params.cost_units,
                params.min_profit_units,
            ).unwrap();
            &&& r.unwrap().buy_venue@ == snapshot.quotes@[i].venue_id@
            &&& r.unwrap().sell_venue@ == snapshot.quotes@[j].venue_id@
            &&& r.unwrap().profit.units == net
            &&& r.unwrap().profit.scale == params.scale
            &&& r.unwrap().profit.wf()
        },
{
    let now = utc_now_rfc3339();
    evaluate_at(snapshot, params, now)
}

/// Law: when every venue reports the same output amount, no
/// opportunity is found.
pub proof fn lemma_equal_quotes_no_opportunity(
    s: Seq<VenueQuote>,
    cost_units: u128,
    min_profit_units: u128,
)
    requires
        forall|i: int|
            0 <= i < s.len() ==> (#[trigger] s[i]).output_amount == s[0].output_amount,
    ensures
        eval_decision(s, cost_units, min_profit_units) is None,
{
    lemma_extrema(s);
}

/// Law: a snapshot with exactly one usable quote yields no
/// opportunity.
pub proof fn lemma_single_quote_no_opportunity(
    s: Seq<VenueQuote>,
    cost_units: u128,
    min_profit_units: u128,
)
    requires
        usable_count(s) == 1,
    ensures
        eval_decision(s, cost_units, min_profit_units) is None,
{
}

/// Law: when the spread between the maximum and minimum usable quote
/// does not exceed the cost estimate, the net profit is floored at
/// zero and no opportunity is found.
pub proof fn lemma_spread_within_cost_no_opportunity(
    s: Seq<VenueQuote>,
    cost_units: u128,
    min_profit_units: u128,
)
    requires
        usable_count(s) >= 2,
        s[first_max(s).unwrap()].output_amount - s[first_min(s).unwrap()].output_amount
            <= cost_units,
    ensures
        eval_decision(s, cost_units, min_profit_units) is None,
{
    lemma_extrema(s);
}

/// Law: when the spread exceeds the cost estimate and the remainder
/// strictly exceeds the minimum profit threshold, an opportunity is
/// found whose buy venue is the minimum-quoting venue and whose sell
/// venue is the maximum-quoting venue, with the net spread as profit.
pub proof fn lemma_profitable_spread_yields_opportunity(
    s: Seq<VenueQuote>,
    cost_units: u128,
    min_profit_units: u128,
)
    requires
        usable_count(s) >= 2,
        s[first_max(s).unwrap()].output_amount - s[first_min(s).unwrap()].output_amount
            > cost_units,
        s[first_max(s).unwrap()].output_amount - s[first_min(s).unwrap()].output_amount
            - cost_units > min_profit_units,
    ensures
        eval_decision(s, cost_units, min_profit_units) is Some,
        ({
            let (i, j, net) = eval_decision(s, cost_units, min_profit_units).unwrap();
            &&& i == first_min(s).unwrap()
            &&& j == first_max(s).unwrap()
            &&& s[i].usable() && s[j].usable()
            &&& forall|k: int|
                0 <= k < s.len() && (#[trigger] s[k]).usable() ==> s[i].output_amount
                    <= s[k].output_amount <= s[j].output_amount
            &&& net == s[j].output_amount - s[i].output_amount - cost_units
        }),
{
    lemma_extrema(s);
}

} // verus!
