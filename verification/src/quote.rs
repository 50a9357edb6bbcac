use vstd::prelude::*;

verus! {

/// A single venue's reported quote for one tick: the output amount of
/// the fixed input trade size along the fixed token path, in smallest
/// units of the output token.
pub struct VenueQuote {
    pub venue_id: String,
    pub output_amount: u128,
    pub valid: bool,
}

impl VenueQuote {
    /// A quote takes part in evaluation only when the venue call
    /// succeeded and reported a nonzero amount: the zero sentinel
    /// stands for a failed or degenerate fetch.
    pub open spec fn usable(self) -> bool {
        self.valid && self.output_amount > 0
    }

    /// Normalize a raw reported amount: zero marks a failed fetch.
    pub fn new(venue_id: String, output_amount: u128) -> (r: VenueQuote)
        ensures
            r.venue_id == venue_id,
            r.output_amount == output_amount,
            r.valid == (output_amount != 0),
            r.usable() == (output_amount != 0),
    {
        VenueQuote { venue_id, output_amount, valid: output_amount != 0 }
    }
}

/// How many quotes of a snapshot take part in evaluation.
pub open spec fn usable_count(s: Seq<VenueQuote>) -> nat
    decreases s.len(),
{
    if s.len() == 0 {
        0
    } else {
        usable_count(s.drop_last()) + if s.last().usable() {
            1nat
        } else {
            0nat
        }
    }
}

/// The output amount a venue reported, as selected from its amounts
/// array: the second entry, or the invalid sentinel 0 when the array
/// is too short.
pub open spec fn reported_output(amounts: Seq<u128>) -> u128 {
    if amounts.len() >= 2 {
        amounts[1]
    } else {
        0
    }
}

/// Select the quoted output amount from a venue's reported amounts
/// along the trade path; anything shorter than two entries yields the
/// invalid sentinel 0.
pub fn quote_output(amounts: &Vec<u128>) -> (r: u128)
    ensures
        r == reported_output(amounts@),
{
    if amounts.len() >= 2 {
        amounts[1]
    } else {
        0
    }
}

/// One tick's quotes, exactly one per configured venue, in
/// configuration order.
pub struct Snapshot {
    pub quotes: Vec<VenueQuote>,
}

/// Collect one tick's snapshot from the venues' reported amounts
/// arrays, one per configured venue. The snapshot's ordering matches
/// the venue ordering, and every venue appears, marked invalid where
/// its fetch failed or degenerated to zero.
pub fn sample(venue_ids: &Vec<String>, reported: &Vec<Vec<u128>>) -> (snap: Snapshot)
    requires
        venue_ids@.len() == reported@.len(),
    ensures
        snap.quotes@.len() == venue_ids@.len(),
        forall|i: int| 0 <= i < venue_ids@.len() ==> {
            &&& (#[trigger] snap.quotes@[i]).venue_id@ == venue_ids@[i]@
            &&& snap.quotes@[i].output_amount == reported_output(reported@[i]@)
            &&& snap.quotes@[i].valid == (reported_output(reported@[i]@) != 0)
        },
{
    let mut quotes: Vec<VenueQuote> = Vec::new();
    let n = venue_ids.len();
    let mut i: usize = 0;
    while i < n
        invariant
            n == venue_ids@.len() == reported@.len(),
            i <= n,
            quotes@.len() == i,
            forall|j: int| 0 <= j < i ==> {
                &&& (#[trigger] quotes@[j]).venue_id@ == venue_ids@[j]@
                &&& quotes@[j].output_amount == reported_output(reported@[j]@)
                &&& quotes@[j].valid == (reported_output(reported@[j]@) != 0)
            },
        decreases n - i,
    {
        let amt = quote_output(&reported[i]);
        quotes.push(VenueQuote::new(venue_ids[i].clone(), amt));
        i = i + 1;
    }
    Snapshot { quotes }
}

} // verus!
