//! Strike selection over an options chain.
//!
//! The filters of the strategy, in order: absolute delta between 0.20 and 0.25, open
//! interest of at least 200 contracts, a bid-ask spread of at most $0.10, and an
//! expiration outside the earnings window. Among the contracts that pass, the one with
//! the highest mid price is chosen (the last of them, where several share that mid).
//!
//! Greeks and quotes are floating-point numbers read from the broker; the delta and
//! spread tests on them are made by the caller and arrive here as
//! `price_filters_pass`, and the mid price arrives as an order key `mid_rank`.
//!
//! The chain is requested for expirations from `dte_min` to `dte_max` days ahead.
use crate::calendar::{
    date_of_day, day_number, in_date_range, iso_date_text, spec_within_earnings_window,
    within_earnings_window, CalendarDate,
};
use vstd::prelude::*;

verus! {

/// What the strike filters need to know about one contract of a chain.
#[derive(Debug)]
pub struct StrikeCandidate {
    /// The absolute delta lies in [0.20, 0.25] and ask - bid is at most 0.10.
    pub price_filters_pass: bool,
    pub open_interest: u64,
    pub expiration: CalendarDate,
    /// Orders contracts by mid price: a higher mid has a higher key, equal mids
    /// have equal keys.
    pub mid_rank: u64,
}

/// Why no strike could be selected.
#[derive(Clone, Copy, Debug, PartialEq, Eq, Structural)]
pub enum StrikeSelectionError {
    /// No put passed all filters.
    NoCspCandidates,
    /// No call passed all filters.
    NoCcCandidates,
}

/// The least open interest a liquid strike has.
pub open spec fn min_open_interest() -> u64 {
    200
}

/// A contract passes every filter of the strategy.
pub open spec fn is_eligible(c: StrikeCandidate) -> bool {
    &&& c.price_filters_pass
    &&& c.open_interest >= min_open_interest()
    &&& !spec_within_earnings_window(c.expiration@)
}

/// `i` is the contract to select: it passes the filters, no passing contract has a
/// higher mid, and every passing contract after it has a lower mid.
pub open spec fn is_best_choice(chain: Seq<StrikeCandidate>, i: int) -> bool {
    &&& 0 <= i < chain.len()
    &&& is_eligible(chain[i])
    &&& forall|j: int|
        0 <= j < chain.len() && is_eligible(#[trigger] chain[j]) ==> chain[j].mid_rank
            <= chain[i].mid_rank && (j > i ==> chain[j].mid_rank < chain[i].mid_rank)
}

pub open spec fn has_eligible(chain: Seq<StrikeCandidate>) -> bool {
    exists|j: int| 0 <= j < chain.len() && is_eligible(#[trigger] chain[j])
}

/// Whether one contract passes every filter.
pub fn passes_filters(c: &StrikeCandidate) -> (r: bool)
    ensures
        r == is_eligible(*c),
{
    c.price_filters_pass && c.open_interest >= 200 && !within_earnings_window(&c.expiration)
}

fn select_best(chain: &[StrikeCandidate], none_left: StrikeSelectionError) -> (r: Result<
    usize,
    StrikeSelectionError,
>)
    ensures
        match r {
            Ok(i) => is_best_choice(chain@, i as int),
            Err(e) => e == none_left && !has_eligible(chain@),
        },
{
    let mut best: Option<usize> = None;
    let mut i: usize = 0;
    while i < chain.len()
        invariant
            i <= chain@.len(),
            match best {
                Some(b) => {
                    &&& b < i
                    &&& is_eligible(chain@[b as int])
                    &&& forall|j: int|
                        0 <= j < i && is_eligible(#[trigger] chain@[j]) ==> chain@[j].mid_rank
                            <= chain@[b as int].mid_rank && (j > b ==> chain@[j].mid_rank
                            < chain@[b as int].mid_rank)
                },
                None => forall|j: int| 0 <= j < i ==> !is_eligible(#[trigger] chain@[j]),
            },
        decreases chain@.len() - i,
    {
        if passes_filters(&chain[i]) {
            match best {
                Some(b) => {
                    if chain[i].mid_rank >= chain[b].mid_rank {
                        best = Some(i);
                    }
                },
                None => {
                    best = Some(i);
                },
            }
        }
        i = i + 1;
    }
    match best {
        Some(b) => Ok(b),
        None => Err(none_left),
    }
}

/// Selects the cash-secured put to sell: the index in `chain` of the contract that
/// passes every filter with the highest mid price.
pub fn select_csp_strike(chain: &[StrikeCandidate]) -> (r: Result<usize, StrikeSelectionError>)
    ensures
        match r {
            Ok(i) => is_best_choice(chain@, i as int),
            Err(e) => e == StrikeSelectionError::NoCspCandidates && !has_eligible(chain@),
        },
{
    select_best(chain, StrikeSelectionError::NoCspCandidates)
}

/// Selects the covered call to sell, by the same filters and rule as the put.
pub fn select_cc_strike(chain: &[StrikeCandidate]) -> (r: Result<usize, StrikeSelectionError>)
    ensures
        match r {
            Ok(i) => is_best_choice(chain@, i as int),
            Err(e) => e == StrikeSelectionError::NoCcCandidates && !has_eligible(chain@),
        },
{
    select_best(chain, StrikeSelectionError::NoCcCandidates)
}

/// At most one contract of a chain is the one to select.
pub proof fn lemma_best_choice_unique(chain: Seq<StrikeCandidate>, i: int, k: int)
    requires
        is_best_choice(chain, i),
        is_best_choice(chain, k),
    ensures
        i == k,
{
    assert(is_eligible(chain[k]));
    assert(is_eligible(chain[i]));
}

/// The filters in numbers: a contract passes exactly when its delta and spread
/// tests pass, it has an open interest of at least 200 contracts, and its
/// expiration is outside the earnings window.
pub proof fn lemma_filters_in_numbers(c: StrikeCandidate)
    ensures
        is_eligible(c) <==> (c.price_filters_pass && c.open_interest >= 200
            && !spec_within_earnings_window(c.expiration@)),
{
}

/// The selected contract always passes every filter: an illiquid contract (open
/// interest under 200), one failing the delta or spread test, or one expiring in
/// an earnings window is never selected, whatever its mid price.
pub proof fn lemma_selected_passes_filters(chain: Seq<StrikeCandidate>, i: int)
    requires
        is_best_choice(chain, i),
    ensures
        chain[i].open_interest >= 200,
        chain[i].price_filters_pass,
        !spec_within_earnings_window(chain[i].expiration@),
        forall|j: int|
            0 <= j < chain.len() && chain[j].price_filters_pass && chain[j].open_interest >= 200
                && !spec_within_earnings_window(#[trigger] chain[j].expiration@) ==> chain[j].mid_rank
                <= chain[i].mid_rank && (j > i ==> chain[j].mid_rank < chain[i].mid_rank),
{
    assert forall|j: int|
        0 <= j < chain.len() && chain[j].price_filters_pass && chain[j].open_interest >= 200
            && !spec_within_earnings_window(#[trigger] chain[j].expiration@) implies chain[j].mid_rank
        <= chain[i].mid_rank && (j > i ==> chain[j].mid_rank < chain[i].mid_rank) by {
        assert(is_eligible(chain[j]));
    }
}

/// A selection fails exactly when no contract passes every filter.
pub proof fn lemma_no_candidate_means_none_passes(chain: Seq<StrikeCandidate>)
    ensures
        !has_eligible(chain) <==> forall|j: int|
            0 <= j < chain.len() ==> !(chain[j].price_filters_pass && chain[j].open_interest >= 200
                && !spec_within_earnings_window(#[trigger] chain[j].expiration@)),
{
    if has_eligible(chain) {
        let j = choose|j: int| 0 <= j < chain.len() && is_eligible(#[trigger] chain[j]);
        assert(chain[j].price_filters_pass && chain[j].open_interest >= 200
            && !spec_within_earnings_window(chain[j].expiration@));
    } else {
        assert forall|j: int| 0 <= j < chain.len() implies !(chain[j].price_filters_pass
            && chain[j].open_interest >= 200 && !spec_within_earnings_window(
            #[trigger] chain[j].expiration@,
        )) by {
            assert(!is_eligible(chain[j]));
        }
    }
}

/// The expiration window of a chain request: the dates `dte_min` and `dte_max`
/// days after `today`, written `YYYY-MM-DD`. `None` where either date lies past
/// the dates chrono represents.
pub fn dte_window_bounds(today: &CalendarDate, dte_min: u32, dte_max: u32) -> (r: Option<
    (String, String),
>)
    ensures
        r is Some <==> in_date_range(day_number(today@) + dte_min) && in_date_range(
            day_number(today@) + dte_max,
        ),
        r matches Some(bounds) ==> bounds.0@ == iso_date_text(
            date_of_day(day_number(today@) + dte_min),
        ) && bounds.1@ == iso_date_text(date_of_day(day_number(today@) + dte_max)),
{
    let earliest = match today.checked_add_days(dte_min as i64) {
        Some(d) => d,
        None => return None,
    };
    let latest = match today.checked_add_days(dte_max as i64) {
        Some(d) => d,
        None => return None,
    };
    let lo = earliest.iso_text();
    let hi = latest.iso_text();
    Some((lo, hi))
}

} // verus!
