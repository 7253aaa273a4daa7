//! Implied-volatility entry gates.
//!
//! While fewer than a year (252 trading days) of history rows exist, the bootstrap
//! gate asks that today's 30-day historical volatility rank at the 35th percentile or
//! above among the recorded values; with a full year, the implied-volatility
//! percentile must be at least 30%. Without any history, entry is allowed.
//!
//! Volatilities are floating-point numbers; counting how many past values lie
//! below today's is done by the caller, and the counts arrive here. For any history
//! shorter than 2^40 rows, `below / len >= p / 100` computed in floating point agrees
//! with `100 * below >= p * len`, which is what is decided here.
use vstd::prelude::*;

verus! {

/// Trading days in a year of history.
pub open spec fn full_history_rows() -> usize {
    252
}

/// Which gate applies.
#[derive(Clone, Copy, Debug, PartialEq, Eq, Structural)]
pub enum IvGate {
    /// Fewer than a year of rows: rank historical volatility, 35% threshold.
    Hv30Bootstrap,
    /// A year of rows or more: true implied-volatility percentile, 30% threshold.
    TrueIvp,
}

/// The volatility test for a symbol with `history_rows` rows dated before today.
pub fn gate_for_history(history_rows: usize) -> (r: IvGate)
    ensures
        r == if history_rows < full_history_rows() {
            IvGate::Hv30Bootstrap
        } else {
            IvGate::TrueIvp
        },
{
    if history_rows < 252 {
        IvGate::Hv30Bootstrap
    } else {
        IvGate::TrueIvp
    }
}

/// Percentile threshold of an IV test, in percent.
pub open spec fn gate_threshold_pct(gate: IvGate) -> int {
    match gate {
        IvGate::Hv30Bootstrap => 35,
        IvGate::TrueIvp => 30,
    }
}

/// Today's value ranks at `threshold_pct` or above: `below` of the `len` past values
/// are lower than it. An empty history passes.
pub open spec fn spec_percentile_passes(below: usize, len: usize, threshold_pct: int) -> bool {
    len == 0 || 100 * below >= threshold_pct * len
}

/// Whether an IV test passes, given how many of the `len` past values lie below today's.
pub fn gate_passes(gate: IvGate, below: usize, len: usize) -> (r: bool)
    ensures
        r == spec_percentile_passes(below, len, gate_threshold_pct(gate)),
{
    if len == 0 {
        return true;
    }
    let pct: u128 = match gate {
        IvGate::Hv30Bootstrap => 35,
        IvGate::TrueIvp => 30,
    };
    (below as u128) * 100 >= pct * (len as u128)
}

/// Where today's value stands among the past ones.
#[derive(Clone, Copy, Debug, PartialEq, Eq, Structural)]
pub struct PercentileRank {
    /// Past values strictly lower than today's.
    pub below: usize,
    /// Past values considered (the latest 252 at most).
    pub len: usize,
}

pub open spec fn spec_iv_entry_favorable(history_rows: usize, today: Option<PercentileRank>) -> bool {
    match today {
        None => true,
        Some(rank) => spec_percentile_passes(
            rank.below,
            rank.len,
            gate_threshold_pct(
                if history_rows < full_history_rows() {
                    IvGate::Hv30Bootstrap
                } else {
                    IvGate::TrueIvp
                },
            ),
        ),
    }
}

/// Whether volatility conditions favor a new cash-secured put, from already captured
/// data: the test is chosen by the number of history rows; when nothing has been
/// captured for today (`today` is `None`) entry is allowed.
pub fn iv_entry_favorable(history_rows: usize, today: Option<PercentileRank>) -> (r: bool)
    ensures
        r == spec_iv_entry_favorable(history_rows, today),
{
    let gate = gate_for_history(history_rows);
    match today {
        None => true,
        Some(rank) => gate_passes(gate, rank.below, rank.len),
    }
}

/// A higher rank never fails a test that a lower rank passes.
pub proof fn lemma_gate_monotone(gate: IvGate, below: usize, more: usize, len: usize)
    requires
        below <= more,
        spec_percentile_passes(below, len, gate_threshold_pct(gate)),
    ensures
        spec_percentile_passes(more, len, gate_threshold_pct(gate)),
{
}

/// The bootstrap test is the stricter one: whatever passes it passes the true-IVP test.
pub proof fn lemma_bootstrap_gate_stricter(below: usize, len: usize)
    requires
        spec_percentile_passes(below, len, gate_threshold_pct(IvGate::Hv30Bootstrap)),
    ensures
        spec_percentile_passes(below, len, gate_threshold_pct(IvGate::TrueIvp)),
{
}

/// The gates in numbers: an empty history passes; otherwise the bootstrap gate
/// passes exactly when at least 35% of the past values lie below today's, the
/// true-IVP gate exactly when at least 30% do.
pub proof fn lemma_gate_thresholds(gate: IvGate, below: usize, len: usize)
    ensures
        len == 0 ==> spec_percentile_passes(below, len, gate_threshold_pct(gate)),
        len >= 1 && gate == IvGate::Hv30Bootstrap ==> (spec_percentile_passes(
            below,
            len,
            gate_threshold_pct(gate),
        ) <==> 100 * below >= 35 * len),
        len >= 1 && gate == IvGate::TrueIvp ==> (spec_percentile_passes(
            below,
            len,
            gate_threshold_pct(gate),
        ) <==> 100 * below >= 30 * len),
{
}

/// Entry is allowed when nothing was captured today or there is no history to
/// rank against; otherwise, under a year of history rows, today's value must
/// reach the 35th percentile, and with a full year the 30th.
pub proof fn lemma_entry_thresholds(history_rows: usize, rank: PercentileRank)
    ensures
        spec_iv_entry_favorable(history_rows, None),
        rank.len == 0 ==> spec_iv_entry_favorable(history_rows, Some(rank)),
        rank.len >= 1 && history_rows < 252 ==> (spec_iv_entry_favorable(history_rows, Some(rank))
            <==> 100 * rank.below >= 35 * rank.len),
        rank.len >= 1 && history_rows >= 252 ==> (spec_iv_entry_favorable(history_rows, Some(rank))
            <==> 100 * rank.below >= 30 * rank.len),
{
}

/// The bootstrap gate applies below 252 history rows (a trading year), the true-IVP
/// gate from 252 rows on.
pub proof fn lemma_gate_choice(history_rows: usize)
    ensures
        history_rows < full_history_rows() <==> history_rows < 252,
{
}

} // verus!
