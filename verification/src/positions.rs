//! Position tracking: share counts and the detection of assignment or expiration
//! of the option the wheel is watching.
use crate::text::{parse_i64, spec_parse_i64, str_equal, str_starts_with};
use vstd::prelude::*;
use vstd::string::StringSliceAdditionalSpecFns;
use vstd::utf8::encode_utf8;

verus! {

/// What polling the account found about the watched option.
#[derive(Clone, Copy, Debug, PartialEq, Eq, Structural)]
pub enum WheelEvent {
    /// The option is still open.
    Active,
    /// The option was assigned (or the call exercised): shares changed hands.
    Assigned,
    /// The option expired (or was exercised out of the account).
    Expired,
}

/// One account activity record, with a missing field read as the empty string.
#[derive(Clone, Debug)]
pub struct AccountActivity {
    pub activity_type: String,
    pub symbol: String,
}

/// The share count that a position's `qty` text gives, `0` where it does not
/// read as an `i64` (`qty.parse().unwrap_or(0)`).
pub open spec fn spec_share_quantity(qty: Seq<u8>) -> i64 {
    match spec_parse_i64(qty) {
        Some(v) => v,
        None => 0,
    }
}

/// Reads a position's `qty` field; unreadable text counts as no shares.
pub fn share_quantity(qty: &str) -> (r: i64)
    ensures
        r == spec_share_quantity(qty.spec_bytes()),
{
    match parse_i64(qty) {
        Some(v) => v,
        None => 0,
    }
}

/// One round lot: the shares a single option contract covers.
pub open spec fn round_lot() -> i64 {
    100
}

/// What one activity says about the wheel, if it concerns `underlying`: `OPASN` is
/// an assignment, `OPEXP` and `OPEXC` an expiration.
pub open spec fn activity_event(a: AccountActivity, underlying: Seq<u8>) -> Option<WheelEvent> {
    if !underlying.is_prefix_of(encode_utf8(a.symbol@)) {
        None
    } else if a.activity_type@ == "OPASN"@ {
        Some(WheelEvent::Assigned)
    } else if a.activity_type@ == "OPEXP"@ || a.activity_type@ == "OPEXC"@ {
        Some(WheelEvent::Expired)
    } else {
        None
    }
}

/// The event that the first decisive activity in the list reports.
pub open spec fn first_activity_event(acts: Seq<AccountActivity>, underlying: Seq<u8>) -> Option<
    WheelEvent,
>
    decreases acts.len(),
{
    if acts.len() == 0 {
        None
    } else {
        match activity_event(acts[0], underlying) {
            Some(e) => Some(e),
            None => first_activity_event(acts.drop_first(), underlying),
        }
    }
}

/// The detection rule: shares of the underlying (a round lot or more) mean the
/// option was assigned; otherwise the first assignment or expiration activity for
/// the underlying decides; otherwise the option is still active.
pub open spec fn spec_detect_wheel_event(
    underlying: Seq<u8>,
    equity_qty: Option<Seq<u8>>,
    activities: Seq<AccountActivity>,
) -> WheelEvent {
    if equity_qty matches Some(q) && spec_share_quantity(q) >= round_lot() {
        WheelEvent::Assigned
    } else {
        match first_activity_event(activities, underlying) {
            Some(e) => e,
            None => WheelEvent::Active,
        }
    }
}

fn activity_says(a: &AccountActivity, underlying: &str) -> (r: Option<WheelEvent>)
    ensures
        r == activity_event(*a, underlying.spec_bytes()),
{
    if !str_starts_with(a.symbol.as_str(), underlying) {
        return None;
    }
    if str_equal(a.activity_type.as_str(), "OPASN") {
        Some(WheelEvent::Assigned)
    } else if str_equal(a.activity_type.as_str(), "OPEXP") || str_equal(
        a.activity_type.as_str(),
        "OPEXC",
    ) {
        Some(WheelEvent::Expired)
    } else {
        None
    }
}

/// Decides whether the watched option was assigned, expired or is still open.
///
/// `equity_qty` is the `qty` of the account's position in `underlying` when one was
/// found (`None` when there is none or it could not be fetched); `activities` are
/// the account's assignment/expiration activities in the order the broker lists
/// them (empty when they could not be fetched). The equity position is checked
/// first because paper accounts report assignment activities a day late.
pub fn detect_wheel_event(
    underlying: &str,
    equity_qty: Option<&str>,
    activities: &Vec<AccountActivity>,
) -> (r: WheelEvent)
    ensures
        r == spec_detect_wheel_event(
            underlying.spec_bytes(),
            match equity_qty {
                Some(q) => Some(q.spec_bytes()),
                None => None,
            },
            activities@,
        ),
{
    if let Some(q) = equity_qty {
        if share_quantity(q) >= 100 {
            return WheelEvent::Assigned;
        }
    }
    let ghost u = underlying.spec_bytes();
    let ghost no_lot = !(equity_qty matches Some(q) && spec_share_quantity(q.spec_bytes()) >= round_lot());
    assert(activities@.subrange(0, activities@.len() as int) =~= activities@);
    let mut i: usize = 0;
    while i < activities.len()
        invariant
            i <= activities@.len(),
            u == underlying.spec_bytes(),
            no_lot,
            no_lot == !(equity_qty matches Some(q) && spec_share_quantity(q.spec_bytes()) >= round_lot()),
            first_activity_event(activities@, u) == first_activity_event(
                activities@.subrange(i as int, activities@.len() as int),
                u,
            ),
        decreases activities@.len() - i,
    {
        let ghost rest = activities@.subrange(i as int, activities@.len() as int);
        assert(rest.drop_first() =~= activities@.subrange(i + 1, activities@.len() as int));
        assert(rest[0] == activities@[i as int]);
        match activity_says(&activities[i], underlying) {
            Some(e) => {
                return e;
            },
            None => {},
        }
        i = i + 1;
    }
    assert(activities@.subrange(i as int, activities@.len() as int) =~= Seq::<
        AccountActivity,
    >::empty());
    WheelEvent::Active
}

/// The event for the option being watched on this run: what detection found, except
/// that an option no longer held, with no assignment detected, has expired.
pub fn watched_option_event(detected: WheelEvent, option_still_held: bool) -> (r: WheelEvent)
    ensures
        r == if detected == WheelEvent::Active && !option_still_held {
            WheelEvent::Expired
        } else {
            detected
        },
{
    match detected {
        WheelEvent::Active => if option_still_held {
            WheelEvent::Active
        } else {
            WheelEvent::Expired
        },
        other => other,
    }
}

/// Holding a round lot of the underlying always reads as an assignment, whatever
/// the activities say.
pub proof fn lemma_round_lot_means_assigned(
    underlying: Seq<u8>,
    qty: Seq<u8>,
    activities: Seq<AccountActivity>,
)
    requires
        spec_share_quantity(qty) >= 100,
    ensures
        spec_detect_wheel_event(underlying, Some(qty), activities) == WheelEvent::Assigned,
{
}

/// Activities for other symbols never change what is detected.
pub proof fn lemma_other_symbols_ignored(
    underlying: Seq<u8>,
    equity_qty: Option<Seq<u8>>,
    activities: Seq<AccountActivity>,
    other: AccountActivity,
)
    requires
        !underlying.is_prefix_of(encode_utf8(other.symbol@)),
    ensures
        spec_detect_wheel_event(underlying, equity_qty, seq![other] + activities)
            == spec_detect_wheel_event(underlying, equity_qty, activities),
{
    let s = seq![other] + activities;
    assert(s.drop_first() =~= activities);
    assert(s[0] == other);
}

/// An activity that concerns `underlying` and reports an assignment or expiration.
pub open spec fn is_decisive_activity(a: AccountActivity, underlying: Seq<u8>) -> bool {
    &&& underlying.is_prefix_of(encode_utf8(a.symbol@))
    &&& (a.activity_type@ == "OPASN"@ || a.activity_type@ == "OPEXP"@ || a.activity_type@
        == "OPEXC"@)
}

proof fn lemma_skip_indecisive(
    before: Seq<AccountActivity>,
    rest: Seq<AccountActivity>,
    underlying: Seq<u8>,
)
    requires
        forall|j: int| 0 <= j < before.len() ==> !is_decisive_activity(#[trigger] before[j], underlying),
    ensures
        first_activity_event(before + rest, underlying) == first_activity_event(rest, underlying),
    decreases before.len(),
{
    if before.len() > 0 {
        let all = before + rest;
        assert(all[0] == before[0]);
        assert(!is_decisive_activity(before[0], underlying));
        assert(all.drop_first() =~= before.drop_first() + rest);
        lemma_skip_indecisive(before.drop_first(), rest, underlying);
    } else {
        assert(before + rest =~= rest);
    }
}

/// Without a round lot of shares, the first activity that concerns the underlying
/// and reports an assignment (`OPASN`) or expiration (`OPEXP`, `OPEXC`) decides,
/// whatever comes before it (other symbols, other types) or after it.
pub proof fn lemma_first_decisive_activity_decides(
    underlying: Seq<u8>,
    equity_qty: Option<Seq<u8>>,
    before: Seq<AccountActivity>,
    decisive: AccountActivity,
    after: Seq<AccountActivity>,
)
    requires
        !(equity_qty matches Some(q) && spec_share_quantity(q) >= 100),
        forall|j: int| 0 <= j < before.len() ==> !is_decisive_activity(#[trigger] before[j], underlying),
        is_decisive_activity(decisive, underlying),
    ensures
        decisive.activity_type@ == "OPASN"@ ==> spec_detect_wheel_event(
            underlying,
            equity_qty,
            before + seq![decisive] + after,
        ) == WheelEvent::Assigned,
        decisive.activity_type@ != "OPASN"@ ==> spec_detect_wheel_event(
            underlying,
            equity_qty,
            before + seq![decisive] + after,
        ) == WheelEvent::Expired,
{
    let rest = seq![decisive] + after;
    assert(before + seq![decisive] + after =~= before + rest);
    lemma_skip_indecisive(before, rest, underlying);
    assert(rest[0] == decisive);
}

/// Without a round lot of shares and without any decisive activity, the option is
/// still open.
pub proof fn lemma_nothing_decisive_means_active(
    underlying: Seq<u8>,
    equity_qty: Option<Seq<u8>>,
    activities: Seq<AccountActivity>,
)
    requires
        !(equity_qty matches Some(q) && spec_share_quantity(q) >= 100),
        forall|j: int|
            0 <= j < activities.len() ==> !is_decisive_activity(#[trigger] activities[j], underlying),
    ensures
        spec_detect_wheel_event(underlying, equity_qty, activities) == WheelEvent::Active,
{
    lemma_skip_indecisive(activities, Seq::empty(), underlying);
    assert(activities + Seq::<AccountActivity>::empty() =~= activities);
}

/// Fewer than 100 shares of the underlying decide nothing by themselves: detection
/// then goes by the activities alone, as if no position had been found.
pub proof fn lemma_odd_lot_defers_to_activities(
    underlying: Seq<u8>,
    qty: Seq<u8>,
    activities: Seq<AccountActivity>,
)
    requires
        spec_share_quantity(qty) < 100,
    ensures
        spec_detect_wheel_event(underlying, Some(qty), activities) == spec_detect_wheel_event(
            underlying,
            None,
            activities,
        ),
{
}

} // verus!
