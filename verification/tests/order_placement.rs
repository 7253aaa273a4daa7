use nonthok_cashflow::orders::{next_placement_step, PlacementStage, PlacementStep};

#[test]
fn a_fill_ends_the_sequence() {
    assert_eq!(next_placement_step(PlacementStage::Limit, true), PlacementStep::Done);
    assert_eq!(next_placement_step(PlacementStage::Market, true), PlacementStep::Done);
}

#[test]
fn an_unfilled_limit_order_falls_back_to_market() {
    assert_eq!(next_placement_step(PlacementStage::Limit, false), PlacementStep::CancelThenMarket);
}

#[test]
fn an_unfilled_market_order_gives_up() {
    assert_eq!(next_placement_step(PlacementStage::Market, false), PlacementStep::GiveUp);
}

/// Runs the sequence against the poll outcomes in `fills` and returns how many
/// orders were placed and whether it ended with a fill.
fn run(fills: &[bool]) -> (usize, bool) {
    let mut stage = PlacementStage::Limit;
    let mut placed = 0;
    for &filled in fills {
        placed += 1;
        match next_placement_step(stage, filled) {
            PlacementStep::Done => return (placed, true),
            PlacementStep::GiveUp => return (placed, false),
            PlacementStep::CancelThenMarket => stage = PlacementStage::Market,
        }
    }
    (placed, false)
}

#[test]
fn at_most_two_orders_are_placed() {
    assert_eq!(run(&[true]), (1, true));
    assert_eq!(run(&[false, true]), (2, true));
    assert_eq!(run(&[false, false]), (2, false));
    // Outcomes past the market order are never read.
    assert_eq!(run(&[false, false, true, true]), (2, false));
}
