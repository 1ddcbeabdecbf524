use hedgecore::engine::{
    build_hedge_config, other_leg, Action, EngineConfig, Event, HedgePlan, LegId, OrderRef, Phase,
    PositionStateMachine,
};
use hedgecore::fixed::Fixed;
use hedgecore::types::{Asset, MarketResponse, OrderSnapshot, OrderStatus};

const WS: i64 = 1_700_000_100;

fn fx(raw: i64) -> Fixed {
    Fixed::from_raw(raw)
}

fn cfg() -> EngineConfig {
    EngineConfig {
        asset: Asset::XRP,
        order_size: fx(50_000_000),         // 50.00 shares per leg
        hedge_enter_price: fx(450_000),     // 0.45
        initial_entry_price: fx(500_000),   // 0.50
        hold_grace: 90,
        stop_loss_grace: 20,
        window_start: WS,
    }
}

fn snap(status: OrderStatus, size_raw: i64) -> OrderSnapshot {
    OrderSnapshot { status, size_matched: fx(size_raw) }
}

fn legs(first: OrderSnapshot, second: OrderSnapshot, now: i64) -> Event {
    Event::LegsRead { first, second, now }
}

#[test]
fn scenario_first_leg_match_hedges_and_wins() {
    // First leg reports Matched with 50 filled: the second leg is canceled,
    // a hedge sized 50 goes out at the configured hedge price, and a match
    // of the hedge on the next poll ends the window as a win.
    let mut m = PositionStateMachine::new(cfg());

    let acts = m.step(legs(
        snap(OrderStatus::Matched, 50_000_000),
        snap(OrderStatus::Live, 0),
        WS - 600,
    ));
    assert_eq!(acts, vec![Action::CancelOrder { order: OrderRef::SecondLeg }]);
    match m.phase {
        Phase::SiblingCheck { plan } => {
            assert_eq!(plan.entry_leg, LegId::First);
            assert_eq!(plan.hedge_size.raw, 50_000_000);
            assert_eq!(plan.close_size.raw, 50_000_000);
        }
        other => panic!("unexpected phase {:?}", other),
    }

    // The sibling already reads Canceled: no second cancel goes out.
    let acts = m.step(Event::OrderRead { snap: snap(OrderStatus::Canceled, 0) });
    assert!(acts.is_empty());
    assert!(matches!(m.phase, Phase::SiblingRecheck { .. }));

    // Fresh sibling read shows no fill: the hedge keeps its intended size.
    let acts = m.step(Event::OrderRead { snap: snap(OrderStatus::Canceled, 0) });
    assert_eq!(
        acts,
        vec![Action::PlaceHedge {
            instrument: LegId::Second,
            size: fx(50_000_000),
            price: fx(450_000),
        }]
    );
    assert!(matches!(m.phase, Phase::AwaitingHedge { .. }));

    let acts = m.step(Event::HedgeRead { snap: snap(OrderStatus::Matched, 50_000_000), now: WS + 5 });
    assert_eq!(acts, vec![Action::RecordWin]);
    assert!(matches!(m.phase, Phase::Won));
}

#[test]
fn scenario_stop_loss_unwind_repeats_until_filled() {
    // The hedge rests unmatched while the stop-loss grace elapses: the hedge
    // is canceled and a market exit sized from the current price goes out,
    // again and again until one fills; the window ends as a loss.
    let mut m = PositionStateMachine::new(cfg());

    m.step(legs(
        snap(OrderStatus::Matched, 50_000_000),
        snap(OrderStatus::Live, 0),
        WS - 600,
    ));
    m.step(Event::OrderRead { snap: snap(OrderStatus::Canceled, 0) });
    m.step(Event::OrderRead { snap: snap(OrderStatus::Canceled, 0) });

    // Still live, grace of 20 s elapsed since the window start.
    let acts = m.step(Event::HedgeRead { snap: snap(OrderStatus::Live, 0), now: WS + 30 });
    assert_eq!(acts, vec![Action::CancelOrder { order: OrderRef::Hedge }]);
    assert!(matches!(m.phase, Phase::ExitPricing { .. }));

    // closeSize 50 at entry 0.50, current price 0.80: exit size 125.00.
    let acts = m.step(Event::PriceRead { price: fx(800_000) });
    assert_eq!(
        acts,
        vec![Action::PlaceExit {
            instrument: LegId::Second,
            size: fx(125_000_000),
            price: fx(800_000),
        }]
    );

    // First attempt does not fill: re-price and resubmit.
    let acts = m.step(Event::OrderRead { snap: snap(OrderStatus::Canceled, 0) });
    assert!(acts.is_empty());
    assert!(matches!(m.phase, Phase::ExitPricing { .. }));

    // 50 * 0.50 / (1 - 0.75) = 100.00 at the re-fetched price.
    let acts = m.step(Event::PriceRead { price: fx(750_000) });
    assert_eq!(
        acts,
        vec![Action::PlaceExit {
            instrument: LegId::Second,
            size: fx(100_000_000),
            price: fx(750_000),
        }]
    );

    let acts = m.step(Event::OrderRead { snap: snap(OrderStatus::Matched, 100_000_000) });
    assert_eq!(acts, vec![Action::RecordLoss]);
    assert!(matches!(m.phase, Phase::Lost));
}

#[test]
fn scenario_both_canceled_ends_flat() {
    // Both legs report Canceled with zero fill before any match: no hedge is
    // placed and neither a win nor a loss is recorded.
    let mut m = PositionStateMachine::new(cfg());
    let acts = m.step(legs(
        snap(OrderStatus::Canceled, 0),
        snap(OrderStatus::Canceled, 0),
        WS - 600,
    ));
    assert!(acts.is_empty());
    assert!(matches!(m.phase, Phase::BothCanceled));
}

#[test]
fn scenario_gate_close_cancels_idle_legs() {
    // The window gate closes while both legs are live with zero fill: the
    // legs are canceled, no hedge is built, and polling goes on.
    let mut m = PositionStateMachine::new(cfg());
    let acts = m.step(legs(
        snap(OrderStatus::Live, 0),
        snap(OrderStatus::Live, 0),
        WS - 10,
    ));
    assert_eq!(
        acts,
        vec![
            Action::CancelOrder { order: OrderRef::FirstLeg },
            Action::CancelOrder { order: OrderRef::SecondLeg },
        ]
    );
    assert!(matches!(m.phase, Phase::AwaitingFill));

    let acts = m.step(legs(
        snap(OrderStatus::Canceled, 0),
        snap(OrderStatus::Canceled, 0),
        WS - 8,
    ));
    assert!(acts.is_empty());
    assert!(matches!(m.phase, Phase::BothCanceled));
}

#[test]
fn scenario_gate_close_forces_hedge_of_partial_fill() {
    // The window gate closes while the first leg is live with a partial
    // fill: the leg is canceled, its final fill is re-read, and a hedge
    // cycle starts from that size.
    let mut m = PositionStateMachine::new(cfg());
    let acts = m.step(legs(
        snap(OrderStatus::Live, 30_500_000),
        snap(OrderStatus::Live, 0),
        WS - 10,
    ));
    assert_eq!(acts, vec![Action::CancelOrder { order: OrderRef::FirstLeg }]);
    match m.phase {
        Phase::ForcedReread { leg, prelim } => {
            assert_eq!(leg, LegId::First);
            assert_eq!(prelim.raw, 30_500_000);
        }
        other => panic!("unexpected phase {:?}", other),
    }

    // The canceled leg's final fill stands at 30.5: the plan hedges that.
    let acts = m.step(Event::OrderRead { snap: snap(OrderStatus::Canceled, 30_500_000) });
    assert!(acts.is_empty());
    match m.phase {
        Phase::SiblingCheck { plan } => {
            assert_eq!(plan.entry_leg, LegId::First);
            assert_eq!(plan.hedge_size.raw, 30_500_000);
            assert_eq!(plan.close_size.raw, 30_500_000);
        }
        other => panic!("unexpected phase {:?}", other),
    }
}

#[test]
fn forced_hedge_runs_through_to_a_win() {
    // After a forced exit of a partially filled leg, the hedge cycle runs
    // like a matched one: the sibling is canceled, the hedge goes out at
    // the re-read size, and a match ends the window as a win.
    let mut m = PositionStateMachine::new(cfg());
    m.step(legs(
        snap(OrderStatus::Live, 30_500_000),
        snap(OrderStatus::Live, 0),
        WS - 10,
    ));
    m.step(Event::OrderRead { snap: snap(OrderStatus::Canceled, 30_500_000) });
    let acts = m.step(Event::OrderRead { snap: snap(OrderStatus::Live, 0) });
    assert_eq!(acts, vec![Action::CancelOrder { order: OrderRef::SecondLeg }]);
    let acts = m.step(Event::OrderRead { snap: snap(OrderStatus::Canceled, 0) });
    assert_eq!(
        acts,
        vec![Action::PlaceHedge {
            instrument: LegId::Second,
            size: fx(30_500_000),
            price: fx(450_000),
        }]
    );
    let acts = m.step(Event::HedgeRead { snap: snap(OrderStatus::Matched, 30_500_000), now: WS });
    assert_eq!(acts, vec![Action::RecordWin]);
    assert!(matches!(m.phase, Phase::Won));
}

#[test]
fn sibling_still_live_is_canceled_again_and_corrects_hedge_size() {
    // The sibling still reads Live when the hedge cycle starts: it is
    // canceled, and its partial fill of 10.00 corrects the hedge size to
    // |10 - 50| = 40.00.
    let mut m = PositionStateMachine::new(cfg());
    m.step(legs(
        snap(OrderStatus::Matched, 50_000_000),
        snap(OrderStatus::Live, 10_000_000),
        WS - 600,
    ));
    let acts = m.step(Event::OrderRead { snap: snap(OrderStatus::Live, 10_000_000) });
    assert_eq!(acts, vec![Action::CancelOrder { order: OrderRef::SecondLeg }]);
    let acts = m.step(Event::OrderRead { snap: snap(OrderStatus::Canceled, 10_000_000) });
    assert_eq!(
        acts,
        vec![Action::PlaceHedge {
            instrument: LegId::Second,
            size: fx(40_000_000),
            price: fx(450_000),
        }]
    );
}

#[test]
fn second_leg_match_hedges_onto_first_instrument() {
    let mut m = PositionStateMachine::new(cfg());
    let acts = m.step(legs(
        snap(OrderStatus::Live, 0),
        snap(OrderStatus::Matched, 49_990_000),
        WS - 600,
    ));
    assert_eq!(acts, vec![Action::CancelOrder { order: OrderRef::FirstLeg }]);
    match m.phase {
        Phase::SiblingCheck { plan } => {
            assert_eq!(plan.entry_leg, LegId::Second);
            assert_eq!(plan.hedge_size.raw, 49_990_000);
        }
        other => panic!("unexpected phase {:?}", other),
    }
    m.step(Event::OrderRead { snap: snap(OrderStatus::Canceled, 0) });
    let acts = m.step(Event::OrderRead { snap: snap(OrderStatus::Canceled, 0) });
    assert_eq!(
        acts,
        vec![Action::PlaceHedge {
            instrument: LegId::First,
            size: fx(49_990_000),
            price: fx(450_000),
        }]
    );
}

#[test]
fn matched_sibling_is_not_canceled_again() {
    // A sibling that already reads Matched is terminal: the hedge cycle
    // leaves it alone and proceeds to sizing.
    let mut m = PositionStateMachine::new(cfg());
    m.step(legs(
        snap(OrderStatus::Matched, 50_000_000),
        snap(OrderStatus::Matched, 50_000_000),
        WS - 600,
    ));
    let acts = m.step(Event::OrderRead { snap: snap(OrderStatus::Matched, 50_000_000) });
    assert!(acts.is_empty());
    assert!(matches!(m.phase, Phase::SiblingRecheck { .. }));
}

#[test]
fn read_failure_abandons_the_window() {
    // A read that fails past its retry budget abandons the window with
    // neither a win nor a loss recorded.
    let mut m = PositionStateMachine::new(cfg());
    let acts = m.step(Event::ReadFailed);
    assert!(acts.is_empty());
    assert!(matches!(m.phase, Phase::Abandoned));
}

#[test]
fn matched_leg_with_bad_size_falls_back_to_requested() {
    // A matched leg reporting a zero fill is bad venue data: the requested
    // order size substitutes.
    let mut m = PositionStateMachine::new(cfg());
    m.step(legs(
        snap(OrderStatus::Matched, 0),
        snap(OrderStatus::Live, 0),
        WS - 600,
    ));
    match m.phase {
        Phase::SiblingCheck { plan } => assert_eq!(plan.hedge_size.raw, 50_000_000),
        other => panic!("unexpected phase {:?}", other),
    }
}

#[test]
fn match_takes_precedence_over_closed_gate() {
    // Even with the window gate closed, a Matched read starts a normal
    // hedge cycle rather than a forced exit.
    let mut m = PositionStateMachine::new(cfg());
    let acts = m.step(legs(
        snap(OrderStatus::Matched, 50_000_000),
        snap(OrderStatus::Live, 10_000_000),
        WS - 10,
    ));
    assert_eq!(acts, vec![Action::CancelOrder { order: OrderRef::SecondLeg }]);
    assert!(matches!(m.phase, Phase::SiblingCheck { .. }));
}

#[test]
fn hedge_order_is_canceled_at_most_once_across_a_run() {
    // Across a whole run with several failed exit rounds, the cancel of the
    // hedge order goes out exactly once.
    let mut m = PositionStateMachine::new(cfg());
    let mut hedge_cancels = 0;
    let mut count = |acts: &[Action]| {
        hedge_cancels += acts
            .iter()
            .filter(|a| matches!(a, Action::CancelOrder { order: OrderRef::Hedge }))
            .count();
    };
    count(&m.step(legs(
        snap(OrderStatus::Matched, 50_000_000),
        snap(OrderStatus::Live, 0),
        WS - 600,
    )));
    count(&m.step(Event::OrderRead { snap: snap(OrderStatus::Canceled, 0) }));
    count(&m.step(Event::OrderRead { snap: snap(OrderStatus::Canceled, 0) }));
    count(&m.step(Event::HedgeRead { snap: snap(OrderStatus::Live, 0), now: WS + 100 }));
    for _ in 0..5 {
        count(&m.step(Event::PriceRead { price: fx(800_000) }));
        count(&m.step(Event::OrderRead { snap: snap(OrderStatus::Canceled, 0) }));
    }
    count(&m.step(Event::PriceRead { price: fx(800_000) }));
    count(&m.step(Event::OrderRead { snap: snap(OrderStatus::Matched, 125_000_000) }));
    assert!(matches!(m.phase, Phase::Lost));
    assert_eq!(hedge_cancels, 1);
}

#[test]
fn other_leg_swaps() {
    assert_eq!(other_leg(LegId::First), LegId::Second);
    assert_eq!(other_leg(LegId::Second), LegId::First);
}

#[test]
fn hedge_config_maps_first_leg_cycle() {
    let tokens = MarketResponse {
        first_asset_id: "tok-up".to_string(),
        second_asset_id: "tok-down".to_string(),
    };
    let plan = HedgePlan {
        entry_leg: LegId::First,
        hedge_size: fx(50_000_000),
        close_size: fx(50_000_000),
    };
    let hc = build_hedge_config(&cfg(), &tokens, "ord-1", "ord-2", &plan);
    assert_eq!(hc.second_order_id, "ord-2");
    assert_eq!(hc.hedge_asset_id, "tok-down");
    assert_eq!(hc.initial_asset_id, "tok-up");
    assert_eq!(hc.hedge_size.raw, 50_000_000);
    assert_eq!(hc.close_size.raw, 50_000_000);
    assert_eq!(hc.hedge_enter_price.raw, 450_000);
    assert_eq!(hc.initial_entry_price.raw, 500_000);
    assert_eq!(hc.stop_loss_after, 20);
    assert_eq!(hc.timestamp, WS);
}

#[test]
fn hedge_config_maps_second_leg_cycle() {
    let tokens = MarketResponse {
        first_asset_id: "tok-up".to_string(),
        second_asset_id: "tok-down".to_string(),
    };
    let plan = HedgePlan {
        entry_leg: LegId::Second,
        hedge_size: fx(40_000_000),
        close_size: fx(40_000_000),
    };
    let hc = build_hedge_config(&cfg(), &tokens, "ord-1", "ord-2", &plan);
    assert_eq!(hc.second_order_id, "ord-1");
    assert_eq!(hc.hedge_asset_id, "tok-up");
    assert_eq!(hc.initial_asset_id, "tok-down");
    assert_eq!(hc.hedge_size.raw, 40_000_000);
}
