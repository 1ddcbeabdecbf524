//! The position-hedging state machine.
//!
//! One machine instance handles one market window.  The machine never talks
//! to the venue itself: a driver reads order state, prices and the clock,
//! feeds each observation in as an [`Event`], performs the returned
//! [`Action`]s, and polls again while the phase is not terminal.  Every
//! decision the strategy makes — when to cancel a sibling order, how to size
//! the hedge from partially filled quantities, when the stop-loss deadline
//! has passed, and how to size the forced market exit — is taken inside
//! [`PositionStateMachine::step`] and pinned down by its contract.

use vstd::prelude::*;
use crate::fixed::{
    Fixed, FIXED_SCALE, MAX_QTY_RAW, corrected_hedge_size, exit_order_size, normalized_size,
    lemma_trunc_toward_zero_bounds, spec_corrected_hedge_size, spec_exit_size,
    spec_normalized_size,
};
use crate::types::{Asset, HedgeConfig, MarketResponse, OrderSnapshot, OrderStatus};
use crate::window::{allow_stop_loss_at, allow_trade_at, spec_allow_stop_loss, spec_allow_trade};
use vstd::string::StringExecFns;

verus! {

/// One of the two correlated entry legs of a window.
#[derive(Clone, Copy, PartialEq, Eq, Structural, Debug)]
pub enum LegId {
    First,
    Second,
}

/// The other leg of the pair.
pub open spec fn spec_other_leg(l: LegId) -> LegId {
    match l {
        LegId::First => LegId::Second,
        LegId::Second => LegId::First,
    }
}

/// The other leg of the pair.
pub fn other_leg(l: LegId) -> (r: LegId)
    ensures
        r == spec_other_leg(l),
{
    match l {
        LegId::First => LegId::Second,
        LegId::Second => LegId::First,
    }
}

/// An order the machine can refer to: one of the two entry legs or the
/// hedge order of the current cycle.
#[derive(Clone, Copy, PartialEq, Eq, Structural, Debug)]
pub enum OrderRef {
    FirstLeg,
    SecondLeg,
    Hedge,
}

/// The order resting on the given entry leg.
pub open spec fn spec_leg_order(l: LegId) -> OrderRef {
    match l {
        LegId::First => OrderRef::FirstLeg,
        LegId::Second => OrderRef::SecondLeg,
    }
}

/// Fixed parameters of one market window's run.
#[derive(Clone, Copy, PartialEq, Eq, Structural, Debug)]
pub struct EngineConfig {
    pub asset: Asset,
    /// Requested size of each entry leg.
    pub order_size: Fixed,
    /// Limit price of the resting hedge order.
    pub hedge_enter_price: Fixed,
    /// Limit price the entry legs were placed at; scales the forced exit.
    pub initial_entry_price: Fixed,
    /// Seconds before the window start at which holding a position stops
    /// being allowed.
    pub hold_grace: i64,
    /// Seconds into the window after which a stop-loss exit is allowed.
    pub stop_loss_grace: i64,
    /// Start of the market window, unix seconds.
    pub window_start: i64,
}

/// The numeric core of one hedge cycle: which leg's exposure is hedged, the
/// intended hedge size and the size to close on stop-loss.  The sibling
/// order to cancel and the instrument hedged onto both belong to the other
/// leg.
#[derive(Clone, Copy, PartialEq, Eq, Structural, Debug)]
pub struct HedgePlan {
    pub entry_leg: LegId,
    pub hedge_size: Fixed,
    pub close_size: Fixed,
}

/// Where the machine stands between observations.
#[derive(Clone, Copy, PartialEq, Eq, Structural, Debug)]
pub enum Phase {
    /// Polling both entry legs for a fill.
    AwaitingFill,
    /// The window gate closed on a live, partially filled leg; the leg was
    /// canceled and its final fill is awaited.  `prelim` is the size seen at
    /// the moment of the forced decision, used as fallback.
    ForcedReread { leg: LegId, prelim: Fixed },
    /// A hedge cycle began; the sibling order's status is awaited to ensure
    /// it is canceled.
    SiblingCheck { plan: HedgePlan },
    /// A fresh read of the sibling order is awaited to correct the hedge
    /// size for partial fills before the hedge order is placed.
    SiblingRecheck { plan: HedgePlan },
    /// The hedge order has been placed and is polled until it matches or
    /// the stop-loss deadline passes.
    AwaitingHedge { plan: HedgePlan },
    /// Stop loss: the hedge order was canceled and the current price of the
    /// hedge instrument is awaited to size a forced market exit.
    ExitPricing { plan: HedgePlan },
    /// A forced market-exit order was placed and its outcome is awaited.
    AwaitingExitFill { plan: HedgePlan },
    /// Both legs were canceled by the venue: the window ends flat.
    BothCanceled,
    /// The hedge order matched.
    Won,
    /// The forced market exit filled.
    Lost,
    /// A status read failed past its retry budget; the window is abandoned
    /// with neither a win nor a loss recorded.
    Abandoned,
}

/// One observation handed to the machine.
#[derive(Clone, Copy, PartialEq, Eq, Structural, Debug)]
pub enum Event {
    /// Fresh reads of both entry legs and the clock, while awaiting a fill.
    LegsRead { first: OrderSnapshot, second: OrderSnapshot, now: i64 },
    /// A fresh read of the single order the current phase asks about.
    OrderRead { snap: OrderSnapshot },
    /// A fresh read of the hedge order and the clock.
    HedgeRead { snap: OrderSnapshot, now: i64 },
    /// The current best price of the hedge instrument.
    PriceRead { price: Fixed },
    /// A venue read failed even after its retries were exhausted.
    ReadFailed,
}

/// One command the machine asks the driver to carry out.
#[derive(Clone, Copy, PartialEq, Eq, Structural, Debug)]
pub enum Action {
    /// Cancel the given order; safe to request for an order that already
    /// reached a terminal state.
    CancelOrder { order: OrderRef },
    /// Place the resting hedge order: a good-till-canceled buy of `size` at
    /// `price` on the instrument of leg `instrument`.
    PlaceHedge { instrument: LegId, size: Fixed, price: Fixed },
    /// Place a forced exit: an immediate-or-cancel buy of `size` at `price`
    /// on the instrument of leg `instrument`.
    PlaceExit { instrument: LegId, size: Fixed, price: Fixed },
    /// The hedge matched: record the window as a win.
    RecordWin,
    /// The forced exit filled: record the window as a loss.
    RecordLoss,
}

/// A venue-reported size the machine accepts: nonnegative and within the
/// range every sizing formula stays overflow-free in.
pub open spec fn snapshot_wf(s: OrderSnapshot) -> bool {
    0 <= s.size_matched.raw <= MAX_QTY_RAW
}

/// Bounds the driver must check before handing an observation in.
pub open spec fn event_wf(e: Event) -> bool {
    match e {
        Event::LegsRead { first, second, now: _ } => snapshot_wf(first) && snapshot_wf(second),
        Event::OrderRead { snap } => snapshot_wf(snap),
        Event::HedgeRead { snap, now: _ } => snapshot_wf(snap),
        Event::PriceRead { price } => 0 <= price.raw,
        Event::ReadFailed => true,
    }
}

/// Which observation each phase is waiting for.
pub open spec fn accepts(ph: Phase, e: Event) -> bool {
    match ph {
        Phase::AwaitingFill => e is LegsRead || e is ReadFailed,
        Phase::ForcedReread { .. } => e is OrderRead || e is ReadFailed,
        Phase::SiblingCheck { .. } => e is OrderRead || e is ReadFailed,
        Phase::SiblingRecheck { .. } => e is OrderRead || e is ReadFailed,
        Phase::AwaitingHedge { .. } => e is HedgeRead || e is ReadFailed,
        Phase::ExitPricing { .. } => e is PriceRead || e is ReadFailed,
        Phase::AwaitingExitFill { .. } => e is OrderRead || e is ReadFailed,
        Phase::BothCanceled => false,
        Phase::Won => false,
        Phase::Lost => false,
        Phase::Abandoned => false,
    }
}

/// A phase in which the window's run is over.
pub open spec fn is_terminal(ph: Phase) -> bool {
    ph is BothCanceled || ph is Won || ph is Lost || ph is Abandoned
}

/// Well-formed configuration: sizes within the overflow-free range, prices
/// within one unit.
pub open spec fn cfg_wf(c: EngineConfig) -> bool {
    &&& 0 <= c.order_size.raw <= MAX_QTY_RAW
    &&& 0 <= c.hedge_enter_price.raw <= FIXED_SCALE
    &&& 0 <= c.initial_entry_price.raw <= FIXED_SCALE
}

/// Well-formed plan: both sizes within the overflow-free range.
pub open spec fn plan_wf(p: HedgePlan) -> bool {
    &&& 0 <= p.hedge_size.raw <= MAX_QTY_RAW
    &&& 0 <= p.close_size.raw <= MAX_QTY_RAW
}

/// Well-formed phase: every size it carries is within range.
pub open spec fn phase_wf(ph: Phase) -> bool {
    match ph {
        Phase::ForcedReread { leg: _, prelim } => 0 <= prelim.raw <= MAX_QTY_RAW,
        Phase::SiblingCheck { plan } => plan_wf(plan),
        Phase::SiblingRecheck { plan } => plan_wf(plan),
        Phase::AwaitingHedge { plan } => plan_wf(plan),
        Phase::ExitPricing { plan } => plan_wf(plan),
        Phase::AwaitingExitFill { plan } => plan_wf(plan),
        _ => true,
    }
}

/// The machine: a fixed window configuration and the current phase.
#[derive(Clone, Copy, PartialEq, Eq, Structural, Debug)]
pub struct PositionStateMachine {
    pub cfg: EngineConfig,
    pub phase: Phase,
}

/// The transition relation of the machine: from configuration `cfg` and
/// phase `pre`, observation `e` leads to phase `post` with the commands
/// `acts`.  Each accepted case pins `post` and `acts` down completely.
pub open spec fn spec_transition(
    cfg: EngineConfig,
    pre: Phase,
    e: Event,
    post: Phase,
    acts: Seq<Action>,
) -> bool {
    if e is ReadFailed {
        post is Abandoned && acts =~= Seq::<Action>::empty()
    } else {
        match pre {
            Phase::AwaitingFill => e matches Event::LegsRead { first, second, now }
                && spec_awaiting_fill_transition(cfg, first, second, now as int, post, acts),
            Phase::ForcedReread { leg, prelim } => e matches Event::OrderRead { snap } && {
                &&& post matches Phase::SiblingCheck { plan }
                &&& plan.entry_leg == leg
                &&& plan.hedge_size.raw == spec_normalized_size(
                    snap.size_matched.raw as int,
                    prelim.raw as int,
                )
                &&& plan.close_size == plan.hedge_size
                &&& acts =~= Seq::<Action>::empty()
            },
            Phase::SiblingCheck { plan } => e matches Event::OrderRead { snap } && {
                &&& post == Phase::SiblingRecheck { plan }
                &&& if snap.status is Canceled || snap.status is Matched {
                    acts =~= Seq::<Action>::empty()
                } else {
                    acts =~= seq![
                        Action::CancelOrder { order: spec_leg_order(spec_other_leg(plan.entry_leg)) },
                    ]
                }
            },
            Phase::SiblingRecheck { plan } => e matches Event::OrderRead { snap } && {
                &&& post == Phase::AwaitingHedge { plan }
                &&& acts.len() == 1
                &&& acts[0] matches Action::PlaceHedge { instrument, size, price }
                &&& instrument == spec_other_leg(plan.entry_leg)
                &&& size.raw == spec_corrected_hedge_size(
                    plan.hedge_size.raw as int,
                    snap.size_matched.raw as int,
                )
                &&& price == cfg.hedge_enter_price
            },
            Phase::AwaitingHedge { plan } => e matches Event::HedgeRead { snap, now } && {
                if snap.status is Matched {
                    &&& post is Won
                    &&& acts =~= seq![Action::RecordWin]
                } else if spec_allow_stop_loss(
                    now as int,
                    cfg.window_start as int,
                    cfg.stop_loss_grace as int,
                ) {
                    &&& post == Phase::ExitPricing { plan }
                    &&& acts =~= seq![Action::CancelOrder { order: OrderRef::Hedge }]
                } else {
                    &&& post == pre
                    &&& acts =~= Seq::<Action>::empty()
                }
            },
            Phase::ExitPricing { plan } => e matches Event::PriceRead { price } && {
                &&& post == Phase::AwaitingExitFill { plan }
                &&& acts.len() == 1
                &&& acts[0] matches Action::PlaceExit { instrument, size, price: p }
                &&& instrument == spec_other_leg(plan.entry_leg)
                &&& size.raw == spec_exit_size(
                    plan.close_size.raw as int,
                    cfg.initial_entry_price.raw as int,
                    price.raw as int,
                )
                &&& p == price
            },
            Phase::AwaitingExitFill { plan } => e matches Event::OrderRead { snap } && {
                if snap.status is Matched {
                    &&& post is Lost
                    &&& acts =~= seq![Action::RecordLoss]
                } else {
                    &&& post == Phase::ExitPricing { plan }
                    &&& acts =~= Seq::<Action>::empty()
                }
            },
            _ => false,
        }
    }
}

/// The transition out of `AwaitingFill` on a fresh read of both legs.
/// Checked in this order: a matched leg starts a hedge cycle (first leg
/// first), both legs canceled ends the window flat, and only then does a
/// closed window gate force partial positions out or cancel idle legs.
pub open spec fn spec_awaiting_fill_transition(
    cfg: EngineConfig,
    first: OrderSnapshot,
    second: OrderSnapshot,
    now: int,
    post: Phase,
    acts: Seq<Action>,
) -> bool {
    if first.status is Matched {
        &&& post matches Phase::SiblingCheck { plan }
        &&& spec_matched_plan(cfg, plan, LegId::First, first)
        &&& acts =~= seq![Action::CancelOrder { order: OrderRef::SecondLeg }]
    } else if second.status is Matched {
        &&& post matches Phase::SiblingCheck { plan }
        &&& spec_matched_plan(cfg, plan, LegId::Second, second)
        &&& acts =~= seq![Action::CancelOrder { order: OrderRef::FirstLeg }]
    } else if first.status is Canceled && second.status is Canceled {
        &&& post is BothCanceled
        &&& acts =~= Seq::<Action>::empty()
    } else if !spec_allow_trade(now, cfg.window_start as int, cfg.hold_grace as int) {
        if first.status is Live && first.size_matched.raw > 0 {
            &&& post matches Phase::ForcedReread { leg, prelim }
            &&& leg == LegId::First
            &&& prelim.raw == spec_normalized_size(
                first.size_matched.raw as int,
                cfg.order_size.raw as int,
            )
            &&& acts =~= seq![Action::CancelOrder { order: OrderRef::FirstLeg }]
        } else {
            let idle_first: Seq<Action> = if first.status is Live {
                seq![Action::CancelOrder { order: OrderRef::FirstLeg }]
            } else {
                Seq::<Action>::empty()
            };
            if second.status is Live && second.size_matched.raw > 0 {
                &&& post matches Phase::ForcedReread { leg, prelim }
                &&& leg == LegId::Second
                &&& prelim.raw == spec_normalized_size(
                    second.size_matched.raw as int,
                    cfg.order_size.raw as int,
                )
                &&& acts =~= idle_first + seq![Action::CancelOrder { order: OrderRef::SecondLeg }]
            } else if second.status is Live {
                &&& post is AwaitingFill
                &&& acts =~= idle_first + seq![Action::CancelOrder { order: OrderRef::SecondLeg }]
            } else {
                &&& post is AwaitingFill
                &&& acts =~= idle_first
            }
        }
    } else {
        &&& post is AwaitingFill
        &&& acts =~= Seq::<Action>::empty()
    }
}

/// The hedge plan built when leg `leg` matches with snapshot `snap`: both
/// the hedge size and the close size are the observed filled size,
/// normalized with the requested order size as fallback.
pub open spec fn spec_matched_plan(
    cfg: EngineConfig,
    plan: HedgePlan,
    leg: LegId,
    snap: OrderSnapshot,
) -> bool {
    &&& plan.entry_leg == leg
    &&& plan.hedge_size.raw == spec_normalized_size(
        snap.size_matched.raw as int,
        cfg.order_size.raw as int,
    )
    &&& plan.close_size == plan.hedge_size
}

impl PositionStateMachine {
    /// All sizes the machine carries are within the overflow-free range.
    pub open spec fn wf(self) -> bool {
        cfg_wf(self.cfg) && phase_wf(self.phase)
    }

    /// A fresh machine for one window, awaiting the first fill.
    pub fn new(cfg: EngineConfig) -> (m: PositionStateMachine)
        requires
            cfg_wf(cfg),
        ensures
            m.cfg == cfg,
            m.phase == Phase::AwaitingFill,
            m.wf(),
    {
        PositionStateMachine { cfg, phase: Phase::AwaitingFill }
    }

    /// Advance the machine by one observation and return the commands the
    /// driver must carry out before the next poll.
    pub fn step(&mut self, e: Event) -> (acts: Vec<Action>)
        requires
            old(self).wf(),
            accepts(old(self).phase, e),
            event_wf(e),
        ensures
            final(self).cfg == old(self).cfg,
            final(self).wf(),
            spec_transition(old(self).cfg, old(self).phase, e, final(self).phase, acts@),
    {
        if let Event::ReadFailed = e {
            self.phase = Phase::Abandoned;
            return Vec::new();
        }
        let ph = self.phase;
        match ph {
            Phase::AwaitingFill => {
                if let Event::LegsRead { first, second, now } = e {
                    self.step_awaiting_fill(first, second, now)
                } else {
                    proof {
                        assert(false);
                    }
                    Vec::new()
                }
            },
            Phase::ForcedReread { leg, prelim } => {
                if let Event::OrderRead { snap } = e {
                    let size = normalized_size(snap.size_matched, prelim);
                    proof {
                        lemma_trunc_toward_zero_bounds(snap.size_matched.raw as int, 10_000);
                    }
                    self.phase = Phase::SiblingCheck {
                        plan: HedgePlan { entry_leg: leg, hedge_size: size, close_size: size },
                    };
                    Vec::new()
                } else {
                    proof {
                        assert(false);
                    }
                    Vec::new()
                }
            },
            Phase::SiblingCheck { plan } => {
                if let Event::OrderRead { snap } = e {
                    self.phase = Phase::SiblingRecheck { plan };
                    let mut acts: Vec<Action> = Vec::new();
                    if !matches!(snap.status, OrderStatus::Canceled | OrderStatus::Matched) {
                        let sibling = other_leg(plan.entry_leg);
                        let order = match sibling {
                            LegId::First => OrderRef::FirstLeg,
                            LegId::Second => OrderRef::SecondLeg,
                        };
                        acts.push(Action::CancelOrder { order });
                    }
                    acts
                } else {
                    proof {
                        assert(false);
                    }
                    Vec::new()
                }
            },
            Phase::SiblingRecheck { plan } => {
                if let Event::OrderRead { snap } = e {
                    let size = corrected_hedge_size(plan.hedge_size, snap.size_matched);
                    proof {
                        lemma_trunc_toward_zero_bounds(snap.size_matched.raw as int, 10_000);
                    }
                    self.phase = Phase::AwaitingHedge { plan };
                    let mut acts: Vec<Action> = Vec::new();
                    acts.push(Action::PlaceHedge {
                        instrument: other_leg(plan.entry_leg),
                        size,
                        price: self.cfg.hedge_enter_price,
                    });
                    acts
                } else {
                    proof {
                        assert(false);
                    }
                    Vec::new()
                }
            },
            Phase::AwaitingHedge { plan } => {
                if let Event::HedgeRead { snap, now } = e {
                    let mut acts: Vec<Action> = Vec::new();
                    if matches!(snap.status, OrderStatus::Matched) {
                        self.phase = Phase::Won;
                        acts.push(Action::RecordWin);
                    } else if allow_stop_loss_at(
                        now,
                        self.cfg.window_start,
                        self.cfg.stop_loss_grace,
                    ) {
                        self.phase = Phase::ExitPricing { plan };
                        acts.push(Action::CancelOrder { order: OrderRef::Hedge });
                    }
                    acts
                } else {
                    proof {
                        assert(false);
                    }
                    Vec::new()
                }
            },
            Phase::ExitPricing { plan } => {
                if let Event::PriceRead { price } = e {
                    let size = exit_order_size(
                        plan.close_size,
                        self.cfg.initial_entry_price,
                        price,
                    );
                    self.phase = Phase::AwaitingExitFill { plan };
                    let mut acts: Vec<Action> = Vec::new();
                    acts.push(Action::PlaceExit {
                        instrument: other_leg(plan.entry_leg),
                        size,
                        price,
                    });
                    acts
                } else {
                    proof {
                        assert(false);
                    }
                    Vec::new()
                }
            },
            Phase::AwaitingExitFill { plan } => {
                if let Event::OrderRead { snap } = e {
                    let mut acts: Vec<Action> = Vec::new();
                    if matches!(snap.status, OrderStatus::Matched) {
                        self.phase = Phase::Lost;
                        acts.push(Action::RecordLoss);
                    } else {
                        self.phase = Phase::ExitPricing { plan };
                    }
                    acts
                } else {
                    proof {
                        assert(false);
                    }
                    Vec::new()
                }
            },
            _ => {
                proof {
                    assert(false);
                }
                Vec::new()
            },
        }
    }

    /// The `AwaitingFill` step: react to fresh reads of both legs.
    fn step_awaiting_fill(&mut self, first: OrderSnapshot, second: OrderSnapshot, now: i64)
        -> (acts: Vec<Action>)
        requires
            old(self).wf(),
            old(self).phase is AwaitingFill,
            snapshot_wf(first),
            snapshot_wf(second),
        ensures
            final(self).cfg == old(self).cfg,
            final(self).wf(),
            spec_awaiting_fill_transition(
                old(self).cfg,
                first,
                second,
                now as int,
                final(self).phase,
                acts@,
            ),
    {
        proof {
            lemma_trunc_toward_zero_bounds(first.size_matched.raw as int, 10_000);
            lemma_trunc_toward_zero_bounds(second.size_matched.raw as int, 10_000);
        }
        let mut acts: Vec<Action> = Vec::new();
        if matches!(first.status, OrderStatus::Matched) {
            let size = normalized_size(first.size_matched, self.cfg.order_size);
            self.phase = Phase::SiblingCheck {
                plan: HedgePlan { entry_leg: LegId::First, hedge_size: size, close_size: size },
            };
            acts.push(Action::CancelOrder { order: OrderRef::SecondLeg });
        } else if matches!(second.status, OrderStatus::Matched) {
            let size = normalized_size(second.size_matched, self.cfg.order_size);
            self.phase = Phase::SiblingCheck {
                plan: HedgePlan { entry_leg: LegId::Second, hedge_size: size, close_size: size },
            };
            acts.push(Action::CancelOrder { order: OrderRef::FirstLeg });
        } else if matches!(first.status, OrderStatus::Canceled)
            && matches!(second.status, OrderStatus::Canceled) {
            self.phase = Phase::BothCanceled;
        } else if !allow_trade_at(now, self.cfg.window_start, self.cfg.hold_grace) {
            if matches!(first.status, OrderStatus::Live) && first.size_matched.raw > 0 {
                let prelim = normalized_size(first.size_matched, self.cfg.order_size);
                self.phase = Phase::ForcedReread { leg: LegId::First, prelim };
                acts.push(Action::CancelOrder { order: OrderRef::FirstLeg });
            } else {
                if matches!(first.status, OrderStatus::Live) {
                    acts.push(Action::CancelOrder { order: OrderRef::FirstLeg });
                }
                if matches!(second.status, OrderStatus::Live) && second.size_matched.raw > 0 {
                    let prelim = normalized_size(second.size_matched, self.cfg.order_size);
                    self.phase = Phase::ForcedReread { leg: LegId::Second, prelim };
                    acts.push(Action::CancelOrder { order: OrderRef::SecondLeg });
                } else if matches!(second.status, OrderStatus::Live) {
                    acts.push(Action::CancelOrder { order: OrderRef::SecondLeg });
                }
            }
        }
        acts
    }
}

/// Build the per-cycle [`HedgeConfig`] for a hedge of `entry_leg`'s
/// exposure: the sibling order is the one to cancel, the sibling's
/// instrument is hedged onto, and the entry leg's instrument is hedged away
/// from.
pub fn build_hedge_config(
    cfg: &EngineConfig,
    tokens: &MarketResponse,
    first_order_id: &str,
    second_order_id: &str,
    plan: &HedgePlan,
) -> (r: HedgeConfig)
    ensures
        r.asset == cfg.asset,
        plan.entry_leg is First ==> {
            &&& r.second_order_id@ == second_order_id@
            &&& r.hedge_asset_id@ == tokens.second_asset_id@
            &&& r.initial_asset_id@ == tokens.first_asset_id@
        },
        plan.entry_leg is Second ==> {
            &&& r.second_order_id@ == first_order_id@
            &&& r.hedge_asset_id@ == tokens.first_asset_id@
            &&& r.initial_asset_id@ == tokens.second_asset_id@
        },
        r.hedge_size == plan.hedge_size,
        r.close_size == plan.close_size,
        r.hedge_enter_price == cfg.hedge_enter_price,
        r.initial_entry_price == cfg.initial_entry_price,
        r.stop_loss_after == cfg.stop_loss_grace,
        r.timestamp == cfg.window_start,
{
    match plan.entry_leg {
        LegId::First => HedgeConfig {
            asset: cfg.asset,
            second_order_id: String::from_str(second_order_id),
            hedge_asset_id: tokens.second_asset_id.clone(),
            initial_asset_id: tokens.first_asset_id.clone(),
            hedge_size: plan.hedge_size,
            hedge_enter_price: cfg.hedge_enter_price,
            initial_entry_price: cfg.initial_entry_price,
            close_size: plan.close_size,
            stop_loss_after: cfg.stop_loss_grace,
            timestamp: cfg.window_start,
        },
        LegId::Second => HedgeConfig {
            asset: cfg.asset,
            second_order_id: String::from_str(first_order_id),
            hedge_asset_id: tokens.first_asset_id.clone(),
            initial_asset_id: tokens.second_asset_id.clone(),
            hedge_size: plan.hedge_size,
            hedge_enter_price: cfg.hedge_enter_price,
            initial_entry_price: cfg.initial_entry_price,
            close_size: plan.close_size,
            stop_loss_after: cfg.stop_loss_grace,
            timestamp: cfg.window_start,
        },
    }
}

/// The hedge order the machine places never exceeds the plan's intended
/// hedge size plus the magnitude of the observed partial-fill correction,
/// and it is strictly positive whenever the intended size is positive and
/// the truncated sibling fill does not cancel it out exactly.
pub proof fn lemma_placed_hedge_size_bounds(
    cfg: EngineConfig,
    plan: HedgePlan,
    e: Event,
    post: Phase,
    acts: Seq<Action>,
)
    requires
        spec_transition(cfg, Phase::SiblingRecheck { plan }, e, post, acts),
        !(e is ReadFailed),
        plan.hedge_size.raw > 0,
        e matches Event::OrderRead { snap } ==> (snap.size_matched.raw > 0
            ==> crate::fixed::spec_floor2(snap.size_matched.raw as int)
                != plan.hedge_size.raw as int),
    ensures
        acts[0] matches Action::PlaceHedge { instrument: _, size, price: _ } && {
            &&& size.raw > 0
            &&& e matches Event::OrderRead { snap } ==> size.raw <= plan.hedge_size.raw
                + crate::fixed::spec_correction_magnitude(
                    plan.hedge_size.raw as int,
                    snap.size_matched.raw as int,
                )
        },
{
    let snap = e->OrderRead_snap;
    crate::fixed::lemma_corrected_hedge_size_bounds(
        plan.hedge_size.raw as int,
        snap.size_matched.raw as int,
    );
}

/// What a cancel call does to an order at the venue: nothing when the order
/// already reached a terminal state, otherwise it cancels the order.
pub open spec fn spec_cancel_effect(st: OrderStatus) -> OrderStatus {
    match st {
        OrderStatus::Matched => OrderStatus::Matched,
        OrderStatus::Canceled => OrderStatus::Canceled,
        _ => OrderStatus::Canceled,
    }
}

/// The status of an order after `n` cancel calls against it.
pub open spec fn spec_after_cancels(st: OrderStatus, n: nat) -> OrderStatus
    decreases n,
{
    if n == 0 {
        st
    } else {
        spec_cancel_effect(spec_after_cancels(st, (n - 1) as nat))
    }
}

/// How many of `n` consecutive cancel calls against an order starting in
/// status `st` actually change its state.
pub open spec fn spec_effective_cancels(st: OrderStatus, n: nat) -> nat
    decreases n,
{
    if n == 0 {
        0
    } else {
        spec_effective_cancels(st, (n - 1) as nat) + if spec_after_cancels(st, (n - 1) as nat)
            == spec_cancel_effect(spec_after_cancels(st, (n - 1) as nat)) {
            0nat
        } else {
            1nat
        }
    }
}

/// Whether `acts` asks the driver to cancel order `order`.
pub open spec fn cancels(acts: Seq<Action>, order: OrderRef) -> bool {
    exists|k: int| 0 <= k < acts.len() && acts[k] == (Action::CancelOrder { order })
}

/// Phases reachable only after the stop-loss unwind has begun; the machine
/// never leaves this set once it enters it.
pub open spec fn past_stop_loss(ph: Phase) -> bool {
    ph is ExitPricing || ph is AwaitingExitFill || ph is Lost || ph is Abandoned
}

/// A sequence of observations with the phases and actions the machine went
/// through: `phases[0]` is the starting phase and step `i` turned
/// `phases[i]` into `phases[i + 1]` emitting `actions[i]`.
pub open spec fn consistent_run(
    cfg: EngineConfig,
    phases: Seq<Phase>,
    events: Seq<Event>,
    actions: Seq<Seq<Action>>,
) -> bool {
    &&& phases.len() == events.len() + 1
    &&& actions.len() == events.len()
    &&& forall|i: int|
        0 <= i < events.len() ==> #[trigger] spec_transition(
            cfg,
            phases[i],
            events[i],
            phases[i + 1],
            actions[i],
        )
}

/// A terminal phase is final: the machine takes no further observation,
/// so the only way a window's run ends is by observing a terminal
/// condition, and a recorded outcome never reverts.
pub proof fn lemma_terminal_is_final(ph: Phase, e: Event)
    requires
        is_terminal(ph),
    ensures
        !accepts(ph, e),
{
}

/// When a hedge cycle re-confirms the sibling order, a cancel goes out
/// exactly when the fresh read shows the sibling not yet in a terminal
/// state; an already matched or canceled sibling is left alone.
pub proof fn lemma_sibling_cancel_guarded(
    cfg: EngineConfig,
    plan: HedgePlan,
    snap: OrderSnapshot,
    post: Phase,
    acts: Seq<Action>,
)
    requires
        spec_transition(cfg, Phase::SiblingCheck { plan }, Event::OrderRead { snap }, post, acts),
    ensures
        cancels(acts, spec_leg_order(spec_other_leg(plan.entry_leg))) <==> !(snap.status
            is Canceled || snap.status is Matched),
{
    if !(snap.status is Canceled || snap.status is Matched) {
        assert(acts[0] == (Action::CancelOrder {
            order: spec_leg_order(spec_other_leg(plan.entry_leg)),
        }));
    }
}

/// A step that cancels the hedge order leaves the machine past the
/// stop-loss point, and no step taken past that point cancels the hedge
/// order again.
pub proof fn lemma_hedge_cancel_step(
    cfg: EngineConfig,
    pre: Phase,
    e: Event,
    post: Phase,
    acts: Seq<Action>,
)
    requires
        spec_transition(cfg, pre, e, post, acts),
    ensures
        cancels(acts, OrderRef::Hedge) ==> pre is AwaitingHedge && past_stop_loss(post),
        past_stop_loss(pre) ==> past_stop_loss(post) && !cancels(acts, OrderRef::Hedge),
{
}

/// Once past the stop-loss point the machine stays there.
proof fn lemma_past_stop_loss_persists(
    cfg: EngineConfig,
    phases: Seq<Phase>,
    events: Seq<Event>,
    actions: Seq<Seq<Action>>,
    k: int,
    m: int,
)
    requires
        consistent_run(cfg, phases, events, actions),
        0 <= k <= m < phases.len(),
        past_stop_loss(phases[k]),
    ensures
        past_stop_loss(phases[m]),
    decreases m - k,
{
    if m > k {
        lemma_past_stop_loss_persists(cfg, phases, events, actions, k, m - 1);
        assert(spec_transition(cfg, phases[m - 1], events[m - 1], phases[m - 1 + 1], actions[m - 1]));
        lemma_hedge_cancel_step(cfg, phases[m - 1], events[m - 1], phases[m], actions[m - 1]);
    }
}

/// In any run of the machine, the hedge order is asked to be canceled at
/// most once: after the step that cancels it, no later step cancels it
/// again.
pub proof fn lemma_hedge_canceled_at_most_once(
    cfg: EngineConfig,
    phases: Seq<Phase>,
    events: Seq<Event>,
    actions: Seq<Seq<Action>>,
    i: int,
    j: int,
)
    requires
        consistent_run(cfg, phases, events, actions),
        0 <= i < j < actions.len(),
        cancels(actions[i], OrderRef::Hedge),
    ensures
        !cancels(actions[j], OrderRef::Hedge),
{
    assert(spec_transition(cfg, phases[i], events[i], phases[i + 1], actions[i]));
    assert(spec_transition(cfg, phases[j], events[j], phases[j + 1], actions[j]));
    lemma_hedge_cancel_step(cfg, phases[i], events[i], phases[i + 1], actions[i]);
    lemma_past_stop_loss_persists(cfg, phases, events, actions, i + 1, j);
    lemma_hedge_cancel_step(cfg, phases[j], events[j], phases[j + 1], actions[j]);
}

/// Whether `acts` places the resting hedge order.
pub open spec fn places_hedge(acts: Seq<Action>) -> bool {
    exists|k: int| 0 <= k < acts.len() && acts[k] is PlaceHedge
}

/// Phases at or past the point where the hedge order exists; the machine
/// never leaves this set once it enters it.
pub open spec fn hedge_placed(ph: Phase) -> bool {
    ph is AwaitingHedge || ph is ExitPricing || ph is AwaitingExitFill || ph is Won || ph is Lost
        || ph is Abandoned
}

/// A step that places the hedge order leaves the machine in the region
/// where the hedge exists, and no step taken inside that region places
/// another one.
pub proof fn lemma_hedge_place_step(
    cfg: EngineConfig,
    pre: Phase,
    e: Event,
    post: Phase,
    acts: Seq<Action>,
)
    requires
        spec_transition(cfg, pre, e, post, acts),
    ensures
        places_hedge(acts) ==> pre is SiblingRecheck && hedge_placed(post),
        hedge_placed(pre) ==> hedge_placed(post) && !places_hedge(acts),
{
}

/// Once the hedge order exists the machine stays in that region.
proof fn lemma_hedge_placed_persists(
    cfg: EngineConfig,
    phases: Seq<Phase>,
    events: Seq<Event>,
    actions: Seq<Seq<Action>>,
    k: int,
    m: int,
)
    requires
        consistent_run(cfg, phases, events, actions),
        0 <= k <= m < phases.len(),
        hedge_placed(phases[k]),
    ensures
        hedge_placed(phases[m]),
    decreases m - k,
{
    if m > k {
        lemma_hedge_placed_persists(cfg, phases, events, actions, k, m - 1);
        assert(spec_transition(cfg, phases[m - 1], events[m - 1], phases[m - 1 + 1], actions[m - 1]));
        lemma_hedge_place_step(cfg, phases[m - 1], events[m - 1], phases[m], actions[m - 1]);
    }
}

/// In any run of the machine, the resting hedge order is placed at most
/// once: after the step that places it, no later step places another.
pub proof fn lemma_hedge_placed_at_most_once(
    cfg: EngineConfig,
    phases: Seq<Phase>,
    events: Seq<Event>,
    actions: Seq<Seq<Action>>,
    i: int,
    j: int,
)
    requires
        consistent_run(cfg, phases, events, actions),
        0 <= i < j < actions.len(),
        places_hedge(actions[i]),
    ensures
        !places_hedge(actions[j]),
{
    assert(spec_transition(cfg, phases[i], events[i], phases[i + 1], actions[i]));
    assert(spec_transition(cfg, phases[j], events[j], phases[j + 1], actions[j]));
    lemma_hedge_place_step(cfg, phases[i], events[i], phases[i + 1], actions[i]);
    lemma_hedge_placed_persists(cfg, phases, events, actions, i + 1, j);
    lemma_hedge_place_step(cfg, phases[j], events[j], phases[j + 1], actions[j]);
}

/// Whether `acts` records a win or a loss.
pub open spec fn records_outcome(acts: Seq<Action>) -> bool {
    exists|k: int| 0 <= k < acts.len() && (acts[k] is RecordWin || acts[k] is RecordLoss)
}

/// A step that records an outcome ends in a terminal phase, and a step
/// taken from a terminal phase does nothing and stays terminal.
pub proof fn lemma_outcome_step(
    cfg: EngineConfig,
    pre: Phase,
    e: Event,
    post: Phase,
    acts: Seq<Action>,
)
    requires
        spec_transition(cfg, pre, e, post, acts),
    ensures
        records_outcome(acts) ==> is_terminal(post),
        is_terminal(pre) ==> is_terminal(post) && acts =~= Seq::<Action>::empty(),
{
}

/// Once terminal, a run stays terminal.
proof fn lemma_terminal_persists(
    cfg: EngineConfig,
    phases: Seq<Phase>,
    events: Seq<Event>,
    actions: Seq<Seq<Action>>,
    k: int,
    m: int,
)
    requires
        consistent_run(cfg, phases, events, actions),
        0 <= k <= m < phases.len(),
        is_terminal(phases[k]),
    ensures
        is_terminal(phases[m]),
    decreases m - k,
{
    if m > k {
        lemma_terminal_persists(cfg, phases, events, actions, k, m - 1);
        assert(spec_transition(cfg, phases[m - 1], events[m - 1], phases[m - 1 + 1], actions[m - 1]));
        lemma_outcome_step(cfg, phases[m - 1], events[m - 1], phases[m], actions[m - 1]);
    }
}

/// In any run of the machine, at most one outcome is recorded: after the
/// step that records a win or a loss, every later step does nothing.
pub proof fn lemma_outcome_recorded_at_most_once(
    cfg: EngineConfig,
    phases: Seq<Phase>,
    events: Seq<Event>,
    actions: Seq<Seq<Action>>,
    i: int,
    j: int,
)
    requires
        consistent_run(cfg, phases, events, actions),
        0 <= i < j < actions.len(),
        records_outcome(actions[i]),
    ensures
        actions[j] =~= Seq::<Action>::empty(),
{
    assert(spec_transition(cfg, phases[i], events[i], phases[i + 1], actions[i]));
    assert(spec_transition(cfg, phases[j], events[j], phases[j + 1], actions[j]));
    lemma_outcome_step(cfg, phases[i], events[i], phases[i + 1], actions[i]);
    lemma_terminal_persists(cfg, phases, events, actions, i + 1, j);
    lemma_outcome_step(cfg, phases[j], events[j], phases[j + 1], actions[j]);
}

/// Canceling an order is idempotent: a second cancel call finds a terminal
/// order and leaves it unchanged.
pub proof fn lemma_cancel_idempotent(st: OrderStatus)
    ensures
        spec_cancel_effect(spec_cancel_effect(st)) == spec_cancel_effect(st),
{
}

/// Across any series of cancel calls against one order, at most one call
/// has an effect; every later call is an idempotent no-op.
pub proof fn lemma_cancel_effective_at_most_once(st: OrderStatus, n: nat)
    ensures
        spec_effective_cancels(st, n) <= 1,
        n >= 1 ==> spec_after_cancels(st, n) == spec_cancel_effect(st),
    decreases n,
{
    if n >= 1 {
        lemma_cancel_effective_at_most_once(st, (n - 1) as nat);
        lemma_cancel_idempotent(st);
    }
}

} // verus!
