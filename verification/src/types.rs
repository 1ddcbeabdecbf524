//! Data model of the strategy: assets, order state as observed from the
//! venue, the per-cycle hedge configuration, and the order intents the
//! strategy asks the venue gateway to carry out.

use vstd::prelude::*;
use vstd::string::StringExecFns;
use crate::fixed::Fixed;

verus! {

/// The underlying asset of a binary-outcome market pair.
#[derive(Clone, Copy, PartialEq, Eq, Structural, Debug)]
pub enum Asset {
    BTC,
    ETH,
    SOL,
    XRP,
    Unknown,
}

impl Asset {
    /// The lowercase label the venue uses for this asset.
    pub open spec fn spec_label(self) -> Seq<char> {
        match self {
            Asset::BTC => "btc"@,
            Asset::ETH => "eth"@,
            Asset::SOL => "sol"@,
            Asset::XRP => "xrp"@,
            Asset::Unknown => "UNKNOWN"@,
        }
    }

    /// The lowercase label the venue uses for this asset.
    pub fn label(&self) -> (r: String)
        ensures
            r@ == self.spec_label(),
    {
        match self {
            Asset::BTC => String::from_str("btc"),
            Asset::ETH => String::from_str("eth"),
            Asset::SOL => String::from_str("sol"),
            Asset::XRP => String::from_str("xrp"),
            Asset::Unknown => String::from_str("UNKNOWN"),
        }
    }
}

/// A point-in-time order status as reported by the venue.  `Matched` and
/// `Canceled` are terminal; `Unknown` stands for any other venue state.
#[derive(Clone, Copy, PartialEq, Eq, Structural, Debug)]
pub enum OrderStatus {
    Live,
    Matched,
    Canceled,
    Unknown,
}

/// A point-in-time read of one order: its status and the cumulative matched
/// size.
#[derive(Clone, Copy, PartialEq, Eq, Structural, Debug)]
pub struct OrderSnapshot {
    pub status: OrderStatus,
    pub size_matched: Fixed,
}

/// Raw market-discovery payload: the venue's JSON field holding the two
/// instrument identifiers of a window as one bracketed string.
#[derive(Debug)]
pub struct MarketApiResponse {
    pub clob_token_ids: String,
}

/// The two correlated instrument identifiers of one market window.
#[derive(Debug)]
pub struct MarketResponse {
    pub first_asset_id: String,
    pub second_asset_id: String,
}

/// An order the strategy placed: the instrument it is on and the identifier
/// the venue assigned.
#[derive(Debug)]
pub struct OrderResponse {
    pub token_id: String,
    pub order_id: String,
}

/// Everything one hedge cycle needs: which sibling order to cancel, which
/// instrument to hedge onto and away from, the intended sizes and prices,
/// the stop-loss grace period, and the window timestamp anchoring all
/// deadline arithmetic.  Built once per leg-match event and immutable for
/// the cycle.
#[derive(Debug)]
pub struct HedgeConfig {
    pub asset: Asset,
    pub second_order_id: String,
    pub hedge_asset_id: String,
    pub initial_asset_id: String,
    pub hedge_size: Fixed,
    pub hedge_enter_price: Fixed,
    pub initial_entry_price: Fixed,
    pub close_size: Fixed,
    pub stop_loss_after: i64,
    pub timestamp: i64,
}

impl HedgeConfig {
    /// An equal copy of this configuration.
    pub fn duplicate(&self) -> (r: HedgeConfig)
        ensures
            r == *self,
    {
        HedgeConfig {
            asset: self.asset,
            second_order_id: self.second_order_id.clone(),
            hedge_asset_id: self.hedge_asset_id.clone(),
            initial_asset_id: self.initial_asset_id.clone(),
            hedge_size: self.hedge_size,
            hedge_enter_price: self.hedge_enter_price,
            initial_entry_price: self.initial_entry_price,
            close_size: self.close_size,
            stop_loss_after: self.stop_loss_after,
            timestamp: self.timestamp,
        }
    }
}

/// A hedge cycle forced by the window gate closing on a live, partially
/// filled leg: the configuration for the cycle plus the identifier of the
/// live order to cancel first.
#[derive(Debug)]
pub struct PreventHoldingConfig {
    pub hedge_config: HedgeConfig,
    pub order_id: String,
}

/// Side of an order.
#[derive(Clone, Copy, PartialEq, Eq, Structural, Debug)]
pub enum Side {
    Buy,
    Sell,
}

/// Venue order type: rest on the book until matched or canceled, or fill
/// immediately in full or not at all.
#[derive(Clone, Copy, PartialEq, Eq, Structural, Debug)]
pub enum OrderType {
    Gtc,
    Fok,
}

/// A fully determined order for the gateway to place: instrument, side,
/// type, size, and the limit price (absent for a market order).
#[derive(Debug)]
pub struct OrderIntent {
    pub token_id: String,
    pub side: Side,
    pub order_type: OrderType,
    pub size: Fixed,
    pub price: Option<Fixed>,
}

/// The hedge order for one cycle: a buy at the given price and size on the
/// hedge instrument, resting or immediate as `order_type` says.
pub fn hedge_order_intent(token_id: &str, order_size: Fixed, price: Fixed, order_type: OrderType)
    -> (r: OrderIntent)
    ensures
        r.token_id@ == token_id@,
        r.side == Side::Buy,
        r.order_type == order_type,
        r.size == order_size,
        r.price == Some(price),
{
    OrderIntent {
        token_id: String::from_str(token_id),
        side: Side::Buy,
        order_type,
        size: order_size,
        price: Some(price),
    }
}

/// A market close of `amount` shares: an immediate-or-cancel sell on the
/// given instrument at whatever the market bears.
pub fn market_close_intent(token_id: &str, amount: Fixed) -> (r: OrderIntent)
    ensures
        r.token_id@ == token_id@,
        r.side == Side::Sell,
        r.order_type == OrderType::Fok,
        r.size == amount,
        r.price is None,
{
    OrderIntent {
        token_id: String::from_str(token_id),
        side: Side::Sell,
        order_type: OrderType::Fok,
        size: amount,
        price: None,
    }
}

/// The two correlated entry orders of a window: resting buys of the same
/// size and price, one on each instrument of the pair.
pub fn entry_order_intents(tokens: &MarketResponse, order_size: Fixed, price: Fixed)
    -> (r: (OrderIntent, OrderIntent))
    ensures
        r.0.token_id@ == tokens.first_asset_id@,
        r.1.token_id@ == tokens.second_asset_id@,
        r.0.side == Side::Buy && r.1.side == Side::Buy,
        r.0.order_type == OrderType::Gtc && r.1.order_type == OrderType::Gtc,
        r.0.size == order_size && r.1.size == order_size,
        r.0.price == Some(price) && r.1.price == Some(price),
{
    (
        OrderIntent {
            token_id: tokens.first_asset_id.clone(),
            side: Side::Buy,
            order_type: OrderType::Gtc,
            size: order_size,
            price: Some(price),
        },
        OrderIntent {
            token_id: tokens.second_asset_id.clone(),
            side: Side::Buy,
            order_type: OrderType::Gtc,
            size: order_size,
            price: Some(price),
        },
    )
}

} // verus!
