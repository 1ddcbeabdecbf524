use hedgecore::fixed::Fixed;
use hedgecore::types::{
    entry_order_intents, hedge_order_intent, market_close_intent, Asset, HedgeConfig,
    MarketResponse, OrderType, Side,
};

fn fx(raw: i64) -> Fixed {
    Fixed::from_raw(raw)
}

#[test]
fn entry_intents_are_resting_buys_on_both_instruments() {
    let tokens = MarketResponse {
        first_asset_id: "tok-up".to_string(),
        second_asset_id: "tok-down".to_string(),
    };
    let (a, b) = entry_order_intents(&tokens, fx(50_000_000), fx(500_000));
    assert_eq!(a.token_id, "tok-up");
    assert_eq!(b.token_id, "tok-down");
    assert_eq!(a.side, Side::Buy);
    assert_eq!(b.side, Side::Buy);
    assert_eq!(a.order_type, OrderType::Gtc);
    assert_eq!(b.order_type, OrderType::Gtc);
    assert_eq!(a.size.raw, 50_000_000);
    assert_eq!(b.size.raw, 50_000_000);
    assert_eq!(a.price, Some(fx(500_000)));
    assert_eq!(b.price, Some(fx(500_000)));
}

#[test]
fn hedge_intent_is_a_buy_at_the_given_price() {
    let r = hedge_order_intent("tok-down", fx(40_000_000), fx(450_000), OrderType::Gtc);
    assert_eq!(r.token_id, "tok-down");
    assert_eq!(r.side, Side::Buy);
    assert_eq!(r.order_type, OrderType::Gtc);
    assert_eq!(r.size.raw, 40_000_000);
    assert_eq!(r.price, Some(fx(450_000)));

    let r = hedge_order_intent("tok-down", fx(125_000_000), fx(800_000), OrderType::Fok);
    assert_eq!(r.order_type, OrderType::Fok);
}

#[test]
fn market_close_is_an_immediate_sell_without_limit() {
    let r = market_close_intent("tok-up", fx(50_000_000));
    assert_eq!(r.token_id, "tok-up");
    assert_eq!(r.side, Side::Sell);
    assert_eq!(r.order_type, OrderType::Fok);
    assert_eq!(r.size.raw, 50_000_000);
    assert_eq!(r.price, None);
}

#[test]
fn asset_labels() {
    assert_eq!(Asset::BTC.label(), "btc");
    assert_eq!(Asset::ETH.label(), "eth");
    assert_eq!(Asset::SOL.label(), "sol");
    assert_eq!(Asset::XRP.label(), "xrp");
    assert_eq!(Asset::Unknown.label(), "UNKNOWN");
}

#[test]
fn hedge_config_duplicate_is_equal() {
    let hc = HedgeConfig {
        asset: Asset::BTC,
        second_order_id: "ord-2".to_string(),
        hedge_asset_id: "tok-down".to_string(),
        initial_asset_id: "tok-up".to_string(),
        hedge_size: fx(50_000_000),
        hedge_enter_price: fx(450_000),
        initial_entry_price: fx(500_000),
        close_size: fx(50_000_000),
        stop_loss_after: 60,
        timestamp: 1_700_000_100,
    };
    let d = hc.duplicate();
    assert_eq!(d.asset, Asset::BTC);
    assert_eq!(d.second_order_id, hc.second_order_id);
    assert_eq!(d.hedge_asset_id, hc.hedge_asset_id);
    assert_eq!(d.initial_asset_id, hc.initial_asset_id);
    assert_eq!(d.hedge_size, hc.hedge_size);
    assert_eq!(d.hedge_enter_price, hc.hedge_enter_price);
    assert_eq!(d.initial_entry_price, hc.initial_entry_price);
    assert_eq!(d.close_size, hc.close_size);
    assert_eq!(d.stop_loss_after, hc.stop_loss_after);
    assert_eq!(d.timestamp, hc.timestamp);
}
