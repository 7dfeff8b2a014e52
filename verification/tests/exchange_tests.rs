use volume_bot::exchange::{BinanceClient, ExchangeClient, OrderSide, OrderType};
use volume_bot::monad::BotError;

#[test]
fn test_client_fetch_ticker_shape() {
    let client = BinanceClient::new("key", "secret");
    match client.fetch_ticker("BTC/USDT") {
        Ok(t) => {
            assert_eq!(t.symbol, "BTC/USDT");
            assert!(t.price > 0);
            // the simulated price rides a bounded wave around 2000
            assert!(t.price >= 1_950_000 && t.price <= 2_050_000);
            assert!(t.volume_1h >= 0);
            assert_eq!(t.volume_24h, t.volume_1h * 24);
        }
        // only the simulated transient fault may refuse a fetch
        Err(e) => assert!(matches!(e, BotError::NetworkFailure(_))),
    }
}

#[test]
fn test_client_fetch_order_book_depth() {
    let client = BinanceClient::new("key", "secret");
    match client.fetch_order_book("BTC/USDT", 5) {
        Ok(ob) => {
            assert_eq!(ob.symbol, "BTC/USDT");
            assert_eq!(ob.bids.len(), 5);
            assert_eq!(ob.asks.len(), 5);
            // bids descend from the touch, asks ascend
            assert!(ob.bids[0].price > ob.bids[4].price);
            assert!(ob.asks[0].price < ob.asks[4].price);
        }
        Err(e) => assert!(matches!(e, BotError::NetworkFailure(_))),
    }
}

#[test]
fn test_client_fetch_balance_asset() {
    let client = BinanceClient::new("key", "secret");
    match client.fetch_balance("USDT") {
        Ok(b) => {
            assert_eq!(b.asset, "USDT");
            assert_eq!(b.free, 50_000_000);
            assert_eq!(b.locked, 1_200_000);
        }
        Err(e) => assert!(matches!(e, BotError::NetworkFailure(_))),
    }
}

#[test]
fn test_client_rejects_non_positive_quantity() {
    let client = BinanceClient::new("key", "secret");
    // a non-positive quantity can never produce an order id
    let r = client.execute_order("BTC/USDT", OrderSide::Buy, OrderType::Market, 0, None);
    assert!(r.is_err());
}

#[test]
fn test_client_rejects_limit_order_without_price() {
    let client = BinanceClient::new("key", "secret");
    let r = client.execute_order("BTC/USDT", OrderSide::Buy, OrderType::Limit, 1_000, None);
    assert!(r.is_err());
    let r = client.execute_order("BTC/USDT", OrderSide::Sell, OrderType::Limit, 1_000, Some(0));
    assert!(r.is_err());
}

#[test]
fn test_client_order_id_shape_on_success() {
    let client = BinanceClient::new("key", "secret");
    match client.execute_order(
        "BTC/USDT",
        OrderSide::Buy,
        OrderType::Limit,
        400,
        Some(2_000_000),
    ) {
        Ok(id) => assert!(id.starts_with("ORD-BTC/USDT-0-")),
        Err(e) => assert!(matches!(e, BotError::NetworkFailure(_))),
    }
}

#[test]
fn test_check_connectivity_reports_latency() {
    let client = BinanceClient::new("key", "secret");
    match client.check_connectivity() {
        Ok(latency) => assert_eq!(latency, 45),
        Err(e) => assert!(matches!(e, BotError::NetworkFailure(_))),
    }
}
