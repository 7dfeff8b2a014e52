use volume_bot::bot::{init_transition, BotConfig, BotState, PerformanceTracker, TradingEngine};
use volume_bot::exchange::{Balance, ExchangeClient, OrderBook, OrderSide, OrderType, Ticker};
use volume_bot::monad::{fail, unit, BotError, MResult};

fn config() -> BotConfig {
    BotConfig {
        symbol: "BTC/USDT".to_string(),
        api_key: "key".to_string(),
        secret_key: "secret".to_string(),
        strategy_risk_factor: 1_000,
    }
}

/// A scripted exchange adapter for driving the engine deterministically.
struct StubClient {
    connectivity_ok: bool,
    price: i64,
    volume_1h: i64,
}

impl ExchangeClient for StubClient {
    fn fetch_ticker(&self, symbol: &str) -> MResult<Ticker> {
        unit(Ticker {
            symbol: symbol.to_string(),
            price: self.price,
            volume_24h: self.volume_1h * 24,
            volume_1h: self.volume_1h,
            open: self.price,
            high: self.price,
            low: self.price,
            bid: self.price,
            ask: self.price,
            timestamp: 1,
        })
    }

    fn fetch_order_book(&self, symbol: &str, depth: u32) -> MResult<OrderBook> {
        unit(OrderBook {
            symbol: symbol.to_string(),
            bids: (0..depth)
                .map(|i| volume_bot::exchange::PriceLevel {
                    price: self.price - i as i64,
                    quantity: 1_000,
                })
                .collect(),
            asks: (0..depth)
                .map(|i| volume_bot::exchange::PriceLevel {
                    price: self.price + i as i64,
                    quantity: 1_000,
                })
                .collect(),
            last_update_id: 1,
        })
    }

    fn fetch_balance(&self, asset: &str) -> MResult<Balance> {
        unit(Balance {
            asset: asset.to_string(),
            free: 50_000_000,
            locked: 0,
        })
    }

    fn execute_order(
        &self,
        _symbol: &str,
        _side: OrderSide,
        _order_type: OrderType,
        qty: i64,
        price: Option<i64>,
    ) -> MResult<String> {
        if qty <= 0 || price == Some(0) {
            fail(BotError::ExchangeError("rejected".to_string()))
        } else {
            unit("ORD-TEST-1".to_string())
        }
    }

    fn check_connectivity(&self) -> MResult<u64> {
        if self.connectivity_ok {
            unit(5)
        } else {
            fail(BotError::NetworkFailure("unreachable".to_string()))
        }
    }
}

#[test]
fn test_init_transition_success_syncs() {
    let conn: MResult<u64> = Ok(45);
    assert_eq!(init_transition(&conn), BotState::Syncing);
}

#[test]
fn test_init_transition_failure_pauses_with_reason() {
    let conn: MResult<u64> = Err(BotError::NetworkFailure("down".to_string()));
    match init_transition(&conn) {
        BotState::Paused(reason) => assert!(!reason.is_empty()),
        other => panic!("Expected Paused, got {:?}", other),
    }
}

#[test]
fn test_engine_starts_initializing() {
    let engine = TradingEngine::new(config());
    assert_eq!(*engine.state(), BotState::Initializing);
}

#[test]
fn test_tick_initializing_to_syncing_on_connectivity() {
    let client = StubClient {
        connectivity_ok: true,
        price: 2_000_000,
        volume_1h: 1_000_000,
    };
    let mut engine = TradingEngine::with_client(config(), client);
    let r = engine.tick();
    assert!(r.is_ok());
    assert_eq!(*engine.state(), BotState::Syncing);
}

#[test]
fn test_tick_initializing_to_paused_on_failure() {
    let client = StubClient {
        connectivity_ok: false,
        price: 2_000_000,
        volume_1h: 1_000_000,
    };
    let mut engine = TradingEngine::with_client(config(), client);
    let r = engine.tick();
    assert!(r.is_ok());
    match engine.state() {
        BotState::Paused(reason) => assert!(!reason.is_empty()),
        other => panic!("Expected Paused, got {:?}", other),
    }
}

#[test]
fn test_tick_paused_recovers_to_initializing() {
    let client = StubClient {
        connectivity_ok: false,
        price: 2_000_000,
        volume_1h: 1_000_000,
    };
    let mut engine = TradingEngine::with_client(config(), client);
    let r = engine.tick(); // Initializing -> Paused
    assert!(r.is_ok());
    let r = engine.tick(); // Paused -> Initializing, unconditionally
    assert!(r.is_ok());
    assert_eq!(*engine.state(), BotState::Initializing);
}

#[test]
fn test_tick_full_lifecycle_reaches_trading_and_stays() {
    let client = StubClient {
        connectivity_ok: true,
        price: 2_000_000,
        volume_1h: 1_000_000,
    };
    let mut engine = TradingEngine::with_client(config(), client);
    assert!(engine.tick().is_ok()); // Initializing -> Syncing
    assert!(engine.tick().is_ok()); // Syncing -> Trading
    assert_eq!(*engine.state(), BotState::Trading);
    for _ in 0..30 {
        // quiet market: every trading tick resolves successfully
        assert!(engine.tick().is_ok());
        assert_eq!(*engine.state(), BotState::Trading);
    }
    // volume stayed below the threshold: nothing was ever attempted
    assert_eq!(engine.failed_attempts(), 0);
}

#[test]
fn test_tracker_counts_trades_and_errors() {
    let mut tracker = PerformanceTracker::new();
    tracker.record_trade(400);
    tracker.record_trade(600);
    tracker.record_error();
    assert_eq!(tracker.trades_executed(), 2);
    assert_eq!(tracker.successful_trades(), 2);
    assert_eq!(tracker.failed_trades(), 1);
    assert_eq!(tracker.total_volume_traded(), 1_000);
}

#[test]
fn test_state_describe_lines() {
    assert_eq!(BotState::Initializing.describe(), "INITIALIZING");
    assert_eq!(BotState::Syncing.describe(), "SYNCING DATA");
    assert_eq!(BotState::Trading.describe(), "ACTIVE TRADING");
    assert_eq!(
        BotState::Paused("x".to_string()).describe(),
        "PAUSED [x]"
    );
    assert_eq!(BotState::Terminating.describe(), "TERMINATING");
}
