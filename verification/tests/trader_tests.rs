use volume_bot::exchange::{Balance, OrderSide, Ticker};
use volume_bot::monad::BotError;
use volume_bot::trader::{
    decide_signal, Indicator, MarketRegime, RiskManager, Signal, Strategy,
    VolumeBreakoutStrategy, RSI, SMA,
};

fn ticker(price: i64, volume_1h: i64, timestamp: u64) -> Ticker {
    Ticker {
        symbol: "BTC/USDT".to_string(),
        price,
        volume_24h: volume_1h * 24,
        volume_1h,
        open: price - 10_000,
        high: price + 15_000,
        low: price - 15_000,
        bid: price - 200,
        ask: price + 200,
        timestamp,
    }
}

fn signal(side: OrderSide, strength: i64) -> Signal {
    Signal {
        symbol: "BTC/USDT".to_string(),
        side,
        strength,
        regime: MarketRegime::Bullish,
        timestamp: 0,
        reason: "test".to_string(),
    }
}

#[test]
fn test_sma_undefined_until_window_full() {
    let mut sma = SMA::new(3);
    assert_eq!(sma.value(), None);
    sma.update(1_000);
    assert_eq!(sma.value(), None);
    sma.update(2_000);
    assert_eq!(sma.value(), None);
    sma.update(3_000);
    assert_eq!(sma.value(), Some(2_000));
}

#[test]
fn test_sma_slides_over_last_period_inputs() {
    let mut sma = SMA::new(3);
    for p in [1_000, 2_000, 3_000, 4_000, 11_000] {
        sma.update(p);
    }
    // mean of exactly the last three inputs: (3000 + 4000 + 11000) / 3
    assert_eq!(sma.value(), Some(6_000));
}

#[test]
fn test_sma_reset_discards_history() {
    let mut sma = SMA::new(2);
    sma.update(1_000);
    sma.update(2_000);
    assert!(sma.value().is_some());
    sma.reset();
    assert_eq!(sma.value(), None);
}

#[test]
fn test_rsi_saturates_on_strictly_increasing_prices() {
    let mut rsi = RSI::new(3);
    for p in [1_000, 2_000, 3_000, 4_000, 5_000] {
        rsi.update(p);
    }
    // no losses at all: the oscillator reads its maximum (100.000)
    assert_eq!(rsi.value(), Some(100_000));
}

#[test]
fn test_rsi_undefined_until_window_full() {
    let mut rsi = RSI::new(3);
    rsi.update(1_000);
    rsi.update(2_000);
    rsi.update(3_000);
    // only two deltas so far: one short of the period
    assert_eq!(rsi.value(), None);
}

#[test]
fn test_rsi_balanced_gains_and_losses_read_midline() {
    let mut rsi = RSI::new(2);
    rsi.update(10_000);
    rsi.update(20_000); // gain 10.000
    rsi.update(10_000); // loss 10.000
    // equal gain and loss: 100 * 10 / (10 + 10), milli-scaled
    assert_eq!(rsi.value(), Some(50_000));
}

#[test]
fn test_strategy_no_signal_below_volume_threshold() {
    let mut strategy = VolumeBreakoutStrategy::new(2_500_000);
    // 25 rising ticks, volume always below the threshold: indicators warm
    // up fully, yet no tick may emit a signal
    for i in 0..25u64 {
        let t = ticker(2_000_000 + (i as i64) * 1_000, 1_000_000, i);
        let r = strategy.process_tick(&t);
        assert!(matches!(r, Ok(None)));
    }
}

#[test]
fn test_strategy_emits_nothing_before_warmup() {
    let mut strategy = VolumeBreakoutStrategy::new(2_500_000);
    // plenty of volume, but the slow average needs twenty prices
    for i in 0..19u64 {
        let t = ticker(2_000_000, 3_000_000, i);
        let r = strategy.process_tick(&t);
        assert!(matches!(r, Ok(None)));
    }
}

#[test]
fn test_strategy_sell_signal_cites_oscillator() {
    let mut strategy = VolumeBreakoutStrategy::new(2_500_000);
    // a high plateau, a crash that falls out of the oscillator window,
    // then fourteen small rises: downtrend for the averages, yet a
    // saturated oscillator
    let mut prices = vec![200_000i64; 6];
    prices.push(100_000);
    for i in 1..15i64 {
        prices.push(100_000 + 10 * i);
    }
    let mut last = Ok(None);
    for (i, p) in prices.iter().enumerate() {
        last = strategy.process_tick(&ticker(*p, 3_000_000, i as u64));
    }
    let sig = last.expect("tick must succeed").expect("the sell branch must fire");
    assert_eq!(sig.side, OrderSide::Sell);
    assert_eq!(sig.strength, 600);
    assert_eq!(sig.regime, MarketRegime::Bearish);
    assert_eq!(sig.symbol, "BTC/USDT");
    assert_eq!(sig.reason, "Bearish Cross + Overbought RSI 100.000");
}

#[test]
fn test_strategy_buy_signal_cites_averages_and_volume() {
    let mut strategy = VolumeBreakoutStrategy::new(2_500_000);
    // a sawtooth drifting upward: uptrend, oscillator at 60
    let mut p = 100_000i64;
    let mut last = Ok(None);
    for i in 0..30u64 {
        p += if i % 2 == 0 { 30 } else { -20 };
        last = strategy.process_tick(&ticker(p, 3_000_000, i));
    }
    let sig = last.expect("tick must succeed").expect("the buy branch must fire");
    assert_eq!(sig.side, OrderSide::Buy);
    assert_eq!(sig.strength, 800);
    assert_eq!(sig.regime, MarketRegime::Bullish);
    // the reason cites both averages and the confirming volume
    assert_eq!(sig.reason, "Golden Cross (S:100.150/L:100.115) + Vol 3000.000");
}

#[test]
fn test_decide_signal_buy_branch() {
    let r = decide_signal(
        Some(2_010_000),
        Some(1_995_000),
        Some(55_000),
        3_000_000,
        2_500_000,
    );
    assert_eq!(
        r,
        Some((OrderSide::Buy, 800, MarketRegime::Bullish))
    );
}

#[test]
fn test_decide_signal_sell_branch() {
    let r = decide_signal(
        Some(1_990_000),
        Some(2_000_000),
        Some(75_000),
        3_000_000,
        2_500_000,
    );
    assert_eq!(
        r,
        Some((OrderSide::Sell, 600, MarketRegime::Bearish))
    );
}

#[test]
fn test_decide_signal_volume_gate_wins() {
    let r = decide_signal(
        Some(2_010_000),
        Some(1_995_000),
        Some(55_000),
        2_000_000,
        2_500_000,
    );
    assert_eq!(r, None);
}

#[test]
fn test_decide_signal_needs_all_indicators() {
    let r = decide_signal(Some(2_010_000), None, Some(55_000), 3_000_000, 2_500_000);
    assert_eq!(r, None);
}

#[test]
fn test_decide_signal_neutral_market() {
    // uptrend but oscillator at the midline exactly: no branch fires
    let r = decide_signal(
        Some(2_010_000),
        Some(1_995_000),
        Some(50_000),
        3_000_000,
        2_500_000,
    );
    assert_eq!(r, None);
}

#[test]
fn test_risk_rejects_empty_balance() {
    let rm = RiskManager::new(20, 15);
    let bal = Balance {
        asset: "USDT".to_string(),
        free: 0,
        locked: 0,
    };
    match rm.calculate_entry(signal(OrderSide::Buy, 800), &bal, 2_000_000) {
        Err(BotError::RiskViolation(msg)) => assert_eq!(msg, "Insufficient free balance"),
        _ => panic!("Expected a RiskViolation"),
    }
}

#[test]
fn test_risk_rejects_dust_below_minimum_notional() {
    let rm = RiskManager::new(20, 15);
    // 100 units free: risk capital 100 * 0.02 * 0.8 = 1.6, below the floor
    let bal = Balance {
        asset: "USDT".to_string(),
        free: 100_000,
        locked: 0,
    };
    match rm.calculate_entry(signal(OrderSide::Buy, 800), &bal, 2_000_000) {
        Err(BotError::RiskViolation(msg)) => {
            assert_eq!(msg, "Calculated position size below exchange minimum")
        }
        _ => panic!("Expected a RiskViolation"),
    }
}

#[test]
fn test_risk_protective_levels_for_buy_at_100() {
    let rm = RiskManager::new(20, 15); // stop at 1.5%
    let bal = Balance {
        asset: "USDT".to_string(),
        free: 50_000_000,
        locked: 0,
    };
    let instr = rm
        .calculate_entry(signal(OrderSide::Buy, 800), &bal, 100_000)
        .expect("a valid buy must size");
    assert_eq!(instr.stop_loss, Some(98_500)); // 98.5
    assert_eq!(instr.take_profit, Some(103_000)); // 103.0
    assert_eq!(instr.limit_price, Some(100_000));
    assert!(instr.amount > 0);
}

#[test]
fn test_risk_sell_mirrors_stop_and_target() {
    let rm = RiskManager::new(20, 15);
    let bal = Balance {
        asset: "USDT".to_string(),
        free: 50_000_000,
        locked: 0,
    };
    let instr = rm
        .calculate_entry(signal(OrderSide::Sell, 600), &bal, 100_000)
        .expect("a valid sell must size");
    assert_eq!(instr.stop_loss, Some(101_500)); // stop above the entry
    assert_eq!(instr.take_profit, Some(97_000)); // target below it
}

#[test]
fn test_end_to_end_scenario_buy_then_size() {
    // snapshot at 2000 with hourly volume 3000, above the 2500 threshold;
    // warmed indicators read short 2010 > long 1995, oscillator 55
    let plan = decide_signal(
        Some(2_010_000),
        Some(1_995_000),
        Some(55_000),
        3_000_000,
        2_500_000,
    )
    .expect("the buy branch must fire");
    assert_eq!(plan, (OrderSide::Buy, 800, MarketRegime::Bullish));

    // free balance 50000, risk fraction 0.02, strength 0.8:
    // risk capital 800, quantity 800 / 2000 = 0.4
    let rm = RiskManager::new(20, 15);
    let bal = Balance {
        asset: "USDT".to_string(),
        free: 50_000_000,
        locked: 0,
    };
    let instr = rm
        .calculate_entry(signal(OrderSide::Buy, plan.1), &bal, 2_000_000)
        .expect("the scenario must size");
    assert_eq!(instr.symbol, "BTC/USDT");
    assert_eq!(instr.side, OrderSide::Buy);
    assert_eq!(instr.amount, 400); // 0.4
    assert_eq!(instr.limit_price, Some(2_000_000));
    assert_eq!(instr.stop_loss, Some(1_970_000)); // 2000 * 0.985
    assert_eq!(instr.take_profit, Some(2_060_000)); // 2000 * 1.03
}

#[test]
fn test_indicator_trait_is_object_of_both_kinds() {
    // both indicators satisfy the shared update/value/reset contract
    let mut sma = SMA::new(2);
    Indicator::update(&mut sma, 1_000);
    Indicator::update(&mut sma, 3_000);
    assert_eq!(Indicator::value(&sma), Some(2_000));
    Indicator::reset(&mut sma);
    assert_eq!(Indicator::value(&sma), None);

    let mut rsi = RSI::new(1);
    Indicator::update(&mut rsi, 1_000);
    Indicator::update(&mut rsi, 2_000);
    assert_eq!(Indicator::value(&rsi), Some(100_000));
}
