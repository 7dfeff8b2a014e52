//! Trading engine orchestrator.
//!
//! Owns the bot lifecycle state machine, composes the per-tick decision
//! pipeline over the strategy, the risk manager and the exchange
//! capability, and tracks performance counters. Within the trading state
//! every failure is absorbed locally — logged and counted — so a single
//! bad tick never halts the driving loop.

use crate::exchange::BinanceClient;
use crate::exchange::ExchangeClient;
use crate::exchange::OrderType;
use crate::monad::BotError;
use crate::monad::MResult;
use crate::monad::log_info;
use crate::monad::unit;
use crate::sys::clock_now_millis;
use crate::sys::emit_line;
use crate::text::milli_to_dec;
use crate::text::u64_to_dec;
use crate::trader::RiskManager;
use crate::trader::Strategy;
use crate::trader::TradeInstruction;
use crate::trader::VolumeBreakoutStrategy;
use crate::trader::strategy_fed_once;
use vstd::prelude::*;

verus! {

/// The lifecycle state of the bot. `Paused` carries the reason it paused.
#[derive(Debug, Clone, PartialEq)]
pub enum BotState {
    Initializing,
    Syncing,
    Trading,
    Paused(String),
    Terminating,
}

impl BotState {
    /// A one-line rendering of the state for status reports.
    pub fn describe(&self) -> (r: String)
        ensures
            self is Initializing ==> r@ == "INITIALIZING"@,
            self is Syncing ==> r@ == "SYNCING DATA"@,
            self is Trading ==> r@ == "ACTIVE TRADING"@,
            self matches BotState::Paused(m) ==> r@ == "PAUSED ["@ + m@ + "]"@,
            self is Terminating ==> r@ == "TERMINATING"@,
    {
        match self {
            BotState::Initializing => String::from_str("INITIALIZING"),
            BotState::Syncing => String::from_str("SYNCING DATA"),
            BotState::Trading => String::from_str("ACTIVE TRADING"),
            BotState::Paused(reason) => {
                let mut t = String::from_str("PAUSED [");
                t.append(reason.as_str());
                t.append("]");
                t
            },
            BotState::Terminating => String::from_str("TERMINATING"),
        }
    }
}

/// Startup configuration for the engine. The risk factor is milli-scaled.
#[derive(Clone)]
pub struct BotConfig {
    pub symbol: String,
    pub api_key: String,
    pub secret_key: String,
    pub strategy_risk_factor: i64,
}

/// Monotonically non-decreasing performance counters, plus a start
/// timestamp. Volume is in milli-units.
pub struct PerformanceTracker {
    trades_executed: u32,
    successful_trades: u32,
    failed_trades: u32,
    total_volume_traded: i64,
    start_time_millis: u64,
}

impl PerformanceTracker {
    pub closed spec fn spec_trades(self) -> u32 {
        self.trades_executed
    }

    pub closed spec fn spec_successes(self) -> u32 {
        self.successful_trades
    }

    pub closed spec fn spec_failures(self) -> u32 {
        self.failed_trades
    }

    pub closed spec fn spec_volume(self) -> i64 {
        self.total_volume_traded
    }

    pub closed spec fn spec_start_millis(self) -> u64 {
        self.start_time_millis
    }

    pub fn new() -> (r: Self)
        ensures
            r.spec_trades() == 0,
            r.spec_successes() == 0,
            r.spec_failures() == 0,
            r.spec_volume() == 0,
    {
        PerformanceTracker {
            trades_executed: 0,
            successful_trades: 0,
            failed_trades: 0,
            total_volume_traded: 0,
            start_time_millis: clock_now_millis(),
        }
    }

    /// Counts one executed trade and its volume. The counters saturate at
    /// their maxima instead of wrapping, so they never decrease.
    pub fn record_trade(&mut self, volume: i64)
        requires
            0 <= volume,
        ensures
            final(self).spec_trades() == if old(self).spec_trades() < u32::MAX {
                (old(self).spec_trades() + 1) as u32
            } else {
                u32::MAX
            },
            final(self).spec_successes() == if old(self).spec_successes() < u32::MAX {
                (old(self).spec_successes() + 1) as u32
            } else {
                u32::MAX
            },
            final(self).spec_volume() == if old(self).spec_volume() <= i64::MAX - volume {
                (old(self).spec_volume() + volume) as i64
            } else {
                i64::MAX
            },
            final(self).spec_failures() == old(self).spec_failures(),
            final(self).spec_start_millis() == old(self).spec_start_millis(),
    {
        if self.trades_executed < u32::MAX {
            self.trades_executed = self.trades_executed + 1;
        }
        if self.successful_trades < u32::MAX {
            self.successful_trades = self.successful_trades + 1;
        }
        if self.total_volume_traded <= i64::MAX - volume {
            self.total_volume_traded = self.total_volume_traded + volume;
        } else {
            self.total_volume_traded = i64::MAX;
        }
    }

    /// Counts one failed attempt. Saturates instead of wrapping.
    pub fn record_error(&mut self)
        ensures
            final(self).spec_failures() == if old(self).spec_failures() < u32::MAX {
                (old(self).spec_failures() + 1) as u32
            } else {
                u32::MAX
            },
            final(self).spec_trades() == old(self).spec_trades(),
            final(self).spec_successes() == old(self).spec_successes(),
            final(self).spec_volume() == old(self).spec_volume(),
            final(self).spec_start_millis() == old(self).spec_start_millis(),
    {
        if self.failed_trades < u32::MAX {
            self.failed_trades = self.failed_trades + 1;
        }
    }

    /// How many trades have been executed.
    pub fn trades_executed(&self) -> (r: u32)
        ensures
            r == self.spec_trades(),
    {
        self.trades_executed
    }

    /// How many trades completed successfully.
    pub fn successful_trades(&self) -> (r: u32)
        ensures
            r == self.spec_successes(),
    {
        self.successful_trades
    }

    /// How many attempts failed.
    pub fn failed_trades(&self) -> (r: u32)
        ensures
            r == self.spec_failures(),
    {
        self.failed_trades
    }

    /// Total traded volume, in milli-units.
    pub fn total_volume_traded(&self) -> (r: i64)
        ensures
            r == self.spec_volume(),
    {
        self.total_volume_traded
    }

    /// Seconds since the tracker was created, by the wall clock; zero if
    /// the clock went backwards.
    pub fn get_uptime_secs(&self) -> u64 {
        let now = clock_now_millis();
        if now >= self.start_time_millis {
            (now - self.start_time_millis) / 1000
        } else {
            0
        }
    }

    /// Prints the counters to the console.
    pub fn print_summary(&self) {
        emit_line("| --- Performance Summary ---");
        let mut uptime = String::from_str("| Uptime: ");
        uptime.append(u64_to_dec(self.get_uptime_secs()).as_str());
        uptime.append("s");
        emit_line(uptime.as_str());
        let mut trades = String::from_str("| Trades Executed: ");
        trades.append(u64_to_dec(self.trades_executed as u64).as_str());
        emit_line(trades.as_str());
        let mut volume = String::from_str("| Volume Traded: ");
        volume.append(milli_to_dec(self.total_volume_traded).as_str());
        emit_line(volume.as_str());
        let mut failed = String::from_str("| Failed Attempts: ");
        failed.append(u64_to_dec(self.failed_trades as u64).as_str());
        emit_line(failed.as_str());
        emit_line("| ---------------------------");
    }
}

/// The lifecycle transition out of `Initializing`: a successful
/// connectivity check moves to `Syncing`; a failed one moves to `Paused`
/// with a non-empty reason — a recovery path, not a propagated error.
pub fn init_transition(conn: &MResult<u64>) -> (s: BotState)
    ensures
        conn matches Ok(_) ==> s is Syncing,
        conn matches Err(_) ==> (s matches BotState::Paused(m) && m@ == "Connection Failure"@
            && m@.len() > 0),
{
    match conn {
        Ok(_) => BotState::Syncing,
        Err(_) => {
            proof {
                reveal_strlit("Connection Failure");
            }
            BotState::Paused(String::from_str("Connection Failure"))
        },
    }
}

/// The trading engine: the lifecycle state machine, the strategy, the risk
/// manager and the exchange capability, driven by repeated `tick` calls.
pub struct TradingEngine<C: ExchangeClient> {
    state: BotState,
    config: BotConfig,
    client: C,
    strategy: VolumeBreakoutStrategy,
    risk_manager: RiskManager,
    metrics: PerformanceTracker,
}

impl TradingEngine<BinanceClient> {
    /// Builds an engine wired to the simulated exchange client, with the
    /// stock strategy (minimum hourly volume of 2500 units) and risk
    /// settings (2% risk per trade, 1.5% stop loss).
    pub fn new(config: BotConfig) -> (r: Self)
        ensures
            r.wf(),
            r.spec_state() is Initializing,
            r.spec_strategy().spec_threshold() == 2_500_000,
            r.spec_risk().spec_risk_fraction() == 20,
            r.spec_risk().spec_stop_pct() == 15,
            r.spec_metrics().spec_trades() == 0,
            r.spec_metrics().spec_successes() == 0,
            r.spec_metrics().spec_failures() == 0,
            r.spec_metrics().spec_volume() == 0,
            r.spec_client().spec_api_key() == config.api_key@,
            r.spec_client().spec_secret_key() == config.secret_key@,
    {
        let client = BinanceClient::new(config.api_key.as_str(), config.secret_key.as_str());
        TradingEngine::with_client(config, client)
    }
}

impl<C: ExchangeClient> TradingEngine<C> {
    /// The current lifecycle state.
    pub closed spec fn spec_state(self) -> BotState {
        self.state
    }

    /// The strategy's current state.
    pub closed spec fn spec_strategy(self) -> VolumeBreakoutStrategy {
        self.strategy
    }

    /// The risk settings.
    pub closed spec fn spec_risk(self) -> RiskManager {
        self.risk_manager
    }

    /// The performance counters.
    pub closed spec fn spec_metrics(self) -> PerformanceTracker {
        self.metrics
    }

    /// The exchange adapter the engine calls through.
    pub closed spec fn spec_client(self) -> C {
        self.client
    }

    /// The configured symbol.
    pub closed spec fn spec_symbol(self) -> Seq<char> {
        self.config.symbol@
    }

    /// The structural invariant: strategy and risk settings well-formed.
    pub open spec fn wf(self) -> bool {
        &&& self.spec_strategy().wf()
        &&& self.spec_risk().wf()
    }

    /// Builds an engine around any exchange adapter, with the stock
    /// strategy and risk settings.
    pub fn with_client(config: BotConfig, client: C) -> (r: Self)
        ensures
            r.wf(),
            r.spec_state() is Initializing,
            r.spec_strategy().spec_threshold() == 2_500_000,
            r.spec_risk().spec_risk_fraction() == 20,
            r.spec_risk().spec_stop_pct() == 15,
            r.spec_metrics().spec_trades() == 0,
            r.spec_metrics().spec_successes() == 0,
            r.spec_metrics().spec_failures() == 0,
            r.spec_metrics().spec_volume() == 0,
            r.spec_symbol() == config.symbol@,
            r.spec_client() == client,
    {
        // minimum hourly volume of 2500 units
        let strategy = VolumeBreakoutStrategy::new(2_500_000);
        // 2% risk per trade, 1.5% stop loss
        let risk_manager = RiskManager::new(20, 15);
        TradingEngine {
            state: BotState::Initializing,
            config,
            client,
            strategy,
            risk_manager,
            metrics: PerformanceTracker::new(),
        }
    }

    /// The current lifecycle state, for reporting and tests.
    pub fn state(&self) -> (r: &BotState)
        ensures
            r == self.spec_state(),
    {
        &self.state
    }

    /// How many failed attempts the tracker has counted.
    pub fn failed_attempts(&self) -> (r: u32)
        ensures
            r == self.spec_metrics().spec_failures(),
    {
        self.metrics.failed_trades
    }

    /// The primary execution cycle: dispatches on the lifecycle state.
    /// `Trading`, `Paused` and `Terminating` ticks never fail the caller;
    /// a `Syncing` tick propagates its fetch failure and stays in
    /// `Syncing`.
    pub fn tick(&mut self) -> (r: MResult<()>)
        requires
            old(self).wf(),
        ensures
            final(self).wf(),
            old(self).spec_state() is Initializing ==> r is Ok && (final(self).spec_state()
                is Syncing || (final(self).spec_state() matches BotState::Paused(m) && m@.len()
                > 0)),
            old(self).spec_state() is Syncing ==> ((r is Ok ==> final(self).spec_state()
                is Trading && strategy_fed_once(old(self).spec_strategy(), final(self).spec_strategy()))
                && (r is Err ==> final(self).spec_state() is Syncing)),
            old(self).spec_state() is Trading ==> r is Ok && final(self).spec_state() is Trading
                && ((final(self).spec_metrics().spec_failures()
                == old(self).spec_metrics().spec_failures()
                && old(self).spec_metrics().spec_failures() < u32::MAX) ==> strategy_fed_once(
                old(self).spec_strategy(),
                final(self).spec_strategy(),
            )),
            old(self).spec_state() matches BotState::Paused(_) ==> r is Ok
                && final(self).spec_state() is Initializing,
            old(self).spec_state() is Terminating ==> r is Ok && final(self).spec_state()
                is Terminating && final(self).spec_metrics() == old(self).spec_metrics(),
            final(self).spec_metrics().spec_failures() >= old(self).spec_metrics().spec_failures(),
            final(self).spec_metrics().spec_failures() as int
                <= old(self).spec_metrics().spec_failures() as int + 1,
            final(self).spec_metrics().spec_trades() == old(self).spec_metrics().spec_trades(),
            final(self).spec_metrics().spec_successes()
                == old(self).spec_metrics().spec_successes(),
            final(self).spec_metrics().spec_volume() == old(self).spec_metrics().spec_volume(),
            final(self).spec_strategy().spec_threshold()
                == old(self).spec_strategy().spec_threshold(),
    {
        match self.state {
            BotState::Initializing => self.handle_init(),
            BotState::Syncing => self.handle_sync(),
            BotState::Trading => self.handle_trading(),
            BotState::Paused(_) => self.handle_paused(),
            BotState::Terminating => unit(()),  // do nothing
        }
    }

    /// Verifies connectivity and applies [`init_transition`]: failure is
    /// absorbed into a pause, never propagated.
    fn handle_init(&mut self) -> (r: MResult<()>)
        requires
            old(self).wf(),
        ensures
            final(self).wf(),
            r is Ok,
            final(self).spec_state() is Syncing || (final(self).spec_state()
                matches BotState::Paused(m) && m@.len() > 0),
            final(self).spec_metrics() == old(self).spec_metrics(),
            final(self).spec_strategy() == old(self).spec_strategy(),
    {
        log_info("Engine initializing... Verifying exchange connectivity.");
        let conn = self.client.check_connectivity();
        match &conn {
            Ok(latency) => {
                let mut line = String::from_str("Connection OK. Latency: ");
                line.append(u64_to_dec(*latency).as_str());
                line.append("ms");
                log_info(line.as_str());
            },
            Err(e) => {
                let mut line = String::from_str("Init Failed: ");
                line.append(e.describe().as_str());
                log_info(line.as_str());
            },
        }
        self.state = init_transition(&conn);
        unit(())
    }

    /// Fetches one snapshot and feeds it to the strategy once, warming up
    /// indicator history without executing a decision; a fetch failure is
    /// returned outward for this tick. A successful sync has fed the
    /// strategy exactly one price.
    fn handle_sync(&mut self) -> (r: MResult<()>)
        requires
            old(self).wf(),
            old(self).spec_state() is Syncing,
        ensures
            final(self).wf(),
            r is Ok ==> final(self).spec_state() is Trading,
            r is Err ==> final(self).spec_state() is Syncing,
            final(self).spec_metrics() == old(self).spec_metrics(),
            final(self).spec_strategy().spec_threshold()
                == old(self).spec_strategy().spec_threshold(),
            r is Ok ==> strategy_fed_once(old(self).spec_strategy(), final(self).spec_strategy()),
    {
        log_info("Syncing market data and warming up indicators...");
        let symbol = self.config.symbol.clone();
        match self.client.fetch_ticker(symbol.as_str()) {
            Err(e) => Err(e),
            Ok(ticker) => {
                match self.strategy.process_tick(&ticker) {
                    // feed initial data
                    Err(e) => Err(e),
                    Ok(_) => {
                        log_info("Indicators warmed up.");
                        self.state = BotState::Trading;
                        unit(())
                    },
                }
            },
        }
    }

    /// Unconditionally attempts recovery: every tick in `Paused` is a
    /// fresh retry, with no backoff and no retry counter.
    fn handle_paused(&mut self) -> (r: MResult<()>)
        requires
            old(self).wf(),
        ensures
            final(self).wf(),
            r is Ok,
            final(self).spec_state() is Initializing,
            final(self).spec_metrics() == old(self).spec_metrics(),
            final(self).spec_strategy() == old(self).spec_strategy(),
    {
        log_info("Bot is PAUSED. Attempting recovery...");
        self.state = BotState::Initializing;
        unit(())
    }

    /// Absorbs a pipeline failure locally: logs it, counts it (one more
    /// failed attempt, saturating), and reports the tick as successful so
    /// the driving loop keeps running.
    fn absorb_failure(&mut self, e: BotError) -> (r: MResult<()>)
        requires
            old(self).wf(),
        ensures
            final(self).wf(),
            r is Ok,
            final(self).spec_state() == old(self).spec_state(),
            final(self).spec_strategy() == old(self).spec_strategy(),
            final(self).spec_metrics().spec_failures()
                == if old(self).spec_metrics().spec_failures() < u32::MAX {
                    (old(self).spec_metrics().spec_failures() + 1) as u32
                } else {
                    u32::MAX
                },
            final(self).spec_metrics().spec_trades() == old(self).spec_metrics().spec_trades(),
            final(self).spec_metrics().spec_successes()
                == old(self).spec_metrics().spec_successes(),
            final(self).spec_metrics().spec_volume() == old(self).spec_metrics().spec_volume(),
    {
        let mut line = String::from_str("Cycle Error: ");
        line.append(e.describe().as_str());
        log_info(line.as_str());
        self.metrics.record_error();
        unit(())
    }

    /// The five-stage decision pipeline: fetch the snapshot, analyze it,
    /// fetch the balance, size the position, submit the order. Stages are
    /// chained so that the first failure short-circuits the rest; "no
    /// signal" short-circuits silently, every real failure is absorbed.
    fn handle_trading(&mut self) -> (r: MResult<()>)
        requires
            old(self).wf(),
            old(self).spec_state() is Trading,
        ensures
            final(self).wf(),
            r is Ok,
            final(self).spec_state() is Trading,
            final(self).spec_metrics().spec_failures() >= old(self).spec_metrics().spec_failures(),
            final(self).spec_metrics().spec_failures() as int
                <= old(self).spec_metrics().spec_failures() as int + 1,
            final(self).spec_metrics().spec_trades() == old(self).spec_metrics().spec_trades(),
            final(self).spec_metrics().spec_successes()
                == old(self).spec_metrics().spec_successes(),
            final(self).spec_metrics().spec_volume() == old(self).spec_metrics().spec_volume(),
            final(self).spec_strategy().spec_threshold()
                == old(self).spec_strategy().spec_threshold(),
            (final(self).spec_metrics().spec_failures() == old(self).spec_metrics().spec_failures()
                && old(self).spec_metrics().spec_failures() < u32::MAX) ==> strategy_fed_once(
                old(self).spec_strategy(),
                final(self).spec_strategy(),
            ),
    {
        let symbol = self.config.symbol.clone();

        // stage 1: fetch the current market snapshot
        let ticker_res = self.client.fetch_ticker(symbol.as_str());

        // periodic market log, without altering the data flowing through
        if let Ok(t) = &ticker_res {
            if t.timestamp % 10 == 0 {
                let mut line = String::from_str(">>> [MARKET] ");
                line.append(t.symbol.as_str());
                line.append(" | Price: ");
                line.append(milli_to_dec(t.price).as_str());
                line.append(" | Vol: ");
                line.append(milli_to_dec(t.volume_1h).as_str());
                emit_line(line.as_str());
            }
        }

        match ticker_res {
            Err(e) => self.absorb_failure(e),
            Ok(ticker) => {
                // stage 2: strategy analysis
                match self.strategy.process_tick(&ticker) {
                    Err(e) => self.absorb_failure(e),
                    // no actionable signal: a normal, silent no-op
                    Ok(None) => unit(()),
                    Ok(Some(signal)) => {
                        let mut line = String::from_str("SIGNAL DETECTED: ");
                        line.append(signal.side.name());
                        line.append(" [");
                        line.append(signal.reason.as_str());
                        line.append("] Strength: ");
                        line.append(milli_to_dec(signal.strength).as_str());
                        log_info(line.as_str());

                        // stage 3: fetch the quote-asset balance
                        match self.client.fetch_balance("USDT") {
                            Err(e) => self.absorb_failure(e),
                            Ok(balance) => {
                                // stage 4: risk management
                                match self.risk_manager.calculate_entry(
                                    signal,
                                    &balance,
                                    ticker.price,
                                ) {
                                    Err(e) => self.absorb_failure(e),
                                    Ok(instruction) => {
                                        // stage 5: execution
                                        match self.execute_instruction(instruction) {
                                            Err(e) => self.absorb_failure(e),
                                            Ok(order_id) => {
                                                let mut done = String::from_str(
                                                    "Cycle Complete. Order ID: ",
                                                );
                                                done.append(order_id.as_str());
                                                log_info(done.as_str());
                                                unit(())
                                            },
                                        }
                                    },
                                }
                            },
                        }
                    },
                }
            },
        }
    }

    /// Prints the instruction and submits it to the exchange capability.
    fn execute_instruction(&self, instr: TradeInstruction) -> (r: MResult<String>)
        ensures
            r matches Ok(_) ==> instr.amount > 0 && (instr.limit_price matches Some(p) ==> p > 0),
    {
        emit_line("| $$$EXECUTING TRADE$$$");
        let mut sym = String::from_str("| Symbol: ");
        sym.append(instr.symbol.as_str());
        emit_line(sym.as_str());
        let mut side_line = String::from_str("| Side:   ");
        side_line.append(instr.side.name());
        emit_line(side_line.as_str());
        let mut size = String::from_str("| Size:   ");
        size.append(milli_to_dec(instr.amount).as_str());
        emit_line(size.as_str());
        if let Some(p) = instr.limit_price {
            let mut price_line = String::from_str("| Price:  ");
            price_line.append(milli_to_dec(p).as_str());
            emit_line(price_line.as_str());
        }
        emit_line("| -----------------------");

        let order_type = if instr.limit_price.is_some() {
            OrderType::Limit
        } else {
            OrderType::Market
        };
        self.client.execute_order(
            instr.symbol.as_str(),
            instr.side,
            order_type,
            instr.amount,
            instr.limit_price,
        )
    }

    /// Prints a status report: the lifecycle state and the performance
    /// counters.
    pub fn report_status(&self) {
        emit_line("");
        emit_line("=== ENGINE STATUS REPORT ===");
        let mut line = String::from_str("State: ");
        line.append(self.state.describe().as_str());
        emit_line(line.as_str());
        self.metrics.print_summary();
        emit_line("============================");
    }
}

} // verus!
