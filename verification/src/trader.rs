//! Trading strategy and risk management.
//!
//! Streaming technical indicators (a simple moving average and a
//! relative-strength oscillator), the volume-breakout signal strategy, and
//! the risk-based position sizer. All prices, volumes and balances are
//! fixed-point milli-units; oscillator values and percentages are
//! milli-scaled as well, so the classic 0–100 oscillator range is
//! `0..=100_000` here.

use crate::exchange::Balance;
use crate::exchange::OrderSide;
use crate::exchange::Ticker;
use crate::monad::BotError;
use crate::monad::MResult;
use crate::monad::fail;
use crate::monad::unit;
use crate::text::milli_seq;
use crate::text::milli_to_dec;
use crate::units::MAX_MONEY_MILLI;
use crate::units::MAX_PERIOD;
use crate::units::MAX_PRICE_MILLI;
use crate::units::round_half_up;
use std::collections::VecDeque;
use vstd::prelude::*;

verus! {

/// The ceiling of the milli-scaled oscillator range (the classic `100`).
pub const RSI_MAX_MILLI: i64 = 100_000;

/// A coarse market-condition label attached to a signal for auditability.
#[derive(Debug, Clone, Copy, PartialEq, Eq, Structural)]
pub enum MarketRegime {
    Bullish,
    Bearish,
    Sideways,
    Volatile,
}

/// A directional trading recommendation. `strength` is a milli-scaled
/// confidence in `0..=1000`.
#[derive(Debug, Clone)]
pub struct Signal {
    pub symbol: String,
    pub side: OrderSide,
    pub strength: i64,
    pub regime: MarketRegime,
    pub timestamp: u64,
    pub reason: String,
}

impl Signal {
    /// What position sizing relies on: the strength is a valid confidence.
    pub open spec fn wf(self) -> bool {
        0 <= self.strength <= 1000
    }
}

/// A fully validated trade instruction, ready for submission. Amounts and
/// prices are milli-units.
#[derive(Debug, Clone)]
pub struct TradeInstruction {
    pub symbol: String,
    pub side: OrderSide,
    pub amount: i64,
    pub limit_price: Option<i64>,
    pub stop_loss: Option<i64>,
    pub take_profit: Option<i64>,
}

/// The sum of a window of milli-prices.
pub open spec fn sum_seq(s: Seq<i64>) -> int
    decreases s.len(),
{
    if s.len() == 0 {
        0
    } else {
        sum_seq(s.drop_last()) + s.last()
    }
}

/// One step of a bounded sliding window: the oldest entry is evicted once
/// the window is full, then the new value enters at the back.
pub open spec fn window_step(w: Seq<i64>, period: nat, value: i64) -> Seq<i64> {
    if w.len() >= period {
        w.drop_first().push(value)
    } else {
        w.push(value)
    }
}

/// A window of zeros sums to zero.
pub proof fn lemma_sum_seq_zero(s: Seq<i64>)
    requires
        forall|i: int| 0 <= i < s.len() ==> #[trigger] s[i] == 0,
    ensures
        sum_seq(s) == 0,
    decreases s.len(),
{
    if s.len() > 0 {
        assert(forall|i: int| 0 <= i < s.drop_last().len() ==> #[trigger] s.drop_last()[i] == 0);
        lemma_sum_seq_zero(s.drop_last());
    }
}

/// The window an indicator holds after consuming a sequence of values one
/// by one, from empty: exactly what repeated [`window_step`] builds.
pub open spec fn window_model(values: Seq<i64>, period: nat) -> Seq<i64>
    decreases values.len(),
{
    if values.len() == 0 {
        Seq::empty()
    } else {
        window_step(window_model(values.drop_last(), period), period, values.last())
    }
}

/// Law (sliding-window correctness): after consuming any sequence of
/// values, the window holds exactly the last `period` of them, in order —
/// or all of them while fewer have been seen. Together with the `value`
/// contracts this pins the moving average to the arithmetic mean of
/// exactly the last `period` inputs.
pub proof fn lemma_sliding_window(values: Seq<i64>, period: nat)
    requires
        1 <= period,
    ensures
        window_model(values, period) == values.skip(
            if values.len() <= period {
                0
            } else {
                values.len() - period
            },
        ),
        values.len() >= period ==> sma_value(window_model(values, period), period) == Some(
            (sum_seq(values.skip(values.len() - period)) / period as int) as i64,
        ),
    decreases values.len(),
{
    let n = values.len() as int;
    let p = period as int;
    if n == 0 {
        assert(window_model(values, period) =~= values.skip(0));
    } else {
        lemma_sliding_window(values.drop_last(), period);
        if n - 1 < p {
            assert(values.drop_last().skip(0) =~= values.drop_last());
            assert(window_model(values, period) =~= values.skip(0));
        } else {
            assert(window_model(values, period) =~= values.skip(n - p));
        }
    }
}

/// The oscillator state after consuming a sequence of prices one by one,
/// from a fresh start: gain window, loss window, previous price.
pub open spec fn rsi_model(prices: Seq<i64>, period: nat) -> (Seq<i64>, Seq<i64>, Option<i64>)
    decreases prices.len(),
{
    if prices.len() == 0 {
        (Seq::empty(), Seq::empty(), None::<i64>)
    } else {
        let rest = rsi_model(prices.drop_last(), period);
        match rest.2 {
            None => (rest.0, rest.1, Some(prices.last())),
            Some(pv) => (
                window_step(rest.0, period, delta_gain(pv, prices.last())),
                window_step(rest.1, period, delta_loss(pv, prices.last())),
                Some(prices.last()),
            ),
        }
    }
}

/// After a strictly increasing price sequence, every tracked loss is zero
/// and the windows hold one entry per step, up to the period.
proof fn lemma_rsi_model_increasing(prices: Seq<i64>, period: nat)
    requires
        1 <= period,
        prices.len() >= 1,
        forall|i: int| 0 <= i < prices.len() - 1 ==> #[trigger] prices[i] < prices[i + 1],
    ensures
        rsi_model(prices, period).2 == Some(prices.last()),
        rsi_model(prices, period).0.len() == if prices.len() - 1 <= period {
            prices.len() - 1
        } else {
            period as int
        },
        rsi_model(prices, period).1.len() == rsi_model(prices, period).0.len(),
        forall|i: int|
            0 <= i < rsi_model(prices, period).1.len() ==> #[trigger] rsi_model(
                prices,
                period,
            ).1[i] == 0,
    decreases prices.len(),
{
    if prices.len() == 1 {
    } else {
        let rest = prices.drop_last();
        assert(forall|i: int| 0 <= i < rest.len() - 1 ==> #[trigger] rest[i] < rest[i + 1]);
        lemma_rsi_model_increasing(rest, period);
        assert(rest.last() == prices[prices.len() - 2]);
        assert(prices[prices.len() - 2] < prices[prices.len() - 1]);
        assert(delta_loss(rest.last(), prices.last()) == 0);
    }
}

/// Law (oscillator saturation): a strictly increasing price sequence long
/// enough to fill the window yields the maximal oscillator value, since
/// the average loss is zero.
pub proof fn lemma_oscillator_saturates(prices: Seq<i64>, period: nat)
    requires
        1 <= period,
        prices.len() > period,
        forall|i: int| 0 <= i < prices.len() - 1 ==> #[trigger] prices[i] < prices[i + 1],
    ensures
        rsi_value(rsi_model(prices, period).0, rsi_model(prices, period).1, period) == Some(
            RSI_MAX_MILLI,
        ),
{
    lemma_rsi_model_increasing(prices, period);
    lemma_sum_seq_zero(rsi_model(prices, period).1);
}

/// Sums a window front to back.
fn sum_window(w: &VecDeque<i64>) -> (s: i64)
    requires
        w@.len() <= MAX_PERIOD,
        forall|i: int| 0 <= i < w@.len() ==> 0 <= #[trigger] w@[i] <= MAX_PRICE_MILLI,
    ensures
        s as int == sum_seq(w@),
        0 <= s <= w@.len() * MAX_PRICE_MILLI,
{
    let mut acc: i64 = 0;
    let mut i: usize = 0;
    while i < w.len()
        invariant
            0 <= i <= w@.len(),
            w@.len() <= MAX_PERIOD,
            forall|k: int| 0 <= k < w@.len() ==> 0 <= #[trigger] w@[k] <= MAX_PRICE_MILLI,
            acc as int == sum_seq(w@.subrange(0, i as int)),
            0 <= acc <= (i as int) * MAX_PRICE_MILLI,
        decreases w@.len() - i,
    {
        proof {
            assert(w@.subrange(0, i as int + 1).drop_last() =~= w@.subrange(0, i as int));
        }
        acc = acc + w[i];
        i = i + 1;
    }
    proof {
        assert(w@.subrange(0, w@.len() as int) =~= w@);
    }
    acc
}

/// The polymorphic contract every technical indicator satisfies: consume
/// one price per tick, expose a derived value once enough history has
/// accumulated, and support an explicit reinitialization.
pub trait Indicator: Sized {
    /// The structural invariant the indicator maintains.
    spec fn inv(&self) -> bool;

    /// The derived value currently available, if any.
    spec fn derived(&self) -> Option<i64>;

    /// Consumes one price observation.
    fn update(&mut self, price: i64)
        requires
            old(self).inv(),
            0 <= price <= MAX_PRICE_MILLI,
        ensures
            final(self).inv();

    /// The derived value, or `None` while history is still accumulating.
    /// `None` means "no decision this tick", never an error.
    fn value(&self) -> (r: Option<i64>)
        requires
            self.inv(),
        ensures
            r == self.derived();

    /// Discards all accumulated history.
    fn reset(&mut self)
        requires
            old(self).inv(),
        ensures
            final(self).inv(),
            final(self).derived() is None;
}

/// The moving-average value: the mean of the window once it is full.
pub open spec fn sma_value(w: Seq<i64>, period: nat) -> Option<i64> {
    if w.len() < period {
        None
    } else {
        Some((sum_seq(w) / period as int) as i64)
    }
}

/// Simple moving average over the last `period` prices.
pub struct SMA {
    period: usize,
    history: VecDeque<i64>,
}

impl SMA {
    /// The configured period.
    pub closed spec fn spec_period(self) -> nat {
        self.period as nat
    }

    /// The rolling window of recent prices, oldest first.
    pub closed spec fn window(self) -> Seq<i64> {
        self.history@
    }

    /// The structural invariant: a valid period, and a window that never
    /// exceeds it and holds only bounded prices.
    pub open spec fn wf(self) -> bool {
        &&& 1 <= self.spec_period() <= MAX_PERIOD
        &&& self.window().len() <= self.spec_period()
        &&& forall|i: int|
            0 <= i < self.window().len() ==> 0 <= #[trigger] self.window()[i] <= MAX_PRICE_MILLI
    }

    pub fn new(period: usize) -> (r: Self)
        requires
            1 <= period <= MAX_PERIOD,
        ensures
            r.wf(),
            r.spec_period() == period,
            r.window() == Seq::<i64>::empty(),
    {
        SMA { period, history: VecDeque::with_capacity(period) }
    }

    /// Slides the window by one observation.
    pub fn update(&mut self, price: i64)
        requires
            old(self).wf(),
            0 <= price <= MAX_PRICE_MILLI,
        ensures
            final(self).wf(),
            final(self).spec_period() == old(self).spec_period(),
            final(self).window() == window_step(
                old(self).window(),
                old(self).spec_period(),
                price,
            ),
    {
        if self.history.len() >= self.period {
            let _ = self.history.pop_front();
        }
        self.history.push_back(price);
    }

    /// The arithmetic mean of exactly the last `period` prices, or `None`
    /// until that many have been seen.
    pub fn value(&self) -> (r: Option<i64>)
        requires
            self.wf(),
        ensures
            r == sma_value(self.window(), self.spec_period()),
    {
        if self.history.len() < self.period {
            return None;
        }
        let sum = sum_window(&self.history);
        Some(sum / (self.period as i64))
    }

    /// Discards all accumulated history.
    pub fn reset(&mut self)
        requires
            old(self).wf(),
        ensures
            final(self).wf(),
            final(self).spec_period() == old(self).spec_period(),
            final(self).window() == Seq::<i64>::empty(),
    {
        self.history.clear();
    }
}

impl Indicator for SMA {
    open spec fn inv(&self) -> bool {
        self.wf()
    }

    open spec fn derived(&self) -> Option<i64> {
        sma_value(self.window(), self.spec_period())
    }

    fn update(&mut self, price: i64) {
        SMA::update(self, price);
    }

    fn value(&self) -> (r: Option<i64>) {
        SMA::value(self)
    }

    fn reset(&mut self) {
        SMA::reset(self);
    }
}

/// The positive part of a price step: what the oscillator counts as gain.
pub open spec fn delta_gain(prev: i64, price: i64) -> i64 {
    if prev < price {
        (price - prev) as i64
    } else {
        0
    }
}

/// The negative part of a price step, negated: what the oscillator counts
/// as loss.
pub open spec fn delta_loss(prev: i64, price: i64) -> i64 {
    if price < prev {
        (prev - price) as i64
    } else {
        0
    }
}

/// The oscillator value over full gain and loss windows, milli-scaled to
/// `0..=100_000`: the classic `100 - 100/(1 + avg_gain/avg_loss)`, which
/// reduces to `100 * gains / (gains + losses)`; an all-zero loss window is
/// defined as the maximal value rather than a division by zero.
pub open spec fn rsi_value(gains: Seq<i64>, losses: Seq<i64>, period: nat) -> Option<i64> {
    if gains.len() < period {
        None
    } else if sum_seq(losses) == 0 {
        Some(RSI_MAX_MILLI)
    } else {
        Some(((100_000 * sum_seq(gains)) / (sum_seq(gains) + sum_seq(losses))) as i64)
    }
}

/// Relative-strength oscillator: tracks per-step gains and losses in two
/// bounded windows of length `period`, seeded from the previous price.
pub struct RSI {
    period: usize,
    gains: VecDeque<i64>,
    losses: VecDeque<i64>,
    prev_price: Option<i64>,
}

impl RSI {
    /// The configured period.
    pub closed spec fn spec_period(self) -> nat {
        self.period as nat
    }

    /// The rolling window of per-step gains, oldest first.
    pub closed spec fn gains_window(self) -> Seq<i64> {
        self.gains@
    }

    /// The rolling window of per-step losses, oldest first.
    pub closed spec fn losses_window(self) -> Seq<i64> {
        self.losses@
    }

    /// The previous price, once one has been seen.
    pub closed spec fn prev(self) -> Option<i64> {
        self.prev_price
    }

    /// The structural invariant: a valid period; gain and loss windows of
    /// equal length, never beyond the period, holding only bounded deltas;
    /// and a bounded previous price.
    pub open spec fn wf(self) -> bool {
        &&& 1 <= self.spec_period() <= MAX_PERIOD
        &&& self.gains_window().len() == self.losses_window().len()
        &&& self.gains_window().len() <= self.spec_period()
        &&& forall|i: int|
            0 <= i < self.gains_window().len() ==> 0 <= #[trigger] self.gains_window()[i]
                <= MAX_PRICE_MILLI
        &&& forall|i: int|
            0 <= i < self.losses_window().len() ==> 0 <= #[trigger] self.losses_window()[i]
                <= MAX_PRICE_MILLI
        &&& (self.prev() matches Some(p) ==> 0 <= p <= MAX_PRICE_MILLI)
    }

    pub fn new(period: usize) -> (r: Self)
        requires
            1 <= period <= MAX_PERIOD,
        ensures
            r.wf(),
            r.spec_period() == period,
            r.gains_window() == Seq::<i64>::empty(),
            r.losses_window() == Seq::<i64>::empty(),
            r.prev() is None,
    {
        RSI { period, gains: VecDeque::new(), losses: VecDeque::new(), prev_price: None }
    }

    /// Consumes one price: the first observation only seeds the previous
    /// price; every later one slides a gain and a loss into the windows.
    pub fn update(&mut self, price: i64)
        requires
            old(self).wf(),
            0 <= price <= MAX_PRICE_MILLI,
        ensures
            final(self).wf(),
            final(self).spec_period() == old(self).spec_period(),
            final(self).prev() == Some(price),
            old(self).prev() is None ==> final(self).gains_window() == old(self).gains_window()
                && final(self).losses_window() == old(self).losses_window(),
            old(self).prev() matches Some(p) ==> final(self).gains_window() == window_step(
                old(self).gains_window(),
                old(self).spec_period(),
                delta_gain(p, price),
            ) && final(self).losses_window() == window_step(
                old(self).losses_window(),
                old(self).spec_period(),
                delta_loss(p, price),
            ),
    {
        match self.prev_price {
            Some(prev) => {
                let gain = if prev < price {
                    price - prev
                } else {
                    0
                };
                let loss = if price < prev {
                    prev - price
                } else {
                    0
                };
                if self.gains.len() >= self.period {
                    let _ = self.gains.pop_front();
                }
                if self.losses.len() >= self.period {
                    let _ = self.losses.pop_front();
                }
                self.gains.push_back(gain);
                self.losses.push_back(loss);
            },
            None => {},
        }
        self.prev_price = Some(price);
    }

    /// The milli-scaled oscillator value over exactly the last `period`
    /// steps, or `None` until that many steps have been seen.
    pub fn value(&self) -> (r: Option<i64>)
        requires
            self.wf(),
        ensures
            r == rsi_value(self.gains_window(), self.losses_window(), self.spec_period()),
            r matches Some(v) ==> 0 <= v <= RSI_MAX_MILLI,
    {
        if self.gains.len() < self.period {
            return None;
        }
        let sg = sum_window(&self.gains);
        let sl = sum_window(&self.losses);
        if sl == 0 {
            return Some(RSI_MAX_MILLI);
        }
        let num: i128 = 100_000 * (sg as i128);
        let den: i128 = (sg as i128) + (sl as i128);
        let v = num / den;
        proof {
            assert(num <= 100_000 * den) by (nonlinear_arith)
                requires
                    num == 100_000 * (sg as int),
                    den == sg as int + sl as int,
                    sg >= 0,
                    sl >= 0,
            ;
            assert(0 <= v <= 100_000) by (nonlinear_arith)
                requires
                    v == num / den,
                    0 <= num <= 100_000 * den,
                    den > 0,
            ;
        }
        Some(v as i64)
    }

    /// Discards all accumulated history, including the seed price.
    pub fn reset(&mut self)
        requires
            old(self).wf(),
        ensures
            final(self).wf(),
            final(self).spec_period() == old(self).spec_period(),
            final(self).gains_window() == Seq::<i64>::empty(),
            final(self).losses_window() == Seq::<i64>::empty(),
            final(self).prev() is None,
    {
        self.gains.clear();
        self.losses.clear();
        self.prev_price = None;
    }
}

impl Indicator for RSI {
    open spec fn inv(&self) -> bool {
        self.wf()
    }

    open spec fn derived(&self) -> Option<i64> {
        rsi_value(self.gains_window(), self.losses_window(), self.spec_period())
    }

    fn update(&mut self, price: i64) {
        RSI::update(self, price);
    }

    fn value(&self) -> (r: Option<i64>) {
        RSI::value(self)
    }

    fn reset(&mut self) {
        RSI::reset(self);
    }
}

/// Milli-scaled oscillator level above which the market counts as
/// overbought (the classic `70`).
pub const OVERBOUGHT_MILLI: i64 = 70_000;

/// Milli-scaled oscillator midline (the classic `50`).
pub const NEUTRAL_MILLI: i64 = 50_000;

/// Milli-scaled confidence of a trend-following buy signal.
pub const BUY_STRENGTH_MILLI: i64 = 800;

/// Milli-scaled confidence of a mean-reversion sell signal.
pub const SELL_STRENGTH_MILLI: i64 = 600;

/// The volume-breakout decision policy, evaluated in order: no signal
/// while any indicator value is missing or hourly volume is below the
/// threshold; a buy in an uptrend with the oscillator strictly between the
/// midline and the overbought level; a sell in a downtrend with the
/// oscillator above the overbought level; otherwise no signal.
pub open spec fn spec_decide_signal(
    ms: Option<i64>,
    ml: Option<i64>,
    rv: Option<i64>,
    volume_1h: i64,
    threshold: i64,
) -> Option<(OrderSide, i64, MarketRegime)> {
    if ms is None || ml is None || rv is None {
        None
    } else if volume_1h < threshold {
        None
    } else {
        let s = ms.unwrap();
        let l = ml.unwrap();
        let r = rv.unwrap();
        if s > l && NEUTRAL_MILLI < r && r < OVERBOUGHT_MILLI {
            Some((OrderSide::Buy, BUY_STRENGTH_MILLI, MarketRegime::Bullish))
        } else if !(s > l) && r > OVERBOUGHT_MILLI {
            Some((OrderSide::Sell, SELL_STRENGTH_MILLI, MarketRegime::Bearish))
        } else {
            None
        }
    }
}

/// The decision policy as an executable function of the indicator values,
/// the hourly volume and the liquidity threshold: side, strength and
/// regime of the signal to emit, if any.
pub fn decide_signal(
    ms: Option<i64>,
    ml: Option<i64>,
    rv: Option<i64>,
    volume_1h: i64,
    threshold: i64,
) -> (r: Option<(OrderSide, i64, MarketRegime)>)
    ensures
        r == spec_decide_signal(ms, ml, rv, volume_1h, threshold),
{
    let (s, l, v) = match (ms, ml, rv) {
        (Some(s), Some(l), Some(v)) => (s, l, v),
        _ => {
            return None;
        },
    };
    if volume_1h < threshold {
        return None;
    }
    if s > l && NEUTRAL_MILLI < v && v < OVERBOUGHT_MILLI {
        Some((OrderSide::Buy, BUY_STRENGTH_MILLI, MarketRegime::Bullish))
    } else if !(s > l) && v > OVERBOUGHT_MILLI {
        Some((OrderSide::Sell, SELL_STRENGTH_MILLI, MarketRegime::Bearish))
    } else {
        None
    }
}

/// How one tick steps a moving average: same period, window slid by the
/// tick's price.
pub open spec fn sma_stepped(pre: SMA, post: SMA, price: i64) -> bool {
    &&& post.spec_period() == pre.spec_period()
    &&& post.window() == window_step(pre.window(), pre.spec_period(), price)
}

/// How one tick steps the oscillator: the first price only seeds it, every
/// later one slides its delta into the gain and loss windows.
pub open spec fn rsi_stepped(pre: RSI, post: RSI, price: i64) -> bool {
    &&& post.spec_period() == pre.spec_period()
    &&& post.prev() == Some(price)
    &&& (pre.prev() is None ==> post.gains_window() == pre.gains_window()
        && post.losses_window() == pre.losses_window())
    &&& (pre.prev() matches Some(p) ==> post.gains_window() == window_step(
        pre.gains_window(),
        pre.spec_period(),
        delta_gain(p, price),
    ) && post.losses_window() == window_step(
        pre.losses_window(),
        pre.spec_period(),
        delta_loss(p, price),
    ))
}

/// Some snapshot's price has been fed to all three of a strategy's
/// indicators: how exactly one consumed tick steps its state.
pub open spec fn strategy_fed_once(
    pre: VolumeBreakoutStrategy,
    post: VolumeBreakoutStrategy,
) -> bool {
    exists|p: i64|
        0 <= p <= MAX_PRICE_MILLI && #[trigger] sma_stepped(pre.spec_short(), post.spec_short(), p)
            && sma_stepped(pre.spec_long(), post.spec_long(), p) && rsi_stepped(
            pre.spec_rsi(),
            post.spec_rsi(),
            p,
        )
}

/// The reason a buy signal cites: both moving averages and the hourly
/// volume that confirmed the breakout.
pub open spec fn buy_reason(short_avg: int, long_avg: int, volume_1h: int) -> Seq<char> {
    "Golden Cross (S:"@ + milli_seq(short_avg) + "/L:"@ + milli_seq(long_avg) + ") + Vol "@
        + milli_seq(volume_1h)
}

/// The reason a sell signal cites: the overbought oscillator value.
pub open spec fn sell_reason(osc: int) -> Seq<char> {
    "Bearish Cross + Overbought RSI "@ + milli_seq(osc)
}

/// A signal-generation strategy: consumes one market snapshot per tick and
/// emits at most one signal. `Ok(None)` means "no decision this tick" and
/// is never an error.
pub trait Strategy: Sized {
    /// The structural invariant the strategy maintains.
    spec fn inv(&self) -> bool;

    fn process_tick(&mut self, ticker: &Ticker) -> (r: MResult<Option<Signal>>)
        requires
            old(self).inv(),
            ticker.wf(),
        ensures
            final(self).inv(),
            r matches Ok(o) ==> (o matches Some(s) ==> s.wf() && s.symbol@ == ticker.symbol@);
}

/// The volume-breakout strategy: a fast and a slow moving average, one
/// oscillator, and a liquidity threshold on hourly volume.
pub struct VolumeBreakoutStrategy {
    sma_short: SMA,
    sma_long: SMA,
    rsi: RSI,
    volume_threshold: i64,
}

impl VolumeBreakoutStrategy {
    /// The fast moving average.
    pub closed spec fn spec_short(self) -> SMA {
        self.sma_short
    }

    /// The slow moving average.
    pub closed spec fn spec_long(self) -> SMA {
        self.sma_long
    }

    /// The oscillator.
    pub closed spec fn spec_rsi(self) -> RSI {
        self.rsi
    }

    /// The liquidity threshold on hourly volume, in milli-units.
    pub closed spec fn spec_threshold(self) -> i64 {
        self.volume_threshold
    }

    /// The structural invariant: all indicators well-formed, threshold
    /// bounded.
    pub open spec fn wf(self) -> bool {
        &&& self.spec_short().wf()
        &&& self.spec_long().wf()
        &&& self.spec_rsi().wf()
        &&& 0 <= self.spec_threshold() <= MAX_MONEY_MILLI
    }

    /// The indicator values the decision would see in a given state.
    pub open spec fn spec_values(self) -> (Option<i64>, Option<i64>, Option<i64>) {
        (
            sma_value(self.spec_short().window(), self.spec_short().spec_period()),
            sma_value(self.spec_long().window(), self.spec_long().spec_period()),
            rsi_value(
                self.spec_rsi().gains_window(),
                self.spec_rsi().losses_window(),
                self.spec_rsi().spec_period(),
            ),
        )
    }

    pub fn new(vol_threshold: i64) -> (r: Self)
        requires
            0 <= vol_threshold <= MAX_MONEY_MILLI,
        ensures
            r.wf(),
            r.spec_threshold() == vol_threshold,
            r.spec_short().spec_period() == 5,
            r.spec_long().spec_period() == 20,
            r.spec_rsi().spec_period() == 14,
            r.spec_short().window() == Seq::<i64>::empty(),
            r.spec_long().window() == Seq::<i64>::empty(),
            r.spec_rsi().gains_window() == Seq::<i64>::empty(),
            r.spec_rsi().prev() is None,
    {
        VolumeBreakoutStrategy {
            sma_short: SMA::new(5),  // fast moving average
            sma_long: SMA::new(20),  // slow moving average
            rsi: RSI::new(14),
            volume_threshold: vol_threshold,
        }
    }
}

impl Strategy for VolumeBreakoutStrategy {
    open spec fn inv(&self) -> bool {
        self.wf()
    }

    fn process_tick(&mut self, ticker: &Ticker) -> (r: MResult<Option<Signal>>)
        ensures
            final(self).spec_threshold() == old(self).spec_threshold(),
            sma_stepped(old(self).spec_short(), final(self).spec_short(), ticker.price),
            sma_stepped(old(self).spec_long(), final(self).spec_long(), ticker.price),
            rsi_stepped(old(self).spec_rsi(), final(self).spec_rsi(), ticker.price),
            r is Ok,
            ({
                let (ms, ml, rv) = final(self).spec_values();
                match spec_decide_signal(
                    ms,
                    ml,
                    rv,
                    ticker.volume_1h,
                    old(self).spec_threshold(),
                ) {
                    None => r matches Ok(o) && o is None,
                    Some(plan) => r matches Ok(o) && o matches Some(sig) && sig.side == plan.0
                        && sig.strength == plan.1 && sig.regime == plan.2 && sig.symbol@
                        == ticker.symbol@ && sig.timestamp == ticker.timestamp
                        && sig.reason@.len() > 0 && (plan.0 is Buy ==> sig.reason@ == buy_reason(
                        ms.unwrap() as int,
                        ml.unwrap() as int,
                        ticker.volume_1h as int,
                    )) && (plan.0 is Sell ==> sig.reason@ == sell_reason(rv.unwrap() as int)),
                }
            }),
            ticker.volume_1h < old(self).spec_threshold() ==> (r matches Ok(o) && o is None),
    {
        // indicators are fed every tick, whether or not a signal fires
        self.sma_short.update(ticker.price);
        self.sma_long.update(ticker.price);
        self.rsi.update(ticker.price);

        let ms = self.sma_short.value();
        let ml = self.sma_long.value();
        let rv = self.rsi.value();

        match decide_signal(ms, ml, rv, ticker.volume_1h, self.volume_threshold) {
            None => unit(None),
            Some((side, strength, regime)) => {
                let reason = match side {
                    OrderSide::Buy => {
                        let mut t = String::from_str("Golden Cross (S:");
                        t.append(milli_to_dec(ms.unwrap_or(0)).as_str());
                        t.append("/L:");
                        t.append(milli_to_dec(ml.unwrap_or(0)).as_str());
                        t.append(") + Vol ");
                        t.append(milli_to_dec(ticker.volume_1h).as_str());
                        proof {
                            reveal_strlit("Golden Cross (S:");
                        }
                        t
                    },
                    OrderSide::Sell => {
                        let mut t = String::from_str("Bearish Cross + Overbought RSI ");
                        t.append(milli_to_dec(rv.unwrap_or(0)).as_str());
                        proof {
                            reveal_strlit("Bearish Cross + Overbought RSI ");
                        }
                        t
                    },
                };
                unit(
                    Some(
                        Signal {
                            symbol: ticker.symbol.clone(),
                            side,
                            strength,
                            regime,
                            timestamp: ticker.timestamp,
                            reason,
                        },
                    ),
                )
            },
        }
    }
}

/// Smallest notional a trade may risk, in milli-units (ten quote units):
/// anything below is rejected as dust.
pub const MIN_NOTIONAL_MILLI: i64 = 10_000;

/// The capital put at risk: free balance scaled by the per-trade risk
/// fraction and the signal strength (both milli-scaled).
pub open spec fn risk_amount_milli(free: int, fraction: int, strength: int) -> int {
    (free * fraction * strength) / 1_000_000
}

/// The position size: risk capital divided by the reference price, rounded
/// half-up to three decimal places (that is, to whole milli-units).
pub open spec fn quantity_milli(risk_amount: int, price: int) -> int {
    round_half_up(risk_amount * 1000, price)
}

/// The protective stop: below the entry price for a buy, above it for a
/// sell, at the configured milli-scaled percentage.
pub open spec fn stop_loss_price(price: int, stop_pct: int, side: OrderSide) -> int {
    match side {
        OrderSide::Buy => price * (1000 - stop_pct) / 1000,
        OrderSide::Sell => price * (1000 + stop_pct) / 1000,
    }
}

/// The profit target, mirrored from the stop at twice the distance: a
/// fixed 1:2 risk/reward ratio.
pub open spec fn take_profit_price(price: int, stop_pct: int, side: OrderSide) -> int {
    match side {
        OrderSide::Buy => price * (1000 + 2 * stop_pct) / 1000,
        OrderSide::Sell => price * (1000 - 2 * stop_pct) / 1000,
    }
}

/// A bounded price times a bounded milli-scaled factor stays within `i64`,
/// before and after scaling back down.
proof fn lemma_price_factor_bounds(price: int, f: int)
    requires
        0 < price <= 1_000_000_000_000,
        0 <= f <= 3000,
    ensures
        0 <= price * f <= 3_000_000_000_000_000,
        0 <= price * f / 1000 <= 3_000_000_000_000,
{
    assert(0 <= price * f <= 3_000_000_000_000_000) by (nonlinear_arith)
        requires
            0 < price <= 1_000_000_000_000,
            0 <= f <= 3000,
    ;
}

/// Position sizing under fixed-fractional money management.
pub struct RiskManager {
    max_account_risk_per_trade: i64,
    max_leverage: i64,
    stop_loss_pct: i64,
}

impl RiskManager {
    /// The milli-scaled fraction of the free balance risked per trade.
    pub closed spec fn spec_risk_fraction(self) -> i64 {
        self.max_account_risk_per_trade
    }

    /// The milli-scaled leverage cap (always one: spot only).
    pub closed spec fn spec_leverage(self) -> i64 {
        self.max_leverage
    }

    /// The milli-scaled stop-loss percentage.
    pub closed spec fn spec_stop_pct(self) -> i64 {
        self.stop_loss_pct
    }

    /// The structural invariant: the risk fraction is a valid proportion,
    /// and the stop percentage leaves the mirrored 1:2 target above zero.
    pub open spec fn wf(self) -> bool {
        &&& 0 <= self.spec_risk_fraction() <= 1000
        &&& 0 <= self.spec_stop_pct() <= 500
    }

    pub fn new(risk_per_trade: i64, stop_loss: i64) -> (r: Self)
        requires
            0 <= risk_per_trade <= 1000,
            0 <= stop_loss <= 500,
        ensures
            r.wf(),
            r.spec_risk_fraction() == risk_per_trade,
            r.spec_stop_pct() == stop_loss,
            r.spec_leverage() == 1000,
    {
        RiskManager {
            max_account_risk_per_trade: risk_per_trade,
            max_leverage: 1000,  // no leverage for spot
            stop_loss_pct: stop_loss,
        }
    }

    /// Sizes a position for a signal: rejects an empty balance and dust
    /// trades, otherwise emits a fully parameterized instruction with a
    /// limit entry at the reference price and a protective stop and target.
    /// A success always carries a positive amount and both protective
    /// levels.
    pub fn calculate_entry(&self, signal: Signal, balance: &Balance, current_price: i64) -> (r:
        MResult<TradeInstruction>)
        requires
            self.wf(),
            signal.wf(),
            0 < current_price <= MAX_PRICE_MILLI,
            balance.wf(),
        ensures
            ({
                let ra = risk_amount_milli(
                    balance.free as int,
                    self.spec_risk_fraction() as int,
                    signal.strength as int,
                );
                let q = quantity_milli(ra, current_price as int);
                &&& (balance.free <= 0 ==> (r matches Err(e) && e matches BotError::RiskViolation(
                    m,
                ) && m@ == "Insufficient free balance"@))
                &&& (balance.free > 0 && (ra < MIN_NOTIONAL_MILLI || q == 0) ==> (r matches Err(e)
                    && e matches BotError::RiskViolation(m) && m@
                    == "Calculated position size below exchange minimum"@))
                &&& (balance.free > 0 && ra >= MIN_NOTIONAL_MILLI && q > 0 ==> (r matches Ok(t)
                    && t.symbol@ == signal.symbol@ && t.side == signal.side && t.amount == q
                    && t.limit_price == Some(current_price) && t.stop_loss == Some(
                    stop_loss_price(
                        current_price as int,
                        self.spec_stop_pct() as int,
                        signal.side,
                    ) as i64,
                ) && t.take_profit == Some(
                    take_profit_price(
                        current_price as int,
                        self.spec_stop_pct() as int,
                        signal.side,
                    ) as i64,
                )))
            }),
            r matches Ok(t) ==> t.amount > 0 && t.stop_loss is Some && t.take_profit is Some,
    {
        // 1. validate the balance
        if balance.free <= 0 {
            return fail(BotError::RiskViolation(String::from_str("Insufficient free balance")));
        }

        // 2. maximum risk capital in quote currency
        let free = balance.free as i128;
        let fraction = self.max_account_risk_per_trade as i128;
        let strength = signal.strength as i128;
        proof {
            assert(free * fraction <= 1_000_000_000_000_000_000int) by (nonlinear_arith)
                requires
                    0 <= free <= 1_000_000_000_000_000int,
                    0 <= fraction <= 1000,
            ;
            assert(free * fraction * strength <= 1_000_000_000_000_000_000_000int)
                by (nonlinear_arith)
                requires
                    0 <= free * fraction <= 1_000_000_000_000_000_000int,
                    0 <= strength <= 1000,
            ;
        }
        let risk128 = free * fraction * strength / 1_000_000;
        proof {
            assert(0 <= risk128 <= 1_000_000_000_000_000int) by (nonlinear_arith)
                requires
                    risk128 == free * fraction * strength / 1_000_000,
                    0 <= free * fraction * strength <= 1_000_000_000_000_000_000_000int,
            ;
        }
        let risk_amount = risk128 as i64;

        // 3. reject dust trades below the minimum notional floor
        if risk_amount < MIN_NOTIONAL_MILLI {
            return fail(
                BotError::RiskViolation(
                    String::from_str("Calculated position size below exchange minimum"),
                ),
            );
        }

        // 4. quantity at the reference price, rounded half-up to whole
        // milli-units
        let num = 2 * (risk_amount as i128) * 1000 + (current_price as i128);
        let den = 2 * (current_price as i128);
        let q128 = num / den;
        proof {
            assert(0 <= q128 <= num) by (nonlinear_arith)
                requires
                    q128 == num / den,
                    0 <= num,
                    2 <= den,
            ;
        }
        let quantity = q128 as i64;
        if quantity <= 0 {
            return fail(
                BotError::RiskViolation(
                    String::from_str("Calculated position size below exchange minimum"),
                ),
            );
        }

        // 5. protective stop and mirrored 1:2 target
        let price128 = current_price as i128;
        let slp = self.stop_loss_pct as i128;
        proof {
            lemma_price_factor_bounds(current_price as int, 1000 - slp as int);
            lemma_price_factor_bounds(current_price as int, 1000 + 2 * (slp as int));
            lemma_price_factor_bounds(current_price as int, 1000 + slp as int);
            lemma_price_factor_bounds(current_price as int, 1000 - 2 * (slp as int));
        }
        let (sl, tp) = match signal.side {
            OrderSide::Buy => (
                (price128 * (1000 - slp) / 1000) as i64,
                (price128 * (1000 + 2 * slp) / 1000) as i64,
            ),
            OrderSide::Sell => (
                (price128 * (1000 + slp) / 1000) as i64,
                (price128 * (1000 - 2 * slp) / 1000) as i64,
            ),
        };

        // 6. limit entry at the reference price
        unit(
            TradeInstruction {
                symbol: signal.symbol,
                side: signal.side,
                amount: quantity,
                limit_price: Some(current_price),
                stop_loss: Some(sl),
                take_profit: Some(tp),
            },
        )
    }
}

} // verus!

