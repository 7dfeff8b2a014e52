//! Exchange connectivity layer.
//!
//! Data structures for market data, order management and authentication,
//! the [`ExchangeClient`] capability contract that the orchestrator calls
//! through, and a simulated client ([`BinanceClient`]) that generates
//! deterministic market data from the wall clock. The clock is the only
//! outside dependency; every method states what holds of its result
//! whatever the clock reads.

use crate::monad::BotError;
use crate::monad::MResult;
use crate::monad::fail;
use crate::monad::log_info;
use crate::monad::unit;
use crate::sys::clock_now_micros;
use crate::sys::clock_now_secs;
use crate::sys::clock_subsec_nanos;
use crate::text::dec_seq;
use crate::text::hex_seq;
use crate::text::milli_to_dec;
use crate::text::u64_to_dec;
use crate::text::u64_to_hex;
use crate::units::MAX_MONEY_MILLI;
use crate::units::MAX_PRICE_MILLI;
use vstd::prelude::*;

verus! {

/// The side of an order.
#[derive(Debug, Clone, Copy, PartialEq, Eq, Structural)]
pub enum OrderSide {
    Buy,
    Sell,
}

impl OrderSide {
    /// The side's name, for query strings and log lines.
    pub fn name(&self) -> (r: &'static str)
        ensures
            self is Buy ==> r@ == "Buy"@,
            self is Sell ==> r@ == "Sell"@,
    {
        match self {
            OrderSide::Buy => "Buy",
            OrderSide::Sell => "Sell",
        }
    }
}

/// The type of order to execute.
#[derive(Debug, Clone, Copy, PartialEq, Eq, Structural)]
pub enum OrderType {
    Limit,
    Market,
    StopLoss,
    TakeProfit,
}

/// Ticker information for one symbol at one instant. All prices and
/// volumes are fixed-point milli-units.
#[derive(Debug, Clone)]
pub struct Ticker {
    pub symbol: String,
    pub price: i64,
    pub volume_24h: i64,
    pub volume_1h: i64,
    pub open: i64,
    pub high: i64,
    pub low: i64,
    pub bid: i64,
    pub ask: i64,
    pub timestamp: u64,
}

impl Ticker {
    /// What the decision core relies on: a positive, bounded price and a
    /// bounded hourly volume.
    pub open spec fn wf(self) -> bool {
        &&& 0 < self.price <= MAX_PRICE_MILLI
        &&& 0 <= self.volume_1h <= MAX_MONEY_MILLI
    }
}

/// One level of market depth.
#[derive(Debug, Clone, PartialEq, Eq, Structural)]
pub struct PriceLevel {
    pub price: i64,
    pub quantity: i64,
}

/// Level-2 market depth data.
#[derive(Debug, Clone)]
pub struct OrderBook {
    pub symbol: String,
    pub bids: Vec<PriceLevel>,
    pub asks: Vec<PriceLevel>,
    pub last_update_id: u64,
}

/// An account balance for one asset, in milli-units.
#[derive(Debug, Clone)]
pub struct Balance {
    pub asset: String,
    pub free: i64,
    pub locked: i64,
}

impl Balance {
    /// What position sizing relies on: the free amount is bounded.
    pub open spec fn wf(self) -> bool {
        self.free <= MAX_MONEY_MILLI
    }
}

/// One step of the signature checksum: a wrapping 64-bit byte sum.
pub open spec fn wrap_sum_from(acc: u64, s: Seq<u8>) -> u64
    decreases s.len(),
{
    if s.len() == 0 {
        acc
    } else {
        wrap_sum_from(vstd::wrapping::u64_specs::wrapping_add(acc, s[0] as u64), s.drop_first())
    }
}

/// The checksum that [`RequestSigner::sign`] computes over a query: the
/// wrapping byte sum of secret, query, secret, in that order.
pub open spec fn signature_hash(secret: Seq<char>, query: Seq<char>) -> u64 {
    wrap_sum_from(
        wrap_sum_from(
            wrap_sum_from(0, vstd::utf8::encode_utf8(secret)),
            vstd::utf8::encode_utf8(query),
        ),
        vstd::utf8::encode_utf8(secret),
    )
}

/// Folds the wrapping byte sum over one slice of bytes.
fn wrap_sum_bytes(acc: u64, bytes: &[u8]) -> (r: u64)
    ensures
        r == wrap_sum_from(acc, bytes@),
{
    let mut sum = acc;
    let mut i: usize = 0;
    proof {
        assert(bytes@.skip(0) =~= bytes@);
    }
    while i < bytes.len()
        invariant
            0 <= i <= bytes@.len(),
            wrap_sum_from(sum, bytes@.skip(i as int)) == wrap_sum_from(acc, bytes@),
        decreases bytes@.len() - i,
    {
        proof {
            assert(bytes@.skip(i as int).drop_first() =~= bytes@.skip(i as int + 1));
        }
        sum = sum.wrapping_add(bytes[i] as u64);
        i = i + 1;
    }
    proof {
        assert(bytes@.skip(bytes@.len() as int) =~= Seq::<u8>::empty());
    }
    sum
}

/// Generates API signatures for authenticated endpoints.
struct RequestSigner {
    api_key: String,
    secret_key: String,
}

impl RequestSigner {
    pub closed spec fn spec_api_key(self) -> Seq<char> {
        self.api_key@
    }

    pub closed spec fn spec_secret_key(self) -> Seq<char> {
        self.secret_key@
    }

    fn new(api_key: &str, secret_key: &str) -> (r: Self)
        ensures
            r.spec_api_key() == api_key@,
            r.spec_secret_key() == secret_key@,
    {
        RequestSigner { api_key: api_key.to_owned(), secret_key: secret_key.to_owned() }
    }

    /// A keyed checksum of the payload, rendered in hexadecimal. A stand-in
    /// with the shape of an HMAC tag, not a cryptographic one.
    fn sign(&self, query_string: &str) -> (r: String)
        ensures
            r@ == hex_seq(signature_hash(self.spec_secret_key(), query_string@) as nat),
    {
        let mut hash: u64 = 0;
        hash = wrap_sum_bytes(hash, self.secret_key.as_str().as_bytes());
        hash = wrap_sum_bytes(hash, query_string.as_bytes());
        hash = wrap_sum_bytes(hash, self.secret_key.as_str().as_bytes());
        u64_to_hex(hash)
    }

    /// The headers attached to every authenticated request.
    fn get_headers(&self) -> (r: Vec<(String, String)>)
        ensures
            r@.len() == 2,
            r@[0].0@ == "X-MBX-APIKEY"@ && r@[0].1@ == self.spec_api_key(),
            r@[1].0@ == "Content-Type"@ && r@[1].1@ == "application/json"@,
    {
        let mut headers: Vec<(String, String)> = Vec::new();
        headers.push((String::from_str("X-MBX-APIKEY"), self.api_key.clone()));
        headers.push((String::from_str("Content-Type"), String::from_str("application/json")));
        headers
    }
}

/// The capability contract any exchange adapter offers the orchestrator.
///
/// An adapter may fail any call (connectivity is outside its control), so no
/// method promises success; each promises what holds of a success when one
/// comes back, which is all the decision core relies on.
pub trait ExchangeClient: Sized {
    /// Fetches the current ticker for a symbol.
    fn fetch_ticker(&self, symbol: &str) -> (r: MResult<Ticker>)
        ensures
            r matches Ok(t) ==> t.symbol@ == symbol@ && t.wf();

    /// Fetches level-2 market depth for a symbol.
    fn fetch_order_book(&self, symbol: &str, depth: u32) -> (r: MResult<OrderBook>)
        ensures
            r matches Ok(ob) ==> ob.symbol@ == symbol@ && ob.bids@.len() == depth as nat
                && ob.asks@.len() == depth as nat;

    /// Fetches the account balance for one asset.
    fn fetch_balance(&self, asset: &str) -> (r: MResult<Balance>)
        ensures
            r matches Ok(b) ==> b.asset@ == asset@ && b.wf();

    /// Submits an order; success resolves to an order identifier. Success
    /// is only possible for a positive quantity, and, for a limit order, a
    /// positive limit price.
    fn execute_order(
        &self,
        symbol: &str,
        side: OrderSide,
        order_type: OrderType,
        qty: i64,
        price: Option<i64>,
    ) -> (r: MResult<String>)
        ensures
            r matches Ok(_) ==> qty > 0 && (order_type is Limit ==> (price matches Some(p) && p
                > 0));

    /// Verifies connectivity; success resolves to a latency in
    /// milliseconds.
    fn check_connectivity(&self) -> (r: MResult<u64>);
}

/// Base of the simulated price wave, in milli-units.
pub const BASE_PRICE_MILLI: i64 = 2_000_000;

/// Amplitude of the simulated price wave, in milli-units.
pub const AMPLITUDE_MILLI: i64 = 50_000;

/// A simulated exchange adapter shaped like a centralized-exchange client:
/// it signs requests, spends rate-limit weight, and derives market data
/// deterministically from the wall clock.
pub struct BinanceClient {
    signer: RequestSigner,
    base_url: String,
    rate_limit_tokens: u32,
}

impl BinanceClient {
    pub closed spec fn spec_tokens(self) -> u32 {
        self.rate_limit_tokens
    }

    pub closed spec fn spec_api_key(self) -> Seq<char> {
        self.signer.spec_api_key()
    }

    pub closed spec fn spec_secret_key(self) -> Seq<char> {
        self.signer.spec_secret_key()
    }

    pub closed spec fn spec_base_url(self) -> Seq<char> {
        self.base_url@
    }

    pub fn new(api_key: &str, secret_key: &str) -> (r: Self)
        ensures
            r.spec_api_key() == api_key@,
            r.spec_secret_key() == secret_key@,
            r.spec_base_url() == "https://api.binance.com"@,
            r.spec_tokens() == 1200,
    {
        BinanceClient {
            signer: RequestSigner::new(api_key, secret_key),
            base_url: String::from_str("https://api.binance.com"),
            rate_limit_tokens: 1200,  // standard weight per minute
        }
    }

    /// Spends rate-limit weight and consults the clock for a simulated
    /// transient fault. Success is owed whenever the weight fits the budget,
    /// except on the simulated one-percent timeout; every failure is a
    /// network failure.
    fn simulate_network_call(&self, endpoint: &str, weight: u32) -> (r: MResult<()>)
        ensures
            r matches Err(e) ==> e matches BotError::NetworkFailure(_),
            self.spec_tokens() < weight ==> (r matches Err(e) && e matches
                BotError::NetworkFailure(m) && m@ == "Rate limit exceeded"@),
            r is Ok ==> weight <= self.spec_tokens(),
    {
        if self.rate_limit_tokens < weight {
            return fail(BotError::NetworkFailure(String::from_str("Rate limit exceeded")));
        }
        let now = clock_subsec_nanos();
        // simulated 1% chance of a transient network failure
        if now % 100 == 0 {
            let mut line = String::from_str("Network timeout connecting to ");
            line.append(endpoint);
            log_info(line.as_str());
            return fail(BotError::NetworkFailure(String::from_str("Connection timed out")));
        }
        unit(())
    }

    /// Derives deterministic but varying market data from the clock: the
    /// price rides a triangular wave around the base, the volume spikes
    /// every twenty seconds. Whatever the clock reads, the price stays
    /// within the wave band and the volume within its spike bound.
    fn generate_market_data(&self, symbol: &str) -> (r: (i64, i64))
        ensures
            BASE_PRICE_MILLI - AMPLITUDE_MILLI <= r.0 <= BASE_PRICE_MILLI + AMPLITUDE_MILLI,
            0 <= r.1 <= 5_000_000,
    {
        let now = clock_now_secs();
        let cycle = (now % 3600) as i64;  // seconds into the hour
        let phase = cycle % 720;  // a twelve-minute triangular wave
        let wave = if phase < 360 {
            phase - 180
        } else {
            540 - phase
        };
        let price = BASE_PRICE_MILLI + wave * AMPLITUDE_MILLI / 180;
        let volume: i64 = if now % 20 == 0 {
            5_000_000
        } else {
            150_000 + ((now % 500) as i64) * 1000
        };
        (price, volume)
    }
}

impl ExchangeClient for BinanceClient {
    fn fetch_ticker(&self, symbol: &str) -> (r: MResult<Ticker>)
        ensures
            r matches Ok(t) ==> BASE_PRICE_MILLI - AMPLITUDE_MILLI <= t.price <= BASE_PRICE_MILLI
                + AMPLITUDE_MILLI && t.volume_24h == t.volume_1h * 24 && t.open == t.price - 10_000
                && t.high == t.price + 15_000 && t.low == t.price - 15_000 && t.bid == t.price
                - 200 && t.ask == t.price + 200,
            r matches Err(e) ==> e matches BotError::NetworkFailure(_),
    {
        match self.simulate_network_call("/api/v3/ticker/24hr", 2) {
            Err(e) => Err(e),
            Ok(_) => {
                let (price, vol) = self.generate_market_data(symbol);
                let now = clock_now_secs();
                unit(
                    Ticker {
                        symbol: symbol.to_owned(),
                        price,
                        volume_24h: vol * 24,
                        volume_1h: vol,
                        open: price - 10_000,
                        high: price + 15_000,
                        low: price - 15_000,
                        bid: price - 200,
                        ask: price + 200,
                        timestamp: now,
                    },
                )
            },
        }
    }

    fn fetch_order_book(&self, symbol: &str, depth: u32) -> (r: MResult<OrderBook>)
        ensures
            r matches Ok(ob) ==> ob.last_update_id == 1000234 && (forall|j: int|
                0 <= j < depth as int ==> #[trigger] ob.bids@[j].price == ob.bids@[0].price - 500
                    * j && ob.asks@[j].price == ob.bids@[0].price + 500 * j && ob.bids@[j].quantity
                    == 1000 + 1000 * j && ob.asks@[j].quantity == 1000 + 1000 * j),
            r matches Err(e) ==> e matches BotError::NetworkFailure(_),
    {
        match self.simulate_network_call("/api/v3/depth", 5) {
            Err(e) => Err(e),
            Ok(_) => {
                let (price, _) = self.generate_market_data(symbol);
                let mut bids: Vec<PriceLevel> = Vec::new();
                let mut asks: Vec<PriceLevel> = Vec::new();
                let mut i: u32 = 0;
                while i < depth
                    invariant
                        0 <= i <= depth,
                        bids@.len() == i as nat,
                        asks@.len() == i as nat,
                        BASE_PRICE_MILLI - AMPLITUDE_MILLI <= price <= BASE_PRICE_MILLI
                            + AMPLITUDE_MILLI,
                        forall|j: int|
                            0 <= j < i as int ==> bids@[j] == (PriceLevel {
                                price: (price - 500 * j) as i64,
                                quantity: (1000 + 1000 * j) as i64,
                            }),
                        forall|j: int|
                            0 <= j < i as int ==> asks@[j] == (PriceLevel {
                                price: (price + 500 * j) as i64,
                                quantity: (1000 + 1000 * j) as i64,
                            }),
                    decreases depth - i,
                {
                    let spread = (i as i64) * 500;
                    bids.push(PriceLevel { price: price - spread, quantity: 1000 + (i as i64) * 1000 });
                    asks.push(PriceLevel { price: price + spread, quantity: 1000 + (i as i64) * 1000 });
                    i = i + 1;
                }
                unit(
                    OrderBook {
                        symbol: symbol.to_owned(),
                        bids,
                        asks,
                        last_update_id: 1000234,
                    },
                )
            },
        }
    }

    fn fetch_balance(&self, asset: &str) -> (r: MResult<Balance>)
        ensures
            r matches Ok(b) ==> b.free == 50_000_000 && b.locked == 1_200_000,
            r matches Err(e) ==> e matches BotError::NetworkFailure(_),
    {
        // authenticated endpoint: headers and signature are prepared as a
        // real adapter would, though the simulation sends nothing
        let _headers = self.signer.get_headers();
        let _signature = self.signer.sign("timestamp=123456789");
        match self.simulate_network_call("/api/v3/account", 10) {
            Err(e) => Err(e),
            Ok(_) => unit(
                Balance { asset: asset.to_owned(), free: 50_000_000, locked: 1_200_000 },
            ),
        }
    }

    fn execute_order(
        &self,
        symbol: &str,
        side: OrderSide,
        order_type: OrderType,
        qty: i64,
        price: Option<i64>,
    ) -> (r: MResult<String>)
        ensures
            r matches Err(e) ==> (e matches BotError::NetworkFailure(_) || e matches
                BotError::ExchangeError(_)),
            r matches Err(e) ==> (e matches BotError::ExchangeError(_) ==> (qty <= 0 || (
            order_type is Limit && (price is None || price.unwrap() <= 0)))),
            r matches Ok(id) ==> id@.len() > 4 && id@.subrange(0, 4) == "ORD-"@ && (exists|m: nat|
                id@ == "ORD-"@ + symbol@ + "-"@ + dec_seq((qty as int / 1000) as nat) + "-"@
                    + hex_seq(m)),
    {
        match self.simulate_network_call("/api/v3/order", 15) {
            Err(e) => Err(e),
            Ok(_) => {
                if qty <= 0 {
                    return fail(
                        BotError::ExchangeError(
                            String::from_str("Order quantity must be positive"),
                        ),
                    );
                }
                if let OrderType::Limit = order_type {
                    let price_ok = match price {
                        Some(p) => p > 0,
                        None => false,
                    };
                    if !price_ok {
                        return fail(
                            BotError::ExchangeError(
                                String::from_str("Limit order requires valid price"),
                            ),
                        );
                    }
                }
                let mut query = String::from_str("symbol=");
                query.append(symbol);
                query.append("&side=");
                query.append(side.name());
                query.append("&quantity=");
                query.append(milli_to_dec(qty).as_str());
                let signature = self.signer.sign(query.as_str());

                let mut log_line = String::from_str("Signed Order Request: ");
                log_line.append(query.as_str());
                log_line.append(" [Sig: ");
                log_line.append(signature.as_str());
                log_line.append("]");
                log_info(log_line.as_str());

                let mut order_id = String::from_str("ORD-");
                order_id.append(symbol);
                order_id.append("-");
                order_id.append(u64_to_dec((qty / 1000) as u64).as_str());
                order_id.append("-");
                let stamp = clock_now_micros();
                order_id.append(u64_to_hex(stamp).as_str());
                proof {
                    reveal_strlit("ORD-");
                    reveal_strlit("-");
                    assert(order_id@ == "ORD-"@ + symbol@ + "-"@ + dec_seq(
                        (qty as int / 1000) as nat,
                    ) + "-"@ + hex_seq(stamp as nat));
                    assert(order_id@.subrange(0, 4) =~= "ORD-"@);
                }
                unit(order_id)
            },
        }
    }

    fn check_connectivity(&self) -> (r: MResult<u64>)
        ensures
            r matches Ok(l) ==> l == 45,
            r matches Err(e) ==> e matches BotError::NetworkFailure(_),
    {
        match self.simulate_network_call("/api/v3/ping", 1) {
            Err(e) => Err(e),
            Ok(_) => unit(45),  // simulated latency, in milliseconds
        }
    }
}

} // verus!
