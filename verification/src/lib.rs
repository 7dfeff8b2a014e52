//! A single-symbol, tick-driven trading decision engine.
//!
//! The crate is organised around a result-chaining pipeline core
//! ([`monad`]), streaming technical indicators and a signal strategy with a
//! risk-based position sizer ([`trader`]), a simulated exchange connectivity
//! layer ([`exchange`]), and a lifecycle state machine that composes the
//! per-tick pipeline ([`bot`]).
//!
//! All fractional quantities (prices, volumes, balances, percentages,
//! signal strengths) are fixed-point integers in thousandths; see [`units`].

pub mod bot;
pub mod exchange;
pub mod monad;
pub(crate) mod sys;
pub mod text;
pub mod trader;
pub mod units;
