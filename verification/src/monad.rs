//! Result-chaining pipeline core.
//!
//! Every operation in the trading pipeline returns an [`MResult`], a
//! `Result` specialised to [`BotError`]. The [`Bind`] trait supplies the
//! chainable composition operators ("railway-oriented" style): `bind`,
//! `map_data`, `inspect`, `inspect_err`, `catch` and `filter_monad`.
//!
//! The central guarantee is that a failure introduced at any stage of a
//! chain short-circuits every later stage untouched: see the `ensures`
//! clauses of [`Bind::bind`] and the laws [`lemma_failure_short_circuits`]
//! and [`lemma_bind_associative`].

use crate::sys::clock_now_millis;
use crate::sys::emit_line;
use crate::text::u64_to_dec;
use vstd::prelude::*;

verus! {

/// Failure categories for the trading bot.
///
/// Each variant carries a human-readable message. `InternalStateError` is
/// reserved for genuine internal invariant violations; "no actionable signal
/// this tick" is not an error in this crate but a plain `Ok(None)` from the
/// strategy, so the two can never be confused.
#[derive(Debug, Clone, PartialEq)]
pub enum BotError {
    NetworkFailure(String),
    StrategyError(String),
    ExchangeError(String),
    RiskViolation(String),
    ConfigurationError(String),
    InternalStateError(String),
}

impl BotError {
    /// A tagged one-line rendering of the error, e.g. `[NETWORK] timed out`.
    pub fn describe(&self) -> (r: String)
        ensures
            self matches BotError::NetworkFailure(m) ==> r@ == "[NETWORK] "@ + m@,
            self matches BotError::StrategyError(m) ==> r@ == "[STRATEGY] "@ + m@,
            self matches BotError::ExchangeError(m) ==> r@ == "[EXCHANGE] "@ + m@,
            self matches BotError::RiskViolation(m) ==> r@ == "[RISK] "@ + m@,
            self matches BotError::ConfigurationError(m) ==> r@ == "[CONFIG] "@ + m@,
            self matches BotError::InternalStateError(m) ==> r@ == "[INTERNAL] "@ + m@,
    {
        match self {
            BotError::NetworkFailure(m) => String::from_str("[NETWORK] ").concat(m.as_str()),
            BotError::StrategyError(m) => String::from_str("[STRATEGY] ").concat(m.as_str()),
            BotError::ExchangeError(m) => String::from_str("[EXCHANGE] ").concat(m.as_str()),
            BotError::RiskViolation(m) => String::from_str("[RISK] ").concat(m.as_str()),
            BotError::ConfigurationError(m) => String::from_str("[CONFIG] ").concat(m.as_str()),
            BotError::InternalStateError(m) => String::from_str("[INTERNAL] ").concat(m.as_str()),
        }
    }
}

/// The core pipeline type: a `Result` over the bot's own error category.
pub type MResult<T> = Result<T, BotError>;

/// Chainable composition operators over [`MResult`].
///
/// On a failure, every operator except `catch` and `inspect_err` passes the
/// failure through untouched, and in particular never runs its closure: each
/// method only demands its closure's precondition for the success (or, for
/// `catch`/`inspect_err`, failure) payload it may be called with.
pub trait Bind<T>: Sized {
    /// The `Result` that the implementing type stands for; the contracts of
    /// the operators below are stated over it.
    spec fn as_mresult(self) -> Result<T, BotError>;

    /// Feeds the success value to `f`, which decides success or failure
    /// itself; a failure short-circuits, skipping `f`.
    fn bind<U, F: FnOnce(T) -> MResult<U>>(self, f: F) -> (r: MResult<U>)
        requires
            self.as_mresult().is_ok() ==> f.requires((self.as_mresult()->Ok_0,)),
        ensures
            self.as_mresult().is_err() ==> r == Err::<U, BotError>(self.as_mresult()->Err_0),
            self.as_mresult().is_ok() ==> f.ensures((self.as_mresult()->Ok_0,), r);

    /// Transforms the success value, keeping the `Result` wrapper; a failure
    /// short-circuits, skipping `f`.
    fn map_data<U, F: FnOnce(T) -> U>(self, f: F) -> (r: MResult<U>)
        requires
            self.as_mresult().is_ok() ==> f.requires((self.as_mresult()->Ok_0,)),
        ensures
            self.as_mresult().is_err() ==> r == Err::<U, BotError>(self.as_mresult()->Err_0),
            self.as_mresult().is_ok() ==> r.is_ok() && f.ensures(
                (self.as_mresult()->Ok_0,),
                r->Ok_0,
            );

    /// Runs a side-effecting observer on the success value without altering
    /// anything; a failure short-circuits, skipping `f`.
    fn inspect<F: FnOnce(&T)>(self, f: F) -> (r: MResult<T>)
        requires
            self.as_mresult().is_ok() ==> f.requires((&self.as_mresult()->Ok_0,)),
        ensures
            r == self.as_mresult();

    /// Runs a side-effecting observer on the failure without altering
    /// anything; a success passes through, skipping `f`.
    fn inspect_err<F: FnOnce(&BotError)>(self, f: F) -> (r: MResult<T>)
        requires
            self.as_mresult().is_err() ==> f.requires((&self.as_mresult()->Err_0,)),
        ensures
            r == self.as_mresult();

    /// Recovers from a failure: `f` may produce a fresh success or a new
    /// failure; a success passes through, skipping `f`.
    fn catch<F: FnOnce(BotError) -> MResult<T>>(self, f: F) -> (r: MResult<T>)
        requires
            self.as_mresult().is_err() ==> f.requires((self.as_mresult()->Err_0,)),
        ensures
            self.as_mresult().is_ok() ==> r == self.as_mresult(),
            self.as_mresult().is_err() ==> f.ensures((self.as_mresult()->Err_0,), r);

    /// Demotes a success to a `StrategyError` carrying `error_msg` when the
    /// predicate rejects it; a failure passes through, skipping the
    /// predicate.
    fn filter_monad<F: FnOnce(&T) -> bool>(self, predicate: F, error_msg: &str) -> (r: MResult<T>)
        requires
            self.as_mresult().is_ok() ==> predicate.requires((&self.as_mresult()->Ok_0,)),
        ensures
            self.as_mresult().is_err() ==> r == self.as_mresult(),
            self.as_mresult().is_ok() ==> {
                ||| (predicate.ensures((&self.as_mresult()->Ok_0,), true) && r
                    == self.as_mresult())
                ||| (predicate.ensures((&self.as_mresult()->Ok_0,), false) && (r matches Err(e)
                    && e matches BotError::StrategyError(m) && m@ == error_msg@))
            };
}

impl<T> Bind<T> for MResult<T> {
    open spec fn as_mresult(self) -> Result<T, BotError> {
        self
    }

    fn bind<U, F: FnOnce(T) -> MResult<U>>(self, f: F) -> (r: MResult<U>) {
        match self {
            Ok(val) => f(val),
            Err(e) => Err(e),
        }
    }

    fn map_data<U, F: FnOnce(T) -> U>(self, f: F) -> (r: MResult<U>) {
        match self {
            Ok(val) => Ok(f(val)),
            Err(e) => Err(e),
        }
    }

    fn inspect<F: FnOnce(&T)>(self, f: F) -> (r: MResult<T>) {
        if let Ok(ref val) = self {
            f(val);
        }
        self
    }

    fn inspect_err<F: FnOnce(&BotError)>(self, f: F) -> (r: MResult<T>) {
        if let Err(ref e) = self {
            f(e);
        }
        self
    }

    fn catch<F: FnOnce(BotError) -> MResult<T>>(self, f: F) -> (r: MResult<T>) {
        match self {
            Ok(val) => Ok(val),
            Err(e) => f(e),
        }
    }

    fn filter_monad<F: FnOnce(&T) -> bool>(self, predicate: F, error_msg: &str) -> (r: MResult<T>) {
        match self {
            Ok(val) => {
                if predicate(&val) {
                    Ok(val)
                } else {
                    Err(BotError::StrategyError(error_msg.to_owned()))
                }
            },
            Err(e) => Err(e),
        }
    }
}

/// Wraps a value into the pipeline's success context.
pub fn unit<T>(val: T) -> (r: MResult<T>)
    ensures
        r == Ok::<T, BotError>(val),
{
    Ok(val)
}

/// Wraps a plain message into the pipeline's failure context, as an
/// internal-state error.
pub fn fail_msg<T>(msg: &str) -> (r: MResult<T>)
    ensures
        r matches Err(e) && e matches BotError::InternalStateError(m) && m@ == msg@,
{
    Err(BotError::InternalStateError(msg.to_owned()))
}

/// Wraps a specific error into the pipeline's failure context.
pub fn fail<T>(error: BotError) -> (r: MResult<T>)
    ensures
        r == Err::<T, BotError>(error),
{
    Err(error)
}

/// Prints a message to the console, tagged `[INFO]` and stamped with the
/// current time in milliseconds. Used for observability inside pipeline
/// chains.
pub fn log_info(msg: &str) {
    let mut line = String::from_str("[INFO] [");
    line.append(u64_to_dec(clock_now_millis()).as_str());
    line.append("] ");
    line.append(msg);
    emit_line(line.as_str());
}

/// Combines two results: success exactly when both succeed; otherwise the
/// first failure, in argument order.
pub fn zip<T, U>(first: MResult<T>, second: MResult<U>) -> (r: MResult<(T, U)>)
    ensures
        first.is_err() ==> r == Err::<(T, U), BotError>(first->Err_0),
        first.is_ok() && second.is_err() ==> r == Err::<(T, U), BotError>(second->Err_0),
        first.is_ok() && second.is_ok() ==> r == Ok::<(T, U), BotError>(
            (first->Ok_0, second->Ok_0),
        ),
{
    match first {
        Ok(v1) => match second {
            Ok(v2) => Ok((v1, v2)),
            Err(e) => Err(e),
        },
        Err(e) => Err(e),
    }
}

/// Retries an operation until it succeeds, at most `attempts` times (and at
/// least once). Whatever comes back, it is an outcome of one call of `f`.
pub fn retry<T, F>(attempts: u32, f: F) -> (r: MResult<T>) where F: Fn() -> MResult<T> + Clone
    requires
        f.requires(()),
    ensures
        f.ensures((), r),
    decreases attempts,
{
    let result = f();
    match result {
        Ok(v) => Ok(v),
        Err(e) => {
            if attempts <= 1 {
                Err(e)
            } else {
                retry(attempts - 1, f)
            }
        },
    }
}

/// Composition of one pipeline stage at the specification level: the model
/// that the executable `bind` refines.
pub open spec fn spec_bind<T, U>(
    r: Result<T, BotError>,
    f: spec_fn(T) -> Result<U, BotError>,
) -> Result<U, BotError> {
    match r {
        Ok(v) => f(v),
        Err(e) => Err(e),
    }
}

/// A whole chain of pipeline stages at the specification level.
pub open spec fn run_chain<T>(
    r: Result<T, BotError>,
    stages: Seq<spec_fn(T) -> Result<T, BotError>>,
) -> Result<T, BotError>
    decreases stages.len(),
{
    if stages.len() == 0 {
        r
    } else {
        run_chain(spec_bind(r, stages[0]), stages.drop_first())
    }
}

/// Law: a failure introduced before stage `k` of a chain prevents every
/// later stage from running — however many stages follow and whatever they
/// are, the failure comes out of the chain untouched.
pub proof fn lemma_failure_short_circuits<T>(
    e: BotError,
    stages: Seq<spec_fn(T) -> Result<T, BotError>>,
)
    ensures
        run_chain(Err::<T, BotError>(e), stages) == Err::<T, BotError>(e),
    decreases stages.len(),
{
    if stages.len() > 0 {
        lemma_failure_short_circuits(e, stages.drop_first());
    }
}

/// Law: stage composition is associative — chaining `bind` calls is
/// equivalent to nesting them by hand, so a pipeline may be grouped freely.
pub proof fn lemma_bind_associative<T, U, V>(
    r: Result<T, BotError>,
    f: spec_fn(T) -> Result<U, BotError>,
    g: spec_fn(U) -> Result<V, BotError>,
)
    ensures
        spec_bind(spec_bind(r, f), g) == spec_bind(r, (|v: T| spec_bind(f(v), g))),
{
}

} // verus!
