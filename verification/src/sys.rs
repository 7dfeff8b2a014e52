//! Trusted boundary to the process clock and the console.
//!
//! These are the only places where the library touches the outside world.
//! Nothing is promised of a clock reading, and the engine's contracts never
//! depend on one: every function that receives a time value states what
//! holds of its result whatever the value was.

use std::io::Write;
use vstd::prelude::*;

verus! {

/// Relies on `std::time::SystemTime` for the wall clock. Seconds since the
/// Unix epoch; nothing is promised of the value.
#[verifier::external_body]
pub(crate) fn clock_now_secs() -> u64 {
    match std::time::SystemTime::now().duration_since(std::time::UNIX_EPOCH) {
        Ok(d) => d.as_secs(),
        Err(_) => 0,
    }
}

/// Relies on `std::time::SystemTime` for the wall clock. Milliseconds since
/// the Unix epoch, truncated to 64 bits; nothing is promised of the value.
#[verifier::external_body]
pub(crate) fn clock_now_millis() -> u64 {
    match std::time::SystemTime::now().duration_since(std::time::UNIX_EPOCH) {
        Ok(d) => d.as_millis() as u64,
        Err(_) => 0,
    }
}

/// Relies on `std::time::SystemTime` for the wall clock. Microseconds since
/// the Unix epoch, truncated to 64 bits; nothing is promised of the value.
#[verifier::external_body]
pub(crate) fn clock_now_micros() -> u64 {
    match std::time::SystemTime::now().duration_since(std::time::UNIX_EPOCH) {
        Ok(d) => d.as_micros() as u64,
        Err(_) => 0,
    }
}

/// Relies on `std::time::SystemTime` for the wall clock. The sub-second
/// nanosecond part of the current time; nothing is promised of the value.
#[verifier::external_body]
pub(crate) fn clock_subsec_nanos() -> u32 {
    match std::time::SystemTime::now().duration_since(std::time::UNIX_EPOCH) {
        Ok(d) => d.subsec_nanos(),
        Err(_) => 0,
    }
}

/// Relies on `std::io::Stdout` to print one line to the console.
#[verifier::external_body]
pub(crate) fn emit_line(line: &str) {
    let _ = writeln!(std::io::stdout(), "{}", line);
}

} // verus!
