use volume_bot::monad::{fail, fail_msg, retry, unit, zip, Bind, BotError, MResult};

#[test]
fn test_monad_chain() {
    let start = unit(10);
    let result = start.bind(|x| unit(x * 2)).bind(|x| unit(x + 5));

    assert_eq!(result, Ok(25));
}

#[test]
fn test_monad_failure() {
    let start = unit(10);
    let result: MResult<i32> = start.bind(|_| fail_msg("Broken chain")).bind(|x: i32| unit(x * 2)); // Should not execute

    match result {
        Err(BotError::InternalStateError(msg)) => assert_eq!(msg, "Broken chain"),
        _ => panic!("Expected InternalStateError"),
    }
}

#[test]
fn test_failure_skips_later_stage_closures() {
    let mut bind_ran = false;
    let mut map_ran = false;
    let mut inspect_ran = false;
    let start: MResult<i32> = fail_msg("boom");
    let r = start
        .bind(|x| {
            bind_ran = true;
            unit(x + 1)
        })
        .map_data(|x| {
            map_ran = true;
            x * 2
        })
        .inspect(|_| {
            inspect_ran = true;
        });
    assert!(!bind_ran);
    assert!(!map_ran);
    assert!(!inspect_ran);
    match r {
        Err(BotError::InternalStateError(msg)) => assert_eq!(msg, "boom"),
        _ => panic!("Expected the original failure untouched"),
    }
}

#[test]
fn test_map_data_on_success() {
    let r = unit(21).map_data(|x| x * 2);
    assert_eq!(r, Ok(42));
}

#[test]
fn test_inspect_passes_value_through() {
    let mut seen = 0;
    let r = unit(7).inspect(|v| {
        seen = *v;
    });
    assert_eq!(r, Ok(7));
    assert_eq!(seen, 7);
}

#[test]
fn test_inspect_err_observes_failure() {
    let mut tag = String::new();
    let r: MResult<i32> = fail(BotError::NetworkFailure("down".to_string())).inspect_err(|e| {
        tag = e.describe();
    });
    assert!(r.is_err());
    assert_eq!(tag, "[NETWORK] down");
}

#[test]
fn test_catch_recovers_failure() {
    let r: MResult<i32> = fail(BotError::NetworkFailure("down".to_string())).catch(|_| unit(99));
    assert_eq!(r, Ok(99));
}

#[test]
fn test_catch_skips_success() {
    let r: MResult<i32> = unit(5).catch(|_| unit(99));
    assert_eq!(r, Ok(5));
}

#[test]
fn test_filter_monad_rejects() {
    let r = unit(3).filter_monad(|v| *v > 10, "too small");
    match r {
        Err(BotError::StrategyError(msg)) => assert_eq!(msg, "too small"),
        _ => panic!("Expected a StrategyError"),
    }
}

#[test]
fn test_filter_monad_accepts() {
    let r = unit(30).filter_monad(|v| *v > 10, "too small");
    assert_eq!(r, Ok(30));
}

#[test]
fn test_zip_combines_and_short_circuits() {
    assert_eq!(zip(unit(1), unit(2)), Ok((1, 2)));
    let left: MResult<i32> = fail(BotError::ExchangeError("no".to_string()));
    match zip(left, unit(2)) {
        Err(BotError::ExchangeError(msg)) => assert_eq!(msg, "no"),
        _ => panic!("Expected the first failure"),
    }
    let right: MResult<i32> = fail_msg("second");
    match zip(unit(1), right) {
        Err(BotError::InternalStateError(msg)) => assert_eq!(msg, "second"),
        _ => panic!("Expected the second failure"),
    }
}

#[test]
fn test_retry_until_success() {
    let calls = std::cell::Cell::new(0u32);
    let r = retry(5, || {
        calls.set(calls.get() + 1);
        if calls.get() < 3 {
            fail_msg("not yet")
        } else {
            unit(7)
        }
    });
    assert_eq!(r, Ok(7));
    assert_eq!(calls.get(), 3);
}

#[test]
fn test_retry_exhausts_attempts() {
    let calls = std::cell::Cell::new(0u32);
    let r: MResult<i32> = retry(3, || {
        calls.set(calls.get() + 1);
        fail_msg("always")
    });
    assert!(r.is_err());
    assert_eq!(calls.get(), 3);
}

#[test]
fn test_describe_tags_every_category() {
    assert_eq!(
        BotError::NetworkFailure("a".to_string()).describe(),
        "[NETWORK] a"
    );
    assert_eq!(
        BotError::StrategyError("b".to_string()).describe(),
        "[STRATEGY] b"
    );
    assert_eq!(
        BotError::ExchangeError("c".to_string()).describe(),
        "[EXCHANGE] c"
    );
    assert_eq!(
        BotError::RiskViolation("d".to_string()).describe(),
        "[RISK] d"
    );
    assert_eq!(
        BotError::ConfigurationError("e".to_string()).describe(),
        "[CONFIG] e"
    );
    assert_eq!(
        BotError::InternalStateError("f".to_string()).describe(),
        "[INTERNAL] f"
    );
}
