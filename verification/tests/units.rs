//! Simulation-time conversions and log-once levels.

use sigsim::logging::Level;
use sigsim::logging::LogOnceState;
use sigsim::logging::debug_panic;
use sigsim::simtime::SIMTIME_ONE_MILLISECOND;
use sigsim::simtime::SIMTIME_ONE_MINUTE;
use sigsim::simtime::SIMTIME_ONE_SECOND;
use sigsim::simtime::SimulationTime;

#[test]
fn test_from_sim_time() {
    let sim_time = 5 * SIMTIME_ONE_MINUTE + 7 * SIMTIME_ONE_MILLISECOND;
    let rust_time = SimulationTime::from(sim_time);

    assert_eq!(rust_time.as_secs(), 5 * 60);
    assert_eq!(rust_time.as_millis(), 5 * 60 * 1_000 + 7);
}

#[test]
fn sim_time_unit_constants() {
    assert_eq!(SIMTIME_ONE_SECOND, 1_000 * SIMTIME_ONE_MILLISECOND);
    assert_eq!(SIMTIME_ONE_MINUTE, 60 * SIMTIME_ONE_SECOND);
    let t = SimulationTime::from(1_500_000_000);
    assert_eq!(t.as_secs(), 1);
    assert_eq!(t.as_millis(), 1_500);
    assert_eq!(t.as_micros(), 1_500_000);
    assert_eq!(t.as_nanos(), 1_500_000_000);
}

#[test]
fn debug_panic_macro() {
    let (level, message) = debug_panic(&format!("Hello {}", "World"));
    assert_eq!(level, Level::Warn);
    assert_eq!(message, "Hello World");
}

#[test]
fn log_once_at_level() {
    let mut statement = LogOnceState::new();
    for x in 0..10 {
        let level = statement.next_level(Level::Warn, Level::Debug);
        let _ = format!("{x}");
        if x == 0 {
            assert_eq!(level, Level::Warn);
        } else {
            assert_eq!(level, Level::Debug);
        }
    }

    // two distinct statements each speak loudly the first time
    let mut first = LogOnceState::new();
    let mut second = LogOnceState::new();
    assert_eq!(first.next_level(Level::Warn, Level::Debug), Level::Warn);
    assert_eq!(second.next_level(Level::Warn, Level::Debug), Level::Warn);
}

#[test]
fn warn_once() {
    let mut trace_stmt = LogOnceState::new();
    assert_eq!(trace_stmt.warn_once_then_trace(), Level::Warn);
    assert_eq!(trace_stmt.warn_once_then_trace(), Level::Trace);

    let mut debug_stmt = LogOnceState::new();
    assert_eq!(debug_stmt.warn_once_then_debug(), Level::Warn);
    assert_eq!(debug_stmt.warn_once_then_debug(), Level::Debug);
}
