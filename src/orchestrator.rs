use crate::error::HuntError;
use vstd::prelude::*;

verus! {

/// How many times a failed search for the game process is retried.
pub const DISCOVERY_RETRIES: u32 = 50;

/// How long to wait between two searches for the game process.
pub const DISCOVERY_INTERVAL_MS: u64 = 200;

/// The default refresh interval: about 60 frames per second.
pub const DEFAULT_REFRESH_MS: u64 = 16;

/// What to do after a search for the game process failed.
#[derive(Debug, Clone, Copy, PartialEq, Eq, Structural)]
pub enum Discovery {
    /// Wait this long, then search again.
    Retry { wait_ms: u64 },
    /// Stop: the game is not running.
    GiveUp(HuntError),
}

/// Decides, after `failures` failed searches in a row, whether to search
/// again: up to `DISCOVERY_RETRIES` retries, `DISCOVERY_INTERVAL_MS` apart.
pub fn after_failed_discovery(failures: u32) -> (r: Discovery)
    requires
        failures >= 1,
    ensures
        failures > DISCOVERY_RETRIES ==> r == Discovery::GiveUp(HuntError::NotAttached),
        failures <= DISCOVERY_RETRIES ==> r == (Discovery::Retry { wait_ms: DISCOVERY_INTERVAL_MS }),
{
    if failures > DISCOVERY_RETRIES {
        Discovery::GiveUp(HuntError::NotAttached)
    } else {
        Discovery::Retry { wait_ms: DISCOVERY_INTERVAL_MS }
    }
}

/// How long to sleep after a tick that took `elapsed_ms`, so that ticks are
/// `refresh_ms` apart: the rest of the interval, or nothing when the tick
/// overran it.
pub fn tick_sleep_ms(refresh_ms: u64, elapsed_ms: u64) -> (r: u64)
    ensures
        r == if refresh_ms > elapsed_ms {
            refresh_ms - elapsed_ms
        } else {
            0
        },
{
    if refresh_ms > elapsed_ms {
        refresh_ms - elapsed_ms
    } else {
        0
    }
}

/// The process exit code of a run: 0 after a clean quit, 1 after a fatal
/// error.
pub fn exit_code<E>(outcome: &Result<(), E>) -> (r: i32)
    ensures
        r == if outcome is Ok {
            0i32
        } else {
            1i32
        },
{
    match outcome {
        Ok(()) => 0,
        Err(_) => 1,
    }
}

} // verus!
