use vstd::prelude::*;

verus! {

#[verifier::external_type_specification]
#[verifier::external_body]
pub struct ExSystemTime(std::time::SystemTime);

/// Relies on `SystemTime::now`: the current reading of the system clock.
#[verifier::external_body]
fn clock_reading() -> std::time::SystemTime {
    std::time::SystemTime::now()
}

/// Relies on `SystemTime::duration_since(UNIX_EPOCH)`: the time from the
/// epoch to `t`, or `None` when `t` lies before the epoch.
#[verifier::external_body]
fn since_epoch(t: &std::time::SystemTime) -> Option<std::time::Duration> {
    t.duration_since(std::time::UNIX_EPOCH).ok()
}

/// Relies on `Duration::as_secs`: the whole seconds of `d`.
#[verifier::external_body]
fn whole_seconds(d: &std::time::Duration) -> u64 {
    d.as_secs()
}

/// The system clock reads earlier than the Unix epoch.
#[derive(Debug, Clone, Copy, PartialEq, Eq, Structural)]
pub struct ClockError;

/// A source of the current time.
pub trait Now {
    /// Seconds since the Unix epoch.
    fn now_unix() -> Result<u64, ClockError>;
}

/// The operating system's clock.
pub struct SystemNow;

impl Now for SystemNow {
    fn now_unix() -> Result<u64, ClockError> {
        match since_epoch(&clock_reading()) {
            Some(elapsed) => Ok(whole_seconds(&elapsed)),
            None => Err(ClockError),
        }
    }
}

} // verus!
