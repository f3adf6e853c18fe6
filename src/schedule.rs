use vstd::prelude::*;

verus! {

/// std's monotonic clock reading; carried, never inspected.
#[verifier::external_type_specification]
#[verifier::external_body]
pub struct ExInstant(std::time::Instant);

/// Relies on `Instant::now`: some reading of the monotonic clock.
pub assume_specification[ std::time::Instant::now ]() -> std::time::Instant;

/// Relies on `Instant::elapsed`: the time since the reading.
pub assume_specification[ std::time::Instant::elapsed ](i: &std::time::Instant) -> std::time::Duration;

/// Relies on `Duration::as_millis`: whole milliseconds.
pub assume_specification[ std::time::Duration::as_millis ](d: &std::time::Duration) -> u128;

/// Measures how long the server took to come up.
pub struct StartupTimer {
    started: std::time::Instant,
}

impl StartupTimer {
    /// Starts the clock.
    pub fn start() -> (r: Self) {
        StartupTimer { started: std::time::Instant::now() }
    }

    /// Stops the clock: whole milliseconds since `start`.
    pub fn finish(self) -> (r: u128) {
        self.started.elapsed().as_millis()
    }
}

} // verus!
