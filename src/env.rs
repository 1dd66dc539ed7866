use vstd::prelude::*;

verus! {

/// Milliseconds since the host's epoch.
pub type TimeMillis = u64;

/// A source of the current time.
pub trait Environment {
    /// The value that every reading returns, for a clock that always reads the
    /// same; `None` for a clock whose readings are not known in advance.
    spec fn pinned_time(&self) -> Option<TimeMillis>;

    fn now(&self) -> (t: TimeMillis)
        ensures
            self.pinned_time() is Some ==> self.pinned_time() == Some(t),
    ;
}

/// Relies on ic_cdk::api::time: it reads the host's clock, in nanoseconds
/// since 1970-01-01; nothing is known of the value in advance. It is only
/// available to code that runs inside a canister (elsewhere it panics).
#[verifier::external_body]
fn host_time_nanos() -> (t: u64) {
    ic_cdk::api::time()
}

/// Nanoseconds in a millisecond.
pub const NANOS_PER_MILLI: u64 = 1_000_000;

/// A host reading in nanoseconds, given in whole milliseconds.
pub fn millis_of_nanos(nanos: u64) -> (ms: TimeMillis)
    ensures
        ms == nanos / NANOS_PER_MILLI,
{
    nanos / NANOS_PER_MILLI
}

/// The live clock, read from the host and given in milliseconds.
pub struct CanisterEnvironment {}

impl CanisterEnvironment {
    pub fn new() -> Self {
        CanisterEnvironment {}
    }
}

impl Environment for CanisterEnvironment {
    open spec fn pinned_time(&self) -> Option<TimeMillis> {
        None
    }

    fn now(&self) -> (t: TimeMillis) {
        millis_of_nanos(host_time_nanos())
    }
}

/// A clock that always reads the value it was made with.
pub struct TestEnvironment {
    pub now: u64,
}

impl Environment for TestEnvironment {
    open spec fn pinned_time(&self) -> Option<TimeMillis> {
        Some(self.now)
    }

    fn now(&self) -> (t: TimeMillis) {
        self.now
    }
}

/// The placeholder clock of a state that has not been initialised: it always
/// reads zero.
pub struct EmptyEnvironment {}

impl Environment for EmptyEnvironment {
    open spec fn pinned_time(&self) -> Option<TimeMillis> {
        Some(0)
    }

    fn now(&self) -> (t: TimeMillis) {
        0
    }
}

/// The clock that a runtime state holds: one of the three kinds above.
pub enum Clock {
    Empty(EmptyEnvironment),
    Live(CanisterEnvironment),
    Fixed(TestEnvironment),
}

impl Environment for Clock {
    open spec fn pinned_time(&self) -> Option<TimeMillis> {
        match self {
            Clock::Empty(e) => e.pinned_time(),
            Clock::Live(e) => e.pinned_time(),
            Clock::Fixed(e) => e.pinned_time(),
        }
    }

    fn now(&self) -> (t: TimeMillis) {
        match self {
            Clock::Empty(e) => e.now(),
            Clock::Live(e) => e.now(),
            Clock::Fixed(e) => e.now(),
        }
    }
}

} // verus!
