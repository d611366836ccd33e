use vstd::prelude::*;

verus! {

/// Suspension controls of one worker: its pause flag, the sleep it takes
/// between cycles, whether a sleep timer is outstanding, and whether a wake
/// notification is waiting to be observed.
#[derive(Clone, Copy, Debug)]
pub struct WorkerManagement {
    /// The worker may not proceed, even when its timer has expired.
    pub paused: bool,
    /// Milliseconds to wait before each cycle; `None` never sleeps.
    pub sleep_duration: Option<u64>,
    /// A sleep timer is outstanding and its cancellation handle is held.
    pub sleep_armed: bool,
    /// A wake notification was fired and nobody has observed it yet.
    pub wake_pending: bool,
}

impl WorkerManagement {
    /// Controls with the given pause flag and sleep duration, no outstanding
    /// timer and no pending wake.
    pub fn new(paused: bool, sleep_duration: Option<u64>) -> (r: Self)
        ensures
            r.paused == paused,
            r.sleep_duration == sleep_duration,
            !r.sleep_armed,
            !r.wake_pending,
    {
        WorkerManagement { paused, sleep_duration, sleep_armed: false, wake_pending: false }
    }

    /// Whether a sleep duration is configured.
    pub fn has_sleep_duration(&self) -> (r: bool)
        ensures
            r == self.sleep_duration.is_some(),
    {
        self.sleep_duration.is_some()
    }
}

} // verus!
