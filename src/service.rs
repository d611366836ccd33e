use vstd::prelude::*;

use crate::run_state::{next_run_state, next_state, RunState};
use crate::suspension::WorkerManagement;

verus! {

/// What the lifecycle loop does after one advance.
#[derive(Clone, Copy, Debug, PartialEq, Eq, Structural)]
pub enum Wait {
    /// Return to the worker: it does its work for this cycle now.
    Proceed,
    /// Block until the wake notification fires, then advance again.
    AwaitWake,
    /// Sleep for this many milliseconds (cut short if the timer is
    /// cancelled), then advance again.
    Sleep(u64),
}

/// What the caller of a toggle has to carry out outside the lock.
#[derive(Clone, Copy, Debug, PartialEq, Eq, Structural)]
pub struct ToggleEffects {
    /// Fire the wake notification.
    pub wake: bool,
    /// Cancel the outstanding sleep timer.
    pub abort_sleep: bool,
    /// Write the new enabled flag to the store.
    pub persist: bool,
}

/// One named worker: its durable identity and flag, its place in the
/// run-state machine, and its suspension controls.
#[derive(Debug)]
pub struct Service {
    pub id: i64,
    pub name: String,
    pub enable: bool,
    pub creation_time: String,
    pub run_state: RunState,
    pub next_run_state: RunState,
    pub suspension: WorkerManagement,
}

impl Service {
    /// The pause flag mirrors the enabled flag, and a sleep timer is only
    /// outstanding while the worker, unpaused, sleeps with a configured
    /// duration.
    pub open spec fn wf(&self) -> bool {
        &&& self.suspension.paused == !self.enable
        &&& self.suspension.sleep_armed ==> {
            &&& self.run_state == RunState::Sleeping
            &&& self.suspension.sleep_duration.is_some()
            &&& !self.suspension.paused
        }
    }
}

/// A worker as it stands when created or recovered: the enabled flag wins,
/// the pause flag is its negation, and it starts `Running` when enabled and
/// `Paused` otherwise, with no timer and no pending wake.
pub open spec fn initial_service(
    id: i64,
    name: String,
    enable: bool,
    creation_time: String,
    suspension: WorkerManagement,
) -> Service {
    let state = if enable {
        RunState::Running
    } else {
        RunState::Paused
    };
    Service {
        id,
        name,
        enable,
        creation_time,
        run_state: state,
        next_run_state: state,
        suspension: WorkerManagement {
            paused: !enable,
            sleep_duration: suspension.sleep_duration,
            sleep_armed: false,
            wake_pending: false,
        },
    }
}

/// Unpausing: the pause flag drops and a wake notification is fired.
pub open spec fn resumed(s: Service) -> Service {
    Service { suspension: WorkerManagement { paused: false, wake_pending: true, ..s.suspension }, ..s }
}

/// Pausing: the pause flag rises and any outstanding timer is cancelled.
pub open spec fn suspended(s: Service) -> Service {
    Service { suspension: WorkerManagement { paused: true, sleep_armed: false, ..s.suspension }, ..s }
}

/// The worker after `set_enable_state(desired)`.
pub open spec fn toggled(s: Service, desired: bool) -> Service {
    if desired == s.enable {
        s
    } else if desired {
        resumed(Service { enable: true, ..s })
    } else {
        suspended(Service { enable: false, ..s })
    }
}

/// What `set_enable_state(desired)` asks its caller to do.
pub open spec fn toggle_effects(s: Service, desired: bool) -> ToggleEffects {
    if desired == s.enable {
        ToggleEffects { wake: false, abort_sleep: false, persist: false }
    } else {
        ToggleEffects { wake: desired, abort_sleep: !desired && s.suspension.sleep_armed, persist: true }
    }
}

/// The state the next advance moves the worker into.
pub open spec fn upcoming(s: Service) -> RunState {
    next_run_state(s.run_state, s.suspension.paused, s.suspension.sleep_duration.is_some())
}

/// The worker after one advance. A timer from an earlier cycle is over by
/// then; only entering `Sleeping` arms a new one.
pub open spec fn advanced(s: Service) -> Service {
    let n = upcoming(s);
    match n {
        RunState::Running => Service {
            run_state: n,
            next_run_state: n,
            suspension: WorkerManagement { sleep_armed: false, ..s.suspension },
            ..s
        },
        RunState::Paused => Service {
            run_state: n,
            next_run_state: RunState::Running,
            suspension: WorkerManagement { sleep_armed: false, ..s.suspension },
            ..s
        },
        RunState::Sleeping => Service {
            run_state: n,
            next_run_state: RunState::Running,
            suspension: WorkerManagement { sleep_armed: true, ..s.suspension },
            ..s
        },
    }
}

/// What the lifecycle loop does after one advance.
pub open spec fn advance_wait(s: Service) -> Wait {
    match upcoming(s) {
        RunState::Running => Wait::Proceed,
        RunState::Paused => Wait::AwaitWake,
        RunState::Sleeping => Wait::Sleep(s.suspension.sleep_duration.unwrap()),
    }
}

/// The worker once its sleep has ended, by expiry or by cancellation.
pub open spec fn slept(s: Service) -> Service {
    Service { suspension: WorkerManagement { sleep_armed: false, ..s.suspension }, ..s }
}

/// The worker once a pending wake notification has been observed.
pub open spec fn woken(s: Service) -> Service {
    Service { suspension: WorkerManagement { wake_pending: false, ..s.suspension }, ..s }
}

impl Service {
    /// A worker as created or recovered from a stored row.
    pub fn new(
        id: i64,
        name: String,
        enable: bool,
        creation_time: String,
        suspension: WorkerManagement,
    ) -> (r: Self)
        ensures
            r == initial_service(id, name, enable, creation_time, suspension),
            r.wf(),
    {
        let state = if enable {
            RunState::Running
        } else {
            RunState::Paused
        };
        Service {
            id,
            name,
            enable,
            creation_time,
            run_state: state,
            next_run_state: state,
            suspension: WorkerManagement {
                paused: !enable,
                sleep_duration: suspension.sleep_duration,
                sleep_armed: false,
                wake_pending: false,
            },
        }
    }

    /// Lets the worker proceed again and fires the wake notification.
    pub fn begin(&mut self)
        ensures
            *final(self) == resumed(*old(self)),
    {
        self.suspension.paused = false;
        self.suspension.wake_pending = true;
    }

    /// Holds the worker back. Returns whether an outstanding sleep timer has
    /// to be cancelled; its handle is given up here.
    pub fn end(&mut self) -> (abort_sleep: bool)
        ensures
            *final(self) == suspended(*old(self)),
            abort_sleep == old(self).suspension.sleep_armed,
    {
        let abort_sleep = self.suspension.sleep_armed;
        self.suspension.paused = true;
        self.suspension.sleep_armed = false;
        abort_sleep
    }

    /// Sets the enabled flag. Nothing changes when it already has that value;
    /// otherwise the worker is resumed or held back, and the new flag is to
    /// be persisted.
    pub fn set_enable_state(&mut self, state: bool) -> (r: ToggleEffects)
        ensures
            *final(self) == toggled(*old(self), state),
            r == toggle_effects(*old(self), state),
            old(self).wf() ==> final(self).wf(),
    {
        if state == self.enable {
            return ToggleEffects { wake: false, abort_sleep: false, persist: false };
        }
        self.enable = state;
        if state {
            self.begin();
            ToggleEffects { wake: true, abort_sleep: false, persist: true }
        } else {
            let abort_sleep = self.end();
            ToggleEffects { wake: false, abort_sleep, persist: true }
        }
    }

    /// One evaluation of the run-state machine: moves into the next state and
    /// says what the lifecycle loop waits for. Entering `Sleeping` arms the
    /// sleep timer.
    pub fn advance(&mut self) -> (r: Wait)
        ensures
            *final(self) == advanced(*old(self)),
            r == advance_wait(*old(self)),
            old(self).wf() ==> final(self).wf(),
    {
        let n = next_state(self.run_state, self.suspension.paused, self.suspension.has_sleep_duration());
        self.next_run_state = n;
        self.run_state = n;
        self.suspension.sleep_armed = false;
        match n {
            RunState::Running => Wait::Proceed,
            RunState::Paused => {
                self.next_run_state = RunState::Running;
                Wait::AwaitWake
            },
            RunState::Sleeping => {
                self.next_run_state = RunState::Running;
                self.suspension.sleep_armed = true;
                match self.suspension.sleep_duration {
                    Some(d) => Wait::Sleep(d),
                    None => Wait::Proceed,
                }
            },
        }
    }

    /// Records that the sleep timer has ended, by expiry or by cancellation.
    /// Safe to call when no timer is outstanding.
    pub fn finish_sleep(&mut self)
        ensures
            *final(self) == slept(*old(self)),
            old(self).wf() ==> final(self).wf(),
    {
        self.suspension.sleep_armed = false;
    }

    /// Observes the wake notification: returns whether one was pending, and
    /// clears it.
    pub fn take_wake(&mut self) -> (r: bool)
        ensures
            r == old(self).suspension.wake_pending,
            *final(self) == woken(*old(self)),
            old(self).wf() ==> final(self).wf(),
    {
        let r = self.suspension.wake_pending;
        self.suspension.wake_pending = false;
        r
    }
}

/// Setting the same enabled flag twice has the effect of setting it once:
/// the second call changes nothing and asks for no wake, no cancellation
/// and no write to the store.
pub proof fn lemma_set_enable_state_idempotent(s: Service, desired: bool)
    ensures
        toggled(toggled(s, desired), desired) == toggled(s, desired),
        toggle_effects(toggled(s, desired), desired) == (ToggleEffects {
            wake: false,
            abort_sleep: false,
            persist: false,
        }),
{
}

/// Disabling a sleeping worker cancels its timer at once, and the advance
/// that follows the cancelled sleep puts it in `Paused`, waiting for a wake.
pub proof fn lemma_disable_cuts_sleep_short(s: Service)
    requires
        s.wf(),
        s.enable,
        s.run_state == RunState::Sleeping,
        s.suspension.sleep_armed,
    ensures
        toggle_effects(s, false).abort_sleep,
        !toggled(s, false).suspension.sleep_armed,
        advanced(slept(toggled(s, false))).run_state == RunState::Paused,
        advance_wait(slept(toggled(s, false))) == Wait::AwaitWake,
{
}

/// No wake is lost when a disabled worker is enabled around the moment its
/// lifecycle loop starts waiting. Enabled after the advance that made it
/// wait, it finds a wake pending; enabled before that advance, the advance
/// does not make it wait at all.
pub proof fn lemma_no_missed_wakeup(s: Service)
    requires
        s.wf(),
        !s.enable,
    ensures
        advance_wait(s) == Wait::AwaitWake,
        toggled(advanced(s), true).suspension.wake_pending,
        toggle_effects(advanced(s), true).wake,
        advance_wait(toggled(s, true)) != Wait::AwaitWake,
{
}

} // verus!
