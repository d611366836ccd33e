use vstd::prelude::*;

use crate::run_state::RunState;
use crate::service::{
    advance_wait, advanced, initial_service, slept, toggle_effects, toggled, woken, Service,
    ToggleEffects, Wait,
};
use crate::suspension::WorkerManagement;

verus! {

/// A row of the durable service table.
#[derive(Debug)]
pub struct ServiceRecord {
    pub id: i64,
    pub name: String,
    pub enable: bool,
    pub creation_time: String,
}

/// Why a worker was not registered.
#[derive(Clone, Copy, Debug, PartialEq, Eq, Structural)]
pub enum ServiceError {
    /// A worker of that name is already registered.
    DuplicateName,
    /// The store refused to insert the new row.
    InsertFailed,
    /// The row just inserted could not be read back.
    RecordMissing,
    /// The store answered a lookup with a row of another name.
    WrongRecord,
}

/// The store request a creation waits on.
#[derive(Clone, Copy, Debug, PartialEq, Eq, Structural)]
pub enum Creation {
    /// Look the name up.
    Lookup,
    /// Insert a row for the name with the requested enabled flag.
    Insert,
    /// Read back the row just inserted.
    LookupAfterInsert,
}

/// The store's answer to the pending request.
#[derive(Debug)]
pub enum StoreReply {
    Found(ServiceRecord),
    NotFound,
    Inserted,
    Failed,
}

/// Where a creation stands after one step.
#[derive(Clone, Copy, Debug, PartialEq, Eq, Structural)]
pub enum CreationStep {
    /// Make this store request and hand its reply to `continue_creation`.
    Ask(Creation),
    /// The worker is registered at this index; its task may start.
    Registered(usize),
    /// The creation is over and nothing was registered.
    Rejected(ServiceError),
}

/// Whether some worker in `s` is named `name`.
pub open spec fn has_name(s: Seq<Service>, name: Seq<char>) -> bool {
    exists|i: int| 0 <= i < s.len() && (#[trigger] s[i]).name@ == name
}

/// `i` is the first position in `s` of a worker named `name`.
pub open spec fn first_named(s: Seq<Service>, name: Seq<char>, i: int) -> bool {
    &&& 0 <= i < s.len()
    &&& s[i].name@ == name
    &&& forall|j: int| 0 <= j < i ==> (#[trigger] s[j]).name@ != name
}

/// No two workers share a name.
pub open spec fn names_unique(s: Seq<Service>) -> bool {
    forall|i: int, j: int|
        0 <= i < s.len() && 0 <= j < s.len() && i != j ==> (#[trigger] s[i]).name@ != (#[trigger] s[j]).name@
}

/// The worker built from a stored row: the stored flag wins.
pub open spec fn recovered(r: ServiceRecord, suspension: WorkerManagement) -> Service {
    initial_service(r.id, r.name, r.enable, r.creation_time, suspension)
}

/// The step that answers `reply` to `pending` in the creation of a worker
/// named `name`, on a registry holding `s`.
pub open spec fn creation_step(
    s: Seq<Service>,
    name: Seq<char>,
    pending: Creation,
    reply: StoreReply,
) -> CreationStep {
    match (pending, reply) {
        (Creation::Insert, StoreReply::Inserted) => CreationStep::Ask(Creation::LookupAfterInsert),
        (Creation::Insert, _) => CreationStep::Rejected(ServiceError::InsertFailed),
        (_, StoreReply::Found(r)) => if r.name@ != name {
            CreationStep::Rejected(ServiceError::WrongRecord)
        } else if has_name(s, r.name@) {
            CreationStep::Rejected(ServiceError::DuplicateName)
        } else {
            CreationStep::Registered(s.len() as usize)
        },
        (Creation::Lookup, _) => CreationStep::Ask(Creation::Insert),
        (Creation::LookupAfterInsert, _) => CreationStep::Rejected(ServiceError::RecordMissing),
    }
}

/// The workers registered after that step.
pub open spec fn after_creation_step(
    s: Seq<Service>,
    name: Seq<char>,
    pending: Creation,
    reply: StoreReply,
    suspension: WorkerManagement,
) -> Seq<Service> {
    match (creation_step(s, name, pending, reply), reply) {
        (CreationStep::Registered(_), StoreReply::Found(r)) => s.push(recovered(r, suspension)),
        _ => s,
    }
}

/// Whether the characters of `a` and `b` are the same.
pub fn same_text(a: &str, b: &str) -> (r: bool)
    ensures
        r == (a@ == b@),
{
    let n = a.unicode_len();
    if n != b.unicode_len() {
        return false;
    }
    let mut i: usize = 0;
    while i < n
        invariant
            n == a@.len(),
            n == b@.len(),
            i <= n,
            forall|k: int| 0 <= k < i ==> a@[k] == b@[k],
        decreases n - i,
    {
        if a.get_char(i) != b.get_char(i) {
            return false;
        }
        i = i + 1;
    }
    assert(a@ =~= b@);
    true
}

/// The registered workers.
pub struct Services {
    pub services: Vec<Service>,
}

impl Default for Services {
    /// An empty registry.
    fn default() -> (r: Self)
        ensures
            r.services@.len() == 0,
    {
        Services::new()
    }
}

impl Services {
    /// Names are unique and every worker is well formed.
    pub open spec fn wf(&self) -> bool {
        &&& names_unique(self.services@)
        &&& forall|i: int| 0 <= i < self.services@.len() ==> (#[trigger] self.services@[i]).wf()
    }

    /// An empty registry.
    pub fn new() -> (r: Self)
        ensures
            r.services@.len() == 0,
            r.wf(),
    {
        Services { services: Vec::new() }
    }

    /// The position of the worker named `name`, if one is registered.
    pub fn get_service(&self, name: &str) -> (r: Option<usize>)
        ensures
            r.is_none() <==> !has_name(self.services@, name@),
            r matches Some(i) ==> first_named(self.services@, name@, i as int),
    {
        let mut i: usize = 0;
        while i < self.services.len()
            invariant
                i <= self.services@.len(),
                forall|j: int| 0 <= j < i ==> (#[trigger] self.services@[j]).name@ != name@,
            decreases self.services@.len() - i,
        {
            if same_text(self.services[i].name.as_str(), name) {
                return Some(i);
            }
            i = i + 1;
        }
        None
    }

    /// Starts the creation of a worker named `name`: refused when one of
    /// that name is registered, otherwise the store is asked for its row.
    pub fn create_service(&self, name: &str) -> (r: CreationStep)
        ensures
            r == creation_start(self.services@, name@),
    {
        match self.get_service(name) {
            Some(_) => CreationStep::Rejected(ServiceError::DuplicateName),
            None => CreationStep::Ask(Creation::Lookup),
        }
    }

    /// Takes the store's reply to the pending request of the creation of a
    /// worker named `name` one step further. A row found by that name is
    /// recovered: its stored flag wins over the requested one. A name not
    /// found (or a failed lookup) is inserted; a failed insert, an inserted
    /// row that cannot be read back, or a row of another name ends the
    /// creation with nothing registered.
    pub fn continue_creation(
        &mut self,
        name: &str,
        suspension: WorkerManagement,
        pending: Creation,
        reply: StoreReply,
    ) -> (r: CreationStep)
        ensures
            r == creation_step(old(self).services@, name@, pending, reply),
            final(self).services@ == after_creation_step(old(self).services@, name@, pending, reply, suspension),
            r matches CreationStep::Registered(i) ==> final(self).services@[i as int].name@ == name@,
            old(self).wf() ==> final(self).wf(),
    {
        match (pending, reply) {
            (Creation::Insert, StoreReply::Inserted) => CreationStep::Ask(Creation::LookupAfterInsert),
            (Creation::Insert, _) => CreationStep::Rejected(ServiceError::InsertFailed),
            (_, StoreReply::Found(record)) => {
                if !same_text(record.name.as_str(), name) {
                    return CreationStep::Rejected(ServiceError::WrongRecord);
                }
                if self.get_service(record.name.as_str()).is_some() {
                    return CreationStep::Rejected(ServiceError::DuplicateName);
                }
                let index = self.services.len();
                let service = Service::new(
                    record.id,
                    record.name,
                    record.enable,
                    record.creation_time,
                    suspension,
                );
                self.services.push(service);
                CreationStep::Registered(index)
            },
            (Creation::Lookup, _) => CreationStep::Ask(Creation::Insert),
            (Creation::LookupAfterInsert, _) => CreationStep::Rejected(ServiceError::RecordMissing),
        }
    }

    /// One advance of the worker named `name`; nothing happens when no
    /// worker has that name.
    pub fn advance(&mut self, name: &str) -> (r: Option<Wait>)
        ensures
            r.is_none() <==> !has_name(old(self).services@, name@),
            r.is_none() ==> final(self).services@ == old(self).services@,
            r matches Some(w) ==> exists|i: int|
                #[trigger] first_named(old(self).services@, name@, i)
                && w == advance_wait(old(self).services@[i])
                && final(self).services@ == old(self).services@.update(i, advanced(old(self).services@[i])),
            old(self).wf() ==> final(self).wf(),
    {
        match self.get_service(name) {
            None => None,
            Some(i) => {
                let w = self.services[i].advance();
                assert(first_named(old(self).services@, name@, i as int));
                Some(w)
            },
        }
    }

    /// Sets the enabled flag of the worker named `name`; nothing happens when
    /// no worker has that name.
    pub fn set_enable_state(&mut self, name: &str, state: bool) -> (r: Option<ToggleEffects>)
        ensures
            r.is_none() <==> !has_name(old(self).services@, name@),
            r.is_none() ==> final(self).services@ == old(self).services@,
            r matches Some(e) ==> exists|i: int|
                #[trigger] first_named(old(self).services@, name@, i)
                && e == toggle_effects(old(self).services@[i], state)
                && final(self).services@ == old(self).services@.update(i, toggled(old(self).services@[i], state)),
            old(self).wf() ==> final(self).wf(),
    {
        match self.get_service(name) {
            None => None,
            Some(i) => {
                let e = self.services[i].set_enable_state(state);
                assert(first_named(old(self).services@, name@, i as int));
                Some(e)
            },
        }
    }

    /// Records that the sleep timer of the worker named `name` has ended.
    /// Returns whether such a worker is registered.
    pub fn finish_sleep(&mut self, name: &str) -> (r: bool)
        ensures
            r == has_name(old(self).services@, name@),
            !r ==> final(self).services@ == old(self).services@,
            r ==> exists|i: int|
                #[trigger] first_named(old(self).services@, name@, i)
                && final(self).services@ == old(self).services@.update(i, slept(old(self).services@[i])),
            old(self).wf() ==> final(self).wf(),
    {
        match self.get_service(name) {
            None => false,
            Some(i) => {
                self.services[i].finish_sleep();
                assert(first_named(old(self).services@, name@, i as int));
                true
            },
        }
    }

    /// Observes the wake notification of the worker named `name`: whether one
    /// was pending, which is then cleared.
    pub fn take_wake(&mut self, name: &str) -> (r: Option<bool>)
        ensures
            r.is_none() <==> !has_name(old(self).services@, name@),
            r.is_none() ==> final(self).services@ == old(self).services@,
            r matches Some(b) ==> exists|i: int|
                #[trigger] first_named(old(self).services@, name@, i)
                && b == old(self).services@[i].suspension.wake_pending
                && final(self).services@ == old(self).services@.update(i, woken(old(self).services@[i])),
            old(self).wf() ==> final(self).wf(),
    {
        match self.get_service(name) {
            None => None,
            Some(i) => {
                let b = self.services[i].take_wake();
                assert(first_named(old(self).services@, name@, i as int));
                Some(b)
            },
        }
    }
}

/// The first step of a creation on a registry holding `s`.
pub open spec fn creation_start(s: Seq<Service>, name: Seq<char>) -> CreationStep {
    if has_name(s, name) {
        CreationStep::Rejected(ServiceError::DuplicateName)
    } else {
        CreationStep::Ask(Creation::Lookup)
    }
}

/// A worker stored disabled comes back disabled after a restart: on a fresh
/// registry, the row found by name is recovered without asking for an
/// insert, and the worker starts out disabled, paused and `Paused`.
pub proof fn lemma_recovery_keeps_disabled(
    name: Seq<char>,
    r: ServiceRecord,
    suspension: WorkerManagement,
)
    requires
        r.name@ == name,
        !r.enable,
    ensures
        creation_start(Seq::<Service>::empty(), name) == CreationStep::Ask(Creation::Lookup),
        creation_step(Seq::<Service>::empty(), name, Creation::Lookup, StoreReply::Found(r))
            == CreationStep::Registered(0),
        after_creation_step(Seq::<Service>::empty(), name, Creation::Lookup, StoreReply::Found(r), suspension)
            == seq![recovered(r, suspension)],
        !recovered(r, suspension).enable,
        recovered(r, suspension).suspension.paused,
        recovered(r, suspension).run_state == RunState::Paused,
{
}

/// Creating a name twice registers it once: once a worker named `name` is
/// registered, a new creation of that name is refused at its first step, a
/// row of that name handed to a later step is refused too, the registry
/// is left as it was, and exactly one worker carries the name.
pub proof fn lemma_duplicate_creation_refused(
    s: Seq<Service>,
    name: Seq<char>,
    r: ServiceRecord,
    again: ServiceRecord,
    pending: Creation,
    suspension: WorkerManagement,
)
    requires
        names_unique(s),
        r.name@ == name,
        again.name@ == name,
        pending != Creation::Insert,
        creation_step(s, name, Creation::Lookup, StoreReply::Found(r)) is Registered,
    ensures
        ({
            let t = after_creation_step(s, name, Creation::Lookup, StoreReply::Found(r), suspension);
            &&& names_unique(t)
            &&& has_name(t, name)
            &&& forall|i: int, j: int|
                0 <= i < t.len() && 0 <= j < t.len() && #[trigger] t[i].name@ == name && #[trigger] t[j].name@
                    == name ==> i == j
            &&& creation_start(t, name) == CreationStep::Rejected(ServiceError::DuplicateName)
            &&& creation_step(t, name, pending, StoreReply::Found(again)) == CreationStep::Rejected(
                ServiceError::DuplicateName,
            )
            &&& after_creation_step(t, name, pending, StoreReply::Found(again), suspension) == t
        }),
{
    let t = after_creation_step(s, name, Creation::Lookup, StoreReply::Found(r), suspension);
    assert(t[s.len() as int] == recovered(r, suspension));
    assert(has_name(t, name));
}

} // verus!
