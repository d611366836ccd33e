use purchase_bot::{
    next_state, Creation, CreationStep, RunState, Service, ServiceError, ServiceRecord, Services,
    StoreReply, ToggleEffects, Wait, WorkerManagement,
};

fn record(id: i64, name: &str, enable: bool) -> ServiceRecord {
    ServiceRecord {
        id,
        name: name.to_string(),
        enable,
        creation_time: "2024-01-01 00:00:00".to_string(),
    }
}

fn service(enable: bool, sleep: Option<u64>) -> Service {
    Service::new(
        1,
        "x".to_string(),
        enable,
        "2024-01-01 00:00:00".to_string(),
        WorkerManagement::new(false, sleep),
    )
}

/// Runs a whole creation against a store that holds `stored`.
fn create(
    services: &mut Services,
    name: &str,
    enable: bool,
    suspension: WorkerManagement,
    stored: &mut Vec<ServiceRecord>,
    inserts: &mut usize,
) -> CreationStep {
    let mut step = services.create_service(name);
    loop {
        let reply = match step {
            CreationStep::Ask(Creation::Lookup) | CreationStep::Ask(Creation::LookupAfterInsert) => {
                match stored.iter().find(|r| r.name == name) {
                    Some(r) => StoreReply::Found(record(r.id, &r.name, r.enable)),
                    None => StoreReply::NotFound,
                }
            }
            CreationStep::Ask(Creation::Insert) => {
                *inserts += 1;
                stored.push(record(stored.len() as i64 + 1, name, enable));
                StoreReply::Inserted
            }
            done => return done,
        };
        let pending = match step {
            CreationStep::Ask(p) => p,
            _ => unreachable!(),
        };
        step = services.continue_creation(name, suspension, pending, reply);
    }
}

#[test]
fn transition_table_matches() {
    let (paused, running, sleeping) = (RunState::Paused, RunState::Running, RunState::Sleeping);
    for sleep in [false, true] {
        assert_eq!(next_state(running, true, sleep), paused);
        assert_eq!(next_state(paused, true, sleep), paused);
        assert_eq!(next_state(paused, false, sleep), running);
        assert_eq!(next_state(sleeping, true, sleep), paused);
        assert_eq!(next_state(sleeping, false, sleep), running);
    }
    assert_eq!(next_state(running, false, true), sleeping);
    assert_eq!(next_state(running, false, false), running);
}

#[test]
fn new_worker_starts_from_its_flag() {
    let on = service(true, Some(5));
    assert_eq!(on.run_state, RunState::Running);
    assert!(!on.suspension.paused);
    let off = service(false, Some(5));
    assert_eq!(off.run_state, RunState::Paused);
    assert_eq!(off.next_run_state, RunState::Paused);
    assert!(off.suspension.paused);
    assert!(!off.suspension.sleep_armed);
    assert!(!off.suspension.wake_pending);
    assert_eq!(off.suspension.sleep_duration, Some(5));
}

#[test]
fn worker_management_reports_sleep_duration() {
    let m = WorkerManagement::new(true, Some(250));
    assert!(m.paused);
    assert!(m.has_sleep_duration());
    assert!(!WorkerManagement::new(false, None).has_sleep_duration());
}

#[test]
fn running_without_sleep_proceeds_every_time() {
    let mut s = service(true, None);
    assert_eq!(s.advance(), Wait::Proceed);
    assert_eq!(s.advance(), Wait::Proceed);
    assert_eq!(s.run_state, RunState::Running);
}

#[test]
fn enabling_twice_acts_once() {
    let mut s = service(false, Some(10));
    let first = s.set_enable_state(true);
    assert_eq!(first, ToggleEffects { wake: true, abort_sleep: false, persist: true });
    assert!(s.enable);
    assert!(!s.suspension.paused);
    let second = s.set_enable_state(true);
    assert_eq!(second, ToggleEffects { wake: false, abort_sleep: false, persist: false });
    assert!(s.enable);
    assert!(!s.suspension.paused);
}

#[test]
fn disabling_a_sleeping_worker_cancels_its_timer() {
    let mut s = service(true, Some(2000));
    assert_eq!(s.advance(), Wait::Sleep(2000));
    assert_eq!(s.run_state, RunState::Sleeping);
    assert!(s.suspension.sleep_armed);
    let effects = s.set_enable_state(false);
    assert_eq!(effects, ToggleEffects { wake: false, abort_sleep: true, persist: true });
    assert!(!s.suspension.sleep_armed);
    s.finish_sleep();
    assert_eq!(s.advance(), Wait::AwaitWake);
    assert_eq!(s.run_state, RunState::Paused);
    assert_eq!(s.next_run_state, RunState::Running);
}

#[test]
fn wake_after_wait_began_is_pending() {
    let mut s = service(false, Some(10));
    assert_eq!(s.advance(), Wait::AwaitWake);
    let effects = s.set_enable_state(true);
    assert!(effects.wake);
    assert!(s.take_wake());
    assert!(!s.take_wake());
    assert_eq!(s.advance(), Wait::Proceed);
    assert_eq!(s.advance(), Wait::Sleep(10));
}

#[test]
fn wake_while_waiting_is_observed() {
    let mut services = Services::default();
    let record = ServiceRecord {
        id: 9,
        name: "w".to_string(),
        enable: false,
        creation_time: String::new(),
    };
    services.continue_creation("w", WorkerManagement::new(false, None), Creation::Lookup, StoreReply::Found(record));
    assert_eq!(services.advance("w"), Some(Wait::AwaitWake));
    assert_eq!(services.take_wake("w"), Some(false));
    let effects = services.set_enable_state("w", true).unwrap();
    assert!(effects.wake);
    assert_eq!(services.take_wake("w"), Some(true));
    assert_eq!(services.advance("w"), Some(Wait::Proceed));
}

#[test]
fn wake_before_wait_began_skips_the_wait() {
    let mut s = service(false, None);
    s.set_enable_state(true);
    assert_eq!(s.advance(), Wait::Proceed);
    assert_eq!(s.run_state, RunState::Running);
}

#[test]
fn recovery_keeps_a_disabled_worker_paused() {
    let mut stored = Vec::new();
    let mut inserts = 0;
    let mut first_run = Services::new();
    let step = create(&mut first_run, "x", false, WorkerManagement::new(true, Some(10)), &mut stored, &mut inserts);
    assert_eq!(step, CreationStep::Registered(0));
    assert_eq!(inserts, 1);

    let mut second_run = Services::new();
    let step = create(&mut second_run, "x", true, WorkerManagement::new(false, Some(10)), &mut stored, &mut inserts);
    assert_eq!(step, CreationStep::Registered(0));
    assert_eq!(inserts, 1);
    assert_eq!(stored.len(), 1);
    let w = &second_run.services[0];
    assert!(!w.enable);
    assert!(w.suspension.paused);
    assert_eq!(w.run_state, RunState::Paused);
    assert_eq!(w.id, 1);
}

#[test]
fn duplicate_name_is_refused() {
    let mut stored = Vec::new();
    let mut inserts = 0;
    let mut services = Services::new();
    let m = WorkerManagement::new(false, Some(10));
    assert_eq!(create(&mut services, "x", true, m, &mut stored, &mut inserts), CreationStep::Registered(0));
    assert_eq!(
        create(&mut services, "x", true, m, &mut stored, &mut inserts),
        CreationStep::Rejected(ServiceError::DuplicateName)
    );
    assert_eq!(services.services.len(), 1);
    assert_eq!(inserts, 1);
    let late = services.continue_creation("x", m, Creation::Lookup, StoreReply::Found(record(1, "x", true)));
    assert_eq!(late, CreationStep::Rejected(ServiceError::DuplicateName));
    assert_eq!(services.services.len(), 1);
}

#[test]
fn failed_insert_registers_nothing() {
    let mut services = Services::new();
    let m = WorkerManagement::new(false, None);
    assert_eq!(services.create_service("y"), CreationStep::Ask(Creation::Lookup));
    let step = services.continue_creation("y", m, Creation::Lookup, StoreReply::NotFound);
    assert_eq!(step, CreationStep::Ask(Creation::Insert));
    let step = services.continue_creation("y", m, Creation::Insert, StoreReply::Failed);
    assert_eq!(step, CreationStep::Rejected(ServiceError::InsertFailed));
    assert!(services.services.is_empty());
}

#[test]
fn unreadable_inserted_row_registers_nothing() {
    let mut services = Services::new();
    let m = WorkerManagement::new(false, None);
    let step = services.continue_creation("y", m, Creation::Lookup, StoreReply::Failed);
    assert_eq!(step, CreationStep::Ask(Creation::Insert));
    let step = services.continue_creation("y", m, Creation::Insert, StoreReply::Inserted);
    assert_eq!(step, CreationStep::Ask(Creation::LookupAfterInsert));
    let step = services.continue_creation("y", m, Creation::LookupAfterInsert, StoreReply::NotFound);
    assert_eq!(step, CreationStep::Rejected(ServiceError::RecordMissing));
    assert!(services.services.is_empty());
}

#[test]
fn lookup_by_name() {
    let mut services = Services::new();
    let m = WorkerManagement::new(false, None);
    services.continue_creation("a", m, Creation::Lookup, StoreReply::Found(record(3, "a", true)));
    services.continue_creation("b", m, Creation::Lookup, StoreReply::Found(record(4, "b", false)));
    assert_eq!(services.get_service("b"), Some(1));
    assert_eq!(services.get_service("a"), Some(0));
    assert_eq!(services.get_service("c"), None);
    assert_eq!(services.advance("c"), None);
    assert_eq!(services.set_enable_state("c", true), None);
    assert!(!services.finish_sleep("c"));
    assert_eq!(services.take_wake("c"), None);
}

#[test]
fn price_check_scenario() {
    let mut stored = Vec::new();
    let mut inserts = 0;
    let mut services = Services::new();
    let m = WorkerManagement::new(false, Some(2000));
    let step = create(&mut services, "price-check", true, m, &mut stored, &mut inserts);
    assert_eq!(step, CreationStep::Registered(0));
    assert_eq!(services.advance("price-check"), Some(Wait::Sleep(2000)));
    assert_eq!(services.services[0].run_state, RunState::Sleeping);
    assert!(services.finish_sleep("price-check"));
    assert_eq!(services.advance("price-check"), Some(Wait::Proceed));
    assert_eq!(services.services[0].run_state, RunState::Running);

    assert_eq!(services.advance("price-check"), Some(Wait::Sleep(2000)));
    let effects = services.set_enable_state("price-check", false).unwrap();
    assert!(effects.abort_sleep);
    assert!(effects.persist);
    assert!(services.finish_sleep("price-check"));
    assert_eq!(services.advance("price-check"), Some(Wait::AwaitWake));
    assert_eq!(services.services[0].run_state, RunState::Paused);

    let effects = services.set_enable_state("price-check", true).unwrap();
    assert!(effects.wake);
    assert_eq!(services.take_wake("price-check"), Some(true));
    assert_eq!(services.advance("price-check"), Some(Wait::Proceed));
}

#[test]
fn row_of_another_name_registers_nothing() {
    let mut services = Services::new();
    let m = WorkerManagement::new(false, None);
    let step = services.continue_creation("y", m, Creation::Lookup, StoreReply::Found(record(5, "z", true)));
    assert_eq!(step, CreationStep::Rejected(ServiceError::WrongRecord));
    let step = services.continue_creation("y", m, Creation::LookupAfterInsert, StoreReply::Found(record(5, "z", true)));
    assert_eq!(step, CreationStep::Rejected(ServiceError::WrongRecord));
    assert!(services.services.is_empty());
}
