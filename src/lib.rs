//! Host for named, long-lived periodic workers whose enabled state is
//! durable and can be toggled at runtime.
//!
//! Each worker moves through a run-state machine (`Paused`, `Running`,
//! `Sleeping`); one advance of it tells the worker's lifecycle loop whether
//! to proceed, to wait for a wake notification, or to sleep. Toggling a
//! worker says which wake, timer cancellation and store write its caller
//! has to carry out. The registry creates and recovers workers step by step
//! against a durable store, and keeps their names unique.
pub mod menu;
pub mod price;
pub mod run_state;
pub mod service;
pub mod services;
pub mod suspension;

pub use menu::{choice_from_groups, parse_choice, service_label, ServiceChoice};
pub use price::{price_number, price_text, strip_leading};
pub use run_state::{next_state, RunState};
pub use service::{Service, ToggleEffects, Wait};
pub use services::{same_text, Creation, CreationStep, ServiceError, ServiceRecord, Services, StoreReply};
pub use suspension::WorkerManagement;
