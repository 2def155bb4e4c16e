//! Lifecycle of a transaction under one supervisor.

pub mod admission;
pub mod admission_course;
pub mod capacity;
pub mod coordinator;
pub mod coordinator_course;
pub mod coordinator_laws;
pub mod delivery;
pub mod empty_tools;
pub mod event_publisher;
pub mod event_publisher_course;
pub mod event_publisher_laws;
pub mod exchange;
pub mod exchange_direct;
pub mod finalizer;
pub mod ledger;
pub mod loop_dispatch;
pub mod loop_dispatch_course;
pub mod mcp;
pub mod owner;
pub mod owner_course;
pub mod session_identity;
pub mod shared;
pub mod shutdown;
pub mod supervision_course;
pub mod supervisor;
pub mod supervisor_laws;
pub mod supervisor_loop;
pub mod supervisor_trace;
pub mod task_spawner;
pub mod task_supervisor;
pub mod terminal;
pub mod wind_down_course;
