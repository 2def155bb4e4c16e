//! Transactions: admission, exchange, tools, events, finalization.

pub mod acp_encoder;
pub mod active_registry;
pub mod actor;
pub mod actor_claim;
pub mod actor_course;
pub mod actor_end;
pub mod actor_laws;
pub mod admission;
pub mod admission_laws;
pub mod bootstrap;
pub mod callback_service;
pub mod capacity;
pub mod channel_registry;
pub mod dispatcher;
pub mod dispatcher_laws;
pub mod encoding;
pub mod error;
pub mod events;
pub mod exchange;
pub mod exchange_course;
pub mod executor_spawn;
pub mod fake_support;
pub mod finalization;
pub mod host_tools;
pub mod lifecycle;
pub mod limits;
pub mod service_laws;
pub mod transcript;
pub mod types;
