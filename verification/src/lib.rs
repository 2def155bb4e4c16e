//! Verified core of an agent-loop runtime.
//!
//! Every decision the runtime takes is a function from state and event to
//! next state and action, with a contract that says exactly what it decides.
#![allow(unused_imports)]

use vstd::prelude::*;

pub mod assoc;
pub mod contracts;
pub mod identity;
pub mod json;
pub mod messages;
pub mod registry;
pub mod runtime;
pub mod runtime_course;
pub mod runtime_laws;
pub mod subscription;
pub mod text;
pub mod tools;
pub mod transaction;

verus! {

} // verus!
