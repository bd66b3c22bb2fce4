//! Selene: a quantum-program emulator framework.
//!
//! A user program issues quantum operations; the framework drives them through
//! three backend components — a runtime (scheduler), an error model (noise
//! injection), and a simulator (state evolution) — and returns measurement
//! results, possibly after deferred (lazy) resolution through future handles.

use vstd::prelude::*;

pub mod batch_result;
pub mod config;
pub mod conformance;
pub mod emulator;
pub mod encoder;
pub mod error_model;
pub mod error_model_depolarizing;
pub mod error_model_ideal;
pub mod error_model_leakage;
pub mod errors;
pub mod event_hooks;
pub mod ffi_results;
pub mod foreign_drain;
pub mod future_store;
pub mod instruction_log;
pub mod laws;
pub mod loader;
pub mod measurement_log;
pub mod metrics;
pub mod ops;
pub mod rng;
pub mod runtime;
pub mod runtime_lazy;
pub mod runtime_simple;
pub mod sim_classical_replay;
pub mod sim_coinflip;
pub mod sim_quantum_replay;
pub mod simulator;
pub mod utils;
pub mod version;

verus! {

} // verus!
