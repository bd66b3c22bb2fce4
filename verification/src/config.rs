//! The configuration an emulation instance is constructed from. The host
//! shell loads it from whatever source it supports and hands it in as plain
//! values; per-shot seeds for each component derive from the configured base
//! seed and the shot id.

use vstd::prelude::*;

verus! {

/// One backend component: where its library lives, its base seed, and its
/// argument vector.
#[derive(Debug, Clone, PartialEq)]
pub struct PluginConfig {
    pub name: String,
    pub seed: u64,
    pub file: String,
    pub args: Vec<String>,
}

/// Which event hooks the instance records.
#[derive(Debug, Clone, Copy, PartialEq, Eq, Structural)]
pub struct EventHookConfig {
    pub provide_instruction_log: bool,
    pub provide_metrics: bool,
    pub provide_measurement_log: bool,
}

/// The range of shots to run: `count` shots with ids starting at `offset`
/// and stepping by `increment`.
#[derive(Debug, Clone, Copy, PartialEq, Eq, Structural)]
pub struct ShotConfig {
    pub count: u64,
    pub offset: u64,
    pub increment: u64,
}

impl ShotConfig {
    /// The internal shot id of the `shot_index`-th shot run.
    pub open spec fn shot_id_spec(self, shot_index: u64) -> int {
        self.offset + self.increment * shot_index
    }

    /// Compute the internal shot id of the `shot_index`-th shot run.
    pub fn shot_id(&self, shot_index: u64) -> (r: u64)
        requires
            self.shot_id_spec(shot_index) <= u64::MAX,
        ensures
            r == self.shot_id_spec(shot_index),
    {
        self.offset + self.increment * shot_index
    }
}

/// Everything an emulation instance is built from.
#[derive(Debug, Clone, PartialEq)]
pub struct Configuration {
    pub n_qubits: u64,
    pub output_stream: String,
    pub artifact_dir: String,
    pub simulator: PluginConfig,
    pub error_model: PluginConfig,
    pub runtime: PluginConfig,
    pub event_hooks: EventHookConfig,
    pub shots: ShotConfig,
}

impl Configuration {
    /// The three per-shot seeds of one shot: each component's base seed plus
    /// the shot id, wrapping at the integer boundary.
    pub fn shot_seeds(&self, shot_id: u64) -> (r: (u64, u64, u64))
        ensures
            r.0 == (self.runtime.seed + shot_id) % 0x10000000000000000,
            r.1 == (self.error_model.seed + shot_id) % 0x10000000000000000,
            r.2 == (self.simulator.seed + shot_id) % 0x10000000000000000,
    {
        (
            self.runtime.seed.wrapping_add(shot_id),
            self.error_model.seed.wrapping_add(shot_id),
            self.simulator.seed.wrapping_add(shot_id),
        )
    }
}

} // verus!
