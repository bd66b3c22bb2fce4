//! The reference runtimes, simulators, and error models, exercised directly
//! through their capability contracts.

use selene::batch_result::BatchResult;
use selene::conformance::PopulationResult;
use selene::config::{Configuration, EventHookConfig, PluginConfig, ShotConfig};
use selene::error_model::ErrorModelInterface;
use selene::error_model_depolarizing::DepolarizingErrorModelFactory;
use selene::error_model_leakage::SimpleLeakageErrorModelFactory;
use selene::errors::EmuError;
use selene::event_hooks::UserEvent;
use selene::ffi_results::{BoolResult, FutureResult, U32Result, U64Result, VoidResult};
use selene::metrics::HighLevelMetrics;
use selene::ops::{BatchOperation, Operation};
use selene::runtime::RuntimeInterface;
use selene::runtime_lazy::LazyRuntimeFactory;
use selene::runtime_simple::SimpleRuntimeFactory;
use selene::sim_classical_replay::ClassicalReplaySimulatorFactory;
use selene::sim_coinflip::CoinflipSimulatorFactory;
use selene::sim_quantum_replay::QuantumReplaySimulatorFactory;
use selene::simulator::{twin_rxy_via_decomposition, SimulatorInterface};
use selene::utils::MetricValue;

#[test]
fn simple_runtime_queues_each_call_as_one_batch() {
    let mut rt = SimpleRuntimeFactory::init(2, 0);
    assert_eq!(rt.qalloc(), Ok(0));
    assert_eq!(rt.qalloc(), Ok(1));
    assert_eq!(rt.qalloc(), Ok(u64::MAX)); // exhausted, not an error
    rt.rxy_gate(0, 11, 22).unwrap();
    let h = rt.measure(1).unwrap();
    assert_eq!(h, 0);
    let first = rt.get_next_operations().unwrap().unwrap();
    assert_eq!(first.ops, vec![Operation::RXYGate { qubit_id: 0, theta: 11, phi: 22 }]);
    assert!(!first.ops.is_empty()); // a returned batch is never empty
    let second = rt.get_next_operations().unwrap().unwrap();
    assert_eq!(second.ops, vec![Operation::Measure { qubit_id: 1, result_id: 0 }]);
    assert!(rt.get_next_operations().unwrap().is_none()); // nothing now is no batch
}

#[test]
fn simple_runtime_rejects_bad_calls() {
    let mut rt = SimpleRuntimeFactory::init(1, 0);
    assert_eq!(rt.qfree(4), Err(EmuError::QubitOutOfBounds));
    assert_eq!(rt.rxy_gate(0, 0, 0), Err(EmuError::QubitNotActive));
    assert_eq!(rt.measure(9), Err(EmuError::QubitOutOfBounds));
    assert_eq!(rt.get_bool_result(0), Err(EmuError::InvalidResultHandle));
}

#[test]
fn simple_runtime_shot_end_resets_everything() {
    let mut rt = SimpleRuntimeFactory::init(2, 0);
    rt.qalloc().unwrap();
    rt.qalloc().unwrap();
    let h = rt.measure(0).unwrap();
    rt.set_bool_result(h, true).unwrap();
    rt.shot_end().unwrap();
    // Queues, futures and allocations are all gone.
    assert!(rt.get_next_operations().unwrap().is_none());
    assert_eq!(rt.get_bool_result(h), Err(EmuError::InvalidResultHandle));
    assert_eq!(rt.qalloc(), Ok(0));
}

#[test]
fn simple_runtime_result_write_back_is_at_most_once() {
    let mut rt = SimpleRuntimeFactory::init(1, 0);
    rt.qalloc().unwrap();
    let h = rt.measure(0).unwrap();
    assert_eq!(rt.get_bool_result(h), Ok(None)); // not yet available
    rt.set_bool_result(h, true).unwrap();
    assert_eq!(rt.get_bool_result(h), Ok(Some(true)));
    assert_eq!(rt.set_bool_result(h, false), Err(EmuError::ContractViolation));
    assert_eq!(rt.get_u64_result(h), Ok(Some(1)));
}

#[test]
fn lazy_runtime_holds_operations_until_a_barrier() {
    let mut rt = LazyRuntimeFactory::init(2, 0);
    rt.qalloc().unwrap();
    rt.qalloc().unwrap();
    rt.rxy_gate(0, 1, 2).unwrap();
    rt.rzz_gate(0, 1, 3).unwrap();
    assert!(rt.get_next_operations().unwrap().is_none()); // nothing flushed yet
    rt.global_barrier(0).unwrap();
    assert!(rt.get_next_operations().unwrap().is_some());
    assert!(rt.get_next_operations().unwrap().is_some());
    assert!(rt.get_next_operations().unwrap().is_none());
}

#[test]
fn lazy_runtime_local_barrier_flushes_through_the_last_use() {
    let mut rt = LazyRuntimeFactory::init(3, 0);
    rt.qalloc().unwrap();
    rt.qalloc().unwrap();
    rt.qalloc().unwrap();
    rt.rxy_gate(0, 1, 2).unwrap();
    rt.rxy_gate(1, 1, 2).unwrap();
    rt.rxy_gate(2, 1, 2).unwrap();
    rt.local_barrier(&vec![1], 0).unwrap();
    // Everything up to and including the last use of qubit 1 flushes.
    assert!(rt.get_next_operations().unwrap().is_some());
    assert!(rt.get_next_operations().unwrap().is_some());
    assert!(rt.get_next_operations().unwrap().is_none());
}

#[test]
fn lazy_runtime_forcing_a_result_flushes_its_measurement() {
    let mut rt = LazyRuntimeFactory::init(1, 0);
    rt.qalloc().unwrap();
    rt.rxy_gate(0, 1, 2).unwrap();
    let h = rt.measure(0).unwrap();
    assert!(rt.get_next_operations().unwrap().is_none());
    rt.force_result(h).unwrap();
    assert!(rt.get_next_operations().unwrap().is_some()); // the rotation
    assert!(rt.get_next_operations().unwrap().is_some()); // the measurement
    assert!(rt.get_next_operations().unwrap().is_none());
}

#[test]
fn lazy_runtime_rejects_unknown_forced_handles() {
    let mut rt = LazyRuntimeFactory::init(1, 0);
    rt.qalloc().unwrap();
    assert_eq!(rt.force_result(0), Err(EmuError::InvalidResultHandle));
    let h = rt.measure(0).unwrap();
    rt.force_result(h).unwrap();
    assert!(rt.get_next_operations().unwrap().is_some());
    // Once the measurement has drained out of the queue, no queued
    // measurement carries the handle any more, so forcing fails — even
    // after the result is written back.
    rt.set_bool_result(h, true).unwrap();
    assert_eq!(rt.force_result(h), Err(EmuError::InvalidResultHandle));
}

#[test]
fn lazy_runtime_opts_out_of_two_qubit_angle_pairs() {
    let mut rt = LazyRuntimeFactory::init(2, 0);
    rt.qalloc().unwrap();
    rt.qalloc().unwrap();
    assert_eq!(rt.tk2_gate(0, 1, 1, 2, 3), Err(EmuError::Unsupported));
    assert_eq!(rt.twin_rxy_gate(0, 1, 1, 2), Err(EmuError::Unsupported));
    assert_eq!(rt.rpp_gate(0, 1, 1, 2), Err(EmuError::Unsupported));
    assert_eq!(rt.custom_call(7, &vec![1, 2]), Err(EmuError::Unsupported));
}

#[test]
fn coinflip_outcomes_follow_the_threshold_edges() {
    let mut never = CoinflipSimulatorFactory::init(1, 0);
    never.shot_start(0, 42).unwrap();
    assert_eq!(never.measure(0), Ok(false));
    let mut always = CoinflipSimulatorFactory::init(1, u64::MAX);
    always.shot_start(0, 42).unwrap();
    // Only a drawn word of u64::MAX itself would miss this threshold.
    assert_eq!(always.measure(0), Ok(true));
    assert_eq!(always.total_flips(), 1);
    assert_eq!(always.true_flips(), 1);
}

#[test]
fn coinflip_is_deterministic_under_one_seed() {
    let mut a = CoinflipSimulatorFactory::init(1, u64::MAX / 2);
    let mut b = CoinflipSimulatorFactory::init(1, u64::MAX / 2);
    a.shot_start(3, 1234).unwrap();
    b.shot_start(3, 1234).unwrap();
    for _ in 0..64 {
        assert_eq!(a.measure(0).unwrap(), b.measure(0).unwrap());
    }
    // The same instance reseeded replays the same outcomes.
    let mut first: Vec<bool> = Vec::new();
    a.shot_end().unwrap();
    a.shot_start(4, 77).unwrap();
    for _ in 0..32 {
        first.push(a.measure(0).unwrap());
    }
    a.shot_end().unwrap();
    a.shot_start(4, 77).unwrap();
    for i in 0..32 {
        assert_eq!(a.measure(0).unwrap(), first[i]);
    }
}

#[test]
fn bounds_rejection_leaves_the_simulator_unchanged() {
    let mut sim = CoinflipSimulatorFactory::init(2, u64::MAX);
    sim.shot_start(0, 9).unwrap();
    assert_eq!(sim.rxy(2, 0, 0), Err(EmuError::QubitOutOfBounds));
    assert_eq!(sim.rzz(0, 2, 0), Err(EmuError::QubitOutOfBounds));
    assert_eq!(sim.measure(5), Err(EmuError::QubitOutOfBounds));
    assert_eq!(sim.reset(2), Err(EmuError::QubitOutOfBounds));
    assert_eq!(sim.postselect(2, true), Err(EmuError::QubitOutOfBounds));
    // No flip was drawn or counted by the rejected calls.
    assert_eq!(sim.total_flips(), 0);
    assert_eq!(sim.measure(0), Ok(true));
    assert_eq!(sim.total_flips(), 1);
}

#[test]
fn twin_rxy_decomposition_matches_direct_support() {
    let mut direct = CoinflipSimulatorFactory::init(2, u64::MAX / 3);
    let mut decomposed = CoinflipSimulatorFactory::init(2, u64::MAX / 3);
    direct.shot_start(0, 5).unwrap();
    decomposed.shot_start(0, 5).unwrap();
    direct.twin_rxy(0, 1, 10, 20).unwrap();
    twin_rxy_via_decomposition(&mut decomposed, 0, 1, 10, 20).unwrap();
    // The two instances remain in identical states: outcomes agree.
    for _ in 0..16 {
        assert_eq!(direct.measure(0).unwrap(), decomposed.measure(0).unwrap());
    }
    assert_eq!(
        twin_rxy_via_decomposition(&mut decomposed, 0, 9, 1, 2),
        Err(EmuError::QubitOutOfBounds)
    );
}

#[test]
fn classical_replay_replays_and_polices_its_recording() {
    let mut sim = ClassicalReplaySimulatorFactory::init(1, vec![vec![true, false], vec![true]]);
    assert_eq!(sim.shot_start(2, 0), Err(EmuError::ShotOutOfRange));
    sim.shot_start(0, 0).unwrap();
    assert_eq!(sim.measure(0), Ok(true));
    assert_eq!(sim.measure(9), Err(EmuError::QubitOutOfBounds));
    assert_eq!(sim.measure(0), Ok(false));
    assert_eq!(sim.measure(0), Err(EmuError::MeasurementsExhausted));
    sim.shot_end().unwrap();
    sim.shot_start(1, 0).unwrap();
    // Ending a shot with a recorded outcome unconsumed is an error.
    assert_eq!(sim.shot_end(), Err(EmuError::UnconsumedMeasurements));
    assert_eq!(sim.measure(0), Ok(true));
    sim.shot_end().unwrap();
    assert_eq!(sim.postselect(0, true), Err(EmuError::Unsupported));
}

#[test]
fn quantum_replay_postselects_then_stops_or_resumes() {
    let wrapped = CoinflipSimulatorFactory::init(1, 0);
    let mut strict = QuantumReplaySimulatorFactory::init(1, wrapped, vec![vec![true]], false);
    strict.shot_start(0, 8).unwrap();
    assert_eq!(strict.measure(0), Ok(true)); // the recorded outcome, postselected
    assert_eq!(strict.measure(0), Err(EmuError::MeasurementsExhausted));

    let wrapped = CoinflipSimulatorFactory::init(1, 0);
    let mut resuming = QuantumReplaySimulatorFactory::init(1, wrapped, vec![vec![true]], true);
    resuming.shot_start(0, 8).unwrap();
    assert_eq!(resuming.measure(0), Ok(true));
    assert_eq!(resuming.measure(0), Ok(false)); // fell through to the wrapped coin
}

#[test]
fn leakage_model_spreads_and_reports_leakage() {
    // Leak on every opportunity; a leaked qubit always measures true.
    let sim = CoinflipSimulatorFactory::init(2, 0);
    let mut em = SimpleLeakageErrorModelFactory::init(2, u64::MAX, u64::MAX, sim);
    em.shot_start(0, 1, 2).unwrap();
    let batch = BatchOperation::new(
        vec![
            Operation::RXYGate { qubit_id: 0, theta: 0, phi: 0 },
            Operation::Measure { qubit_id: 0, result_id: 0 },
            Operation::MeasureLeaked { qubit_id: 0, result_id: 1 },
            Operation::MeasureLeaked { qubit_id: 1, result_id: 2 },
            Operation::Reset { qubit_id: 0 },
        ],
        0,
        0,
    );
    let results = em.handle_operations(batch).unwrap();
    // Qubit 0 leaked on the rotation and measures with the configured bias.
    assert_eq!(results.bool_results.len(), 1);
    assert_eq!(results.bool_results[0].result_id, 0);
    assert!(results.bool_results[0].value);
    // A leaked qubit reports the out-of-subspace value.
    assert_eq!(results.u64_results[0].result_id, 1);
    assert_eq!(results.u64_results[0].value, 2);
    // Qubit 1 never interacted: its outcome comes from the simulator.
    assert_eq!(results.u64_results[1].result_id, 2);
    assert_eq!(results.u64_results[1].value, 0);
    let (tag, value) = em.get_metric(0).unwrap().unwrap();
    assert_eq!(tag, "spontaneous_leaks");
    assert_eq!(value, MetricValue::U64(1));
    // A reset returned qubit 0 to the subspace.
    let batch = BatchOperation::new(
        vec![Operation::MeasureLeaked { qubit_id: 0, result_id: 3 }],
        0,
        0,
    );
    let results = em.handle_operations(batch).unwrap();
    assert_eq!(results.u64_results[0].value, 0);
}

#[test]
fn depolarizing_model_flips_measurements_at_the_extremes() {
    // No gate or reset noise, but every measurement flips.
    let sim = CoinflipSimulatorFactory::init(1, 0);
    let mut em = DepolarizingErrorModelFactory::init(1, 0, 0, u64::MAX, 0, sim);
    em.shot_start(0, 3, 4).unwrap();
    let batch = BatchOperation::new(
        vec![
            Operation::RXYGate { qubit_id: 0, theta: 0, phi: 0 },
            Operation::Measure { qubit_id: 0, result_id: 0 },
        ],
        0,
        0,
    );
    let results = em.handle_operations(batch).unwrap();
    // The simulator said false; the model flipped it.
    assert_eq!(results.bool_results[0].value, true);
    let (tag, value) = em.get_metric(20).unwrap().unwrap();
    assert_eq!(tag, "measurements");
    assert_eq!(value, MetricValue::U64(1));
    let (tag, value) = em.get_metric(21).unwrap().unwrap();
    assert_eq!(tag, "measurement_errors");
    assert_eq!(value, MetricValue::U64(1));
    let (tag, value) = em.get_metric(0).unwrap().unwrap();
    assert_eq!(tag, "gates_1q");
    assert_eq!(value, MetricValue::U64(1));
}

#[test]
fn a_failed_batch_keeps_its_earlier_effects() {
    // Leak on the first operation, then fail on an out-of-range measurement:
    // the leak stays applied and no partial results come back.
    let sim = CoinflipSimulatorFactory::init(2, 0);
    let mut em = SimpleLeakageErrorModelFactory::init(2, u64::MAX, u64::MAX, sim);
    em.shot_start(0, 1, 2).unwrap();
    let batch = BatchOperation::new(
        vec![
            Operation::RXYGate { qubit_id: 0, theta: 0, phi: 0 },
            Operation::Measure { qubit_id: 9, result_id: 0 },
            Operation::Measure { qubit_id: 0, result_id: 1 },
        ],
        0,
        0,
    );
    assert_eq!(em.handle_operations(batch), Err(EmuError::QubitOutOfBounds));
    let (tag, value) = em.get_metric(0).unwrap().unwrap();
    assert_eq!(tag, "spontaneous_leaks");
    assert_eq!(value, MetricValue::U64(1));
    // The later measurement was never reached; a fresh batch still works and
    // sees the leak.
    let batch = BatchOperation::new(
        vec![Operation::MeasureLeaked { qubit_id: 0, result_id: 2 }],
        0,
        0,
    );
    let results = em.handle_operations(batch).unwrap();
    assert_eq!(results.u64_results[0].value, 2);
}

#[test]
fn depolarizing_model_without_noise_forwards_unmodified() {
    let sim = CoinflipSimulatorFactory::init(1, 0);
    let mut em = DepolarizingErrorModelFactory::init(1, 0, 0, 0, 0, sim);
    em.shot_start(0, 3, 4).unwrap();
    let batch = BatchOperation::new(
        vec![Operation::Measure { qubit_id: 0, result_id: 7 }],
        0,
        0,
    );
    let results = em.handle_operations(batch).unwrap();
    assert_eq!(results.bool_results[0].result_id, 7);
    assert_eq!(results.bool_results[0].value, false);
    assert!(results.u64_results.is_empty());
}

#[test]
fn status_records_carry_code_and_payload() {
    assert_eq!(VoidResult::ok().error_code, 0);
    assert_eq!(VoidResult::err(3).error_code, 3);
    let u = U64Result::ok(9);
    assert_eq!((u.error_code, u.value), (0, 9));
    assert_eq!(U64Result::err(2).value, 0);
    let u = U32Result::ok(8);
    assert_eq!((u.error_code, u.value), (0, 8));
    let b = BoolResult::ok(true);
    assert_eq!((b.error_code, b.value), (0, true));
    assert_eq!(BoolResult::err(1).value, false);
    let f = FutureResult::ok(5);
    assert_eq!((f.error_code, f.reference), (0, 5));
    assert_eq!(FutureResult::err(4).reference, 0);
}

#[test]
fn shot_configuration_derives_ids_and_seeds() {
    let shots = ShotConfig { count: 10, offset: 100, increment: 3 };
    assert_eq!(shots.shot_id(0), 100);
    assert_eq!(shots.shot_id(4), 112);
    let config = Configuration {
        n_qubits: 2,
        output_stream: "stdout".to_string(),
        artifact_dir: ".".to_string(),
        simulator: PluginConfig {
            name: "sim".to_string(),
            seed: 7,
            file: "sim.so".to_string(),
            args: vec![],
        },
        error_model: PluginConfig {
            name: "em".to_string(),
            seed: u64::MAX,
            file: "em.so".to_string(),
            args: vec![],
        },
        runtime: PluginConfig {
            name: "rt".to_string(),
            seed: 1,
            file: "rt.so".to_string(),
            args: vec![],
        },
        event_hooks: EventHookConfig {
            provide_instruction_log: false,
            provide_metrics: true,
            provide_measurement_log: false,
        },
        shots,
    };
    let (rt_seed, em_seed, sim_seed) = config.shot_seeds(2);
    assert_eq!(rt_seed, 3);
    assert_eq!(em_seed, 1); // wraps at the integer boundary
    assert_eq!(sim_seed, 9);
}

#[test]
fn metrics_count_user_calls_and_batches() {
    let mut hooks = HighLevelMetrics::new();
    hooks.on_user_call(&UserEvent::QAlloc(0));
    hooks.on_user_call(&UserEvent::QAlloc(1));
    hooks.on_user_call(&UserEvent::QFree(0));
    hooks.on_user_call(&UserEvent::RXY(1, 0, 0));
    hooks.on_user_call(&UserEvent::MeasureRequest(1));
    assert_eq!(hooks.user_program_metrics.qalloc_count, 2);
    assert_eq!(hooks.user_program_metrics.qfree_count, 1);
    assert_eq!(hooks.user_program_metrics.currently_allocated, 1);
    assert_eq!(hooks.user_program_metrics.max_allocated, 2);
    assert_eq!(hooks.user_program_metrics.rxy_count, 1);
    assert_eq!(hooks.user_program_metrics.measure_request_count, 1);
    let batch = BatchOperation::new(
        vec![
            Operation::RXYGate { qubit_id: 1, theta: 0, phi: 0 },
            Operation::Measure { qubit_id: 1, result_id: 0 },
        ],
        5,
        7,
    );
    hooks.on_runtime_batch(&batch);
    assert_eq!(hooks.post_runtime_metrics.batch_count, 1);
    assert_eq!(hooks.post_runtime_metrics.operation_count, 2);
    assert_eq!(hooks.post_runtime_metrics.measure_count, 1);
    assert_eq!(hooks.post_runtime_metrics.rxy_count, 1);
    assert_eq!(hooks.post_runtime_metrics.total_duration_ns, 7);
    hooks.on_shot_start();
    assert_eq!(hooks.user_program_metrics.qalloc_count, 0);
    assert_eq!(hooks.post_runtime_metrics.batch_count, 0);
}

#[test]
fn population_tallies_grow_slot_by_slot() {
    let mut pop = PopulationResult::new(2, 1);
    assert_eq!(pop.circuit_measurements.len(), 4);
    assert_eq!(pop.test_measurements.len(), 2);
    pop.add_circuit_measurements(3);
    pop.add_circuit_measurements(3);
    pop.add_test_measurements(0);
    assert_eq!(pop.circuit_measurements, vec![0, 0, 0, 2]);
    assert_eq!(pop.test_measurements, vec![1, 0]);
}
