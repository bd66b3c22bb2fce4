//! The orchestrator driving a full reference stack: runtime, error model,
//! simulator, shot lifecycle, and future resolution.

use selene::batch_result::BatchResult;
use selene::emulator::{Emulator, EmulatorState};
use selene::foreign_drain::{DrainAction, ForeignDrainDirector};
use selene::error_model::ErrorModelInterface;
use selene::error_model_ideal::IdealErrorModelFactory;
use selene::errors::EmuError;
use selene::measurement_log::{MeasCall, MeasLogEnt, MeasType, MeasurementLog};
use selene::ops::{BatchOperation, Operation};
use selene::runtime::RuntimeInterface;
use selene::runtime_lazy::LazyRuntimeFactory;
use selene::runtime_simple::SimpleRuntimeFactory;
use selene::sim_classical_replay::ClassicalReplaySimulatorFactory;
use selene::sim_coinflip::CoinflipSimulatorFactory;

const PI_BITS: u64 = 0x400921FB54442D18;

#[test]
fn end_to_end_measurement_reflects_the_simulator() {
    // Runtime queues 1:1, the ideal error model forwards unmodified, and a
    // simulator that always measures false answers false.
    let runtime = SimpleRuntimeFactory::init(2, 0);
    let error_model = IdealErrorModelFactory::init(CoinflipSimulatorFactory::init(2, 0));
    let mut emu = Emulator::new(runtime, error_model);
    assert_eq!(emu.lifecycle_state(), EmulatorState::Uninitialized);
    emu.shot_start(0, 1, 2, 3).unwrap();
    assert_eq!(emu.lifecycle_state(), EmulatorState::ShotActive);
    assert_eq!(emu.user_issued_qalloc(), Ok(0));
    emu.user_issued_rxy(0, PI_BITS, 0).unwrap();
    let h = emu.user_issued_lazy_measure(0).unwrap();
    assert_eq!(emu.user_issued_read_future_bool(h), Ok(false));
    emu.shot_end().unwrap();
    assert_eq!(emu.lifecycle_state(), EmulatorState::ShotEnded);

    // The same sequence over a simulator that always measures true.
    let runtime = SimpleRuntimeFactory::init(2, 0);
    let error_model = IdealErrorModelFactory::init(CoinflipSimulatorFactory::init(2, u64::MAX));
    let mut emu = Emulator::new(runtime, error_model);
    emu.shot_start(0, 1, 2, 3).unwrap();
    assert_eq!(emu.user_issued_qalloc(), Ok(0));
    emu.user_issued_rxy(0, PI_BITS, 0).unwrap();
    let h = emu.user_issued_lazy_measure(0).unwrap();
    assert_eq!(emu.user_issued_read_future_bool(h), Ok(true));
    emu.shot_end().unwrap();
}

#[test]
fn calls_outside_an_active_shot_are_rejected() {
    let runtime = SimpleRuntimeFactory::init(1, 0);
    let error_model = IdealErrorModelFactory::init(CoinflipSimulatorFactory::init(1, 0));
    let mut emu = Emulator::new(runtime, error_model);
    assert_eq!(emu.user_issued_qalloc(), Err(EmuError::InvalidState));
    assert_eq!(emu.user_issued_rxy(0, 0, 0), Err(EmuError::InvalidState));
    assert_eq!(emu.shot_end(), Err(EmuError::InvalidState));
    emu.shot_start(0, 1, 2, 3).unwrap();
    assert_eq!(emu.shot_start(1, 1, 2, 3), Err(EmuError::InvalidState));
    emu.shot_end().unwrap();
    emu.exit().unwrap();
    assert_eq!(emu.lifecycle_state(), EmulatorState::Exited);
    assert_eq!(emu.shot_start(1, 1, 2, 3), Err(EmuError::InvalidState));
}

#[test]
fn lazy_runtime_resolves_futures_through_forcing() {
    let runtime = LazyRuntimeFactory::init(1, 0);
    let error_model = IdealErrorModelFactory::init(CoinflipSimulatorFactory::init(1, u64::MAX));
    let mut emu = Emulator::new(runtime, error_model);
    emu.shot_start(0, 1, 2, 3).unwrap();
    assert_eq!(emu.user_issued_qalloc(), Ok(0));
    emu.user_issued_rxy(0, PI_BITS, 0).unwrap();
    let h = emu.user_issued_lazy_measure(0).unwrap();
    // Nothing was flushed yet, so the read forces the measurement out.
    assert_eq!(emu.user_issued_read_future_bool(h), Ok(true));
    emu.shot_end().unwrap();
}

#[test]
fn identical_seeds_give_identical_shots() {
    // Two consecutive shots of the same instances under identical seeds
    // produce identical outcomes; per-shot state fully resets between them.
    let runtime = SimpleRuntimeFactory::init(1, 0);
    let error_model = IdealErrorModelFactory::init(
        CoinflipSimulatorFactory::init(1, u64::MAX / 2),
    );
    let mut emu = Emulator::new(runtime, error_model);

    let mut first: Vec<bool> = Vec::new();
    emu.shot_start(5, 10, 20, 30).unwrap();
    emu.user_issued_qalloc().unwrap();
    for _ in 0..32 {
        let h = emu.user_issued_lazy_measure(0).unwrap();
        first.push(emu.user_issued_read_future_bool(h).unwrap());
    }
    emu.shot_end().unwrap();

    emu.shot_start(5, 10, 20, 30).unwrap();
    emu.user_issued_qalloc().unwrap();
    for i in 0..32 {
        let h = emu.user_issued_lazy_measure(0).unwrap();
        assert_eq!(emu.user_issued_read_future_bool(h).unwrap(), first[i]);
    }
    emu.shot_end().unwrap();
}

#[test]
fn refcounts_and_u64_futures_flow_through_the_orchestrator() {
    let runtime = SimpleRuntimeFactory::init(1, 0);
    let error_model = IdealErrorModelFactory::init(CoinflipSimulatorFactory::init(1, u64::MAX));
    let mut emu = Emulator::new(runtime, error_model);
    emu.shot_start(0, 1, 2, 3).unwrap();
    emu.user_issued_qalloc().unwrap();
    let h = emu.user_issued_lazy_measure_leaked(0).unwrap();
    emu.user_issued_increment_measurement_refcount(h).unwrap();
    assert_eq!(emu.user_issued_read_future_u64(h), Ok(1));
    emu.user_issued_decrement_measurement_refcount(h).unwrap();
    emu.user_issued_decrement_measurement_refcount(h).unwrap();
    // The count reached zero: the handle may no longer be read.
    assert_eq!(emu.user_issued_read_future_u64(h), Err(EmuError::InvalidResultHandle));
    emu.shot_end().unwrap();
}

#[test]
fn barriers_and_custom_calls_route_through_the_runtime() {
    let runtime = SimpleRuntimeFactory::init(2, 0);
    let error_model = IdealErrorModelFactory::init(CoinflipSimulatorFactory::init(2, 0));
    let mut emu = Emulator::new(runtime, error_model);
    emu.shot_start(0, 1, 2, 3).unwrap();
    emu.user_issued_qalloc().unwrap();
    emu.user_issued_global_barrier(0).unwrap();
    emu.user_issued_local_barrier(&vec![0], 0).unwrap();
    // The eager reference runtime opts out of custom calls.
    assert_eq!(emu.custom_runtime_call(1, &vec![]), Err(EmuError::Unsupported));
    emu.shot_end().unwrap();
}

#[test]
fn component_failures_propagate_through_user_calls() {
    // A replay simulator with no recorded outcomes: the forced read fails
    // with the simulator's exhaustion error, propagated unmodified.
    let runtime = SimpleRuntimeFactory::init(1, 0);
    let error_model =
        IdealErrorModelFactory::init(ClassicalReplaySimulatorFactory::init(1, vec![vec![]]));
    let mut emu = Emulator::new(runtime, error_model);
    emu.shot_start(0, 1, 2, 3).unwrap();
    emu.user_issued_qalloc().unwrap();
    // The eager runtime emits the measurement at once, so the drain inside
    // the measurement request already hits the exhausted recording.
    assert_eq!(emu.user_issued_lazy_measure(0), Err(EmuError::MeasurementsExhausted));
}

#[test]
fn drain_director_walks_a_foreign_style_stack() {
    // Drive the drain protocol by hand, with the library's own components
    // standing in for a foreign stack: fetch, handle, write back, repeat.
    let mut rt = LazyRuntimeFactory::init(1, 0);
    let mut em = IdealErrorModelFactory::init(CoinflipSimulatorFactory::init(1, u64::MAX));
    em.shot_start(0, 1, 2).unwrap();
    rt.qalloc().unwrap();
    rt.rxy_gate(0, PI_BITS, 0).unwrap();
    let h = rt.measure(0).unwrap();
    rt.force_result(h).unwrap();

    let mut director = ForeignDrainDirector::new();
    let mut pending: Option<selene::ops::BatchOperation> = None;
    loop {
        match director.next_action() {
            DrainAction::FetchBatch => {
                pending = rt.get_next_operations().unwrap();
                director.on_batch(pending.as_ref()).unwrap();
            }
            DrainAction::HandleBatch => {
                let batch = pending.take().unwrap();
                let results = em.handle_operations(batch).unwrap();
                director.on_results(&results).unwrap();
            }
            DrainAction::WriteBool(entry) => {
                rt.set_bool_result(entry.result_id, entry.value).unwrap();
                director.on_write_done().unwrap();
            }
            DrainAction::WriteU64(entry) => {
                rt.set_u64_result(entry.result_id, entry.value).unwrap();
                director.on_write_done().unwrap();
            }
            DrainAction::Finished => break,
            DrainAction::Aborted => panic!("the drain aborted"),
        }
    }
    // The drained measurement resolved with the simulator's outcome.
    assert_eq!(rt.get_bool_result(h), Ok(Some(true)));
    // Phase discipline: a report out of turn is rejected.
    assert_eq!(director.on_write_done(), Err(EmuError::InvalidState));
}

#[test]
fn drain_director_aborts_on_a_result_mismatch() {
    let mut director = ForeignDrainDirector::new();
    let batch = BatchOperation::new(
        vec![Operation::Measure { qubit_id: 0, result_id: 3 }],
        0,
        0,
    );
    director.on_batch(Some(&batch)).unwrap();
    // A result under the wrong handle breaks the error-model contract.
    let mut results = BatchResult::new();
    results.set_bool_result(4, true);
    assert_eq!(director.on_results(&results), Err(EmuError::ContractViolation));
    assert!(matches!(director.next_action(), DrainAction::Aborted));
}

#[test]
fn measurement_log_matches_calls_to_results() {
    let runtime = SimpleRuntimeFactory::init(1, 0);
    let error_model = IdealErrorModelFactory::init(CoinflipSimulatorFactory::init(1, u64::MAX));
    let mut log = MeasurementLog::new();
    let batch = BatchOperation::new(
        vec![
            Operation::Measure { qubit_id: 0, result_id: 0 },
            Operation::MeasureLeaked { qubit_id: 0, result_id: 1 },
        ],
        0,
        0,
    );
    log.on_runtime_batch(&batch);
    // Feed the batch through a real error model and match its results.
    let mut em = error_model;
    em.shot_start(0, 1, 2).unwrap();
    let results = em.handle_operations(batch).unwrap();
    assert!(log.on_runtime_results(&results).is_ok());
    // A result that answers no call is a contract violation.
    let mut log = MeasurementLog::new();
    assert_eq!(log.on_runtime_results(&results), Err(EmuError::ContractViolation));
    let _ = runtime;
    let entry = MeasLogEnt::new(MeasType::MeasureLeaked, 0, 2);
    assert_eq!(entry.value, 2);
    let call = MeasCall { meas_type: MeasType::Measure, qubit_id: 0, result_id: 0 };
    assert_eq!(call.result_id, 0);
}
