//! Cross-component laws of the reference stack.

use vstd::prelude::*;

use crate::batch_result::{BoolResult64, U64Result64};
use crate::emulator::{drain_res, eager_measure_res, read_u64_res, writeback_bools, writeback_u64s};
use crate::error_model_ideal::{ideal_run, ideal_step, IdealErrorModel};
use crate::errors::EmuError;
use crate::ops::{BatchModel, Operation};
use crate::rng::pcg_draw;
use crate::runtime::RuntimeInterface;
use crate::runtime_simple::{SimpleRuntime, SimpleRuntimeModel};
use crate::sim_coinflip::{CoinflipModel, CoinflipSimulator};
use crate::simulator::SimulatorInterface;

verus! {

/// End-to-end measurement, on the reference stack: from any drained state of
/// the eager runtime — queue empty, the measured qubit allocated — a
/// requested measurement followed by a read returns exactly the coinflip
/// simulator's next outcome, forwarded unmodified through the ideal error
/// model and written back into the runtime's future store. The outcome is
/// the next word of the shot's stream against the bias threshold, so a
/// simulator that always measures false answers false and one that always
/// measures true answers true.
pub proof fn lemma_end_to_end_measurement(rm: SimpleRuntimeModel, cm: CoinflipModel, q: u64)
    requires
        rm.queue.len() == 0,
        q < rm.qubits.len(),
        rm.qubits[q as int],
        rm.futures.len() < u64::MAX,
        q < cm.width,
    ensures
        eager_measure_res::<SimpleRuntime, IdealErrorModel<CoinflipSimulator>>(rm, cm, q) matches
            Ok((a, b, v)) && v == (pcg_draw(cm.seed, cm.drawn) < cm.threshold),
{
    let h = rm.futures.len() as u64;
    let op = Operation::Measure { qubit_id: q, result_id: h };
    let measured = SimpleRuntime::measure_res(rm, q, false);
    let rm1 = measured->Ok_0.0;
    assert(rm1.queue =~= Seq::<BatchModel>::empty().push(
        BatchModel { ops: seq![op], start: rm.start, duration: 0 },
    ));
    assert(SimpleRuntime::v_inv(rm1));

    // The drain pops the one queued batch.
    let fetched = SimpleRuntime::next_ops_res(rm1);
    let rm2 = fetched->Ok_0.0;
    let bm = fetched->Ok_0.1->Some_0;
    assert(bm.ops =~= seq![op]);

    // The ideal model forwards the measurement to the coinflip simulator.
    let v = pcg_draw(cm.seed, cm.drawn) < cm.threshold;
    let entry = BoolResult64 { result_id: h, value: v };
    assert(bm.ops.drop_last() =~= Seq::<Operation>::empty());
    assert(bm.ops.last() == op);
    assert(ideal_run::<CoinflipSimulator>(cm, bm.ops.drop_last()) == Ok::<
        (CoinflipModel, Seq<BoolResult64>, Seq<U64Result64>),
        (CoinflipModel, EmuError),
    >((cm, Seq::empty(), Seq::empty())));
    assert(ideal_run::<CoinflipSimulator>(cm, bm.ops) == ideal_step::<CoinflipSimulator>(
        cm,
        Seq::empty(),
        Seq::empty(),
        op,
    ));
    let handled = ideal_run::<CoinflipSimulator>(cm, bm.ops);
    let cm1 = handled->Ok_0.0;
    let bs = handled->Ok_0.1;
    assert(bs =~= seq![entry]);
    assert(handled->Ok_0.2 =~= Seq::<U64Result64>::empty());

    // The one boolean result is written back, resolving the fresh handle.
    assert(bs.drop_last() =~= Seq::<BoolResult64>::empty());
    assert(bs.last() == entry);
    assert(writeback_bools::<SimpleRuntime>(rm2, bs.drop_last()) == Ok::<
        SimpleRuntimeModel,
        (SimpleRuntimeModel, EmuError),
    >(rm2));
    let written = writeback_bools::<SimpleRuntime>(rm2, bs);
    let stored = SimpleRuntime::set_result_res(
        rm2,
        h,
        if v {
            1u64
        } else {
            0u64
        },
    );
    assert(stored is Ok);
    assert(written == Ok::<SimpleRuntimeModel, (SimpleRuntimeModel, EmuError)>(stored->Ok_0));
    let rm3 = written->Ok_0;
    assert(writeback_u64s::<SimpleRuntime>(rm3, handled->Ok_0.2) == Ok::<
        SimpleRuntimeModel,
        (SimpleRuntimeModel, EmuError),
    >(rm3));

    // The next round finds nothing, ending the drain.
    assert(SimpleRuntime::v_inv(rm3));
    assert(rm3.queue.len() == 0);
    assert(drain_res::<SimpleRuntime, IdealErrorModel<CoinflipSimulator>>(rm3, cm1) == Ok::<
        (SimpleRuntimeModel, CoinflipModel),
        (SimpleRuntimeModel, CoinflipModel, EmuError),
    >((rm3, cm1)));
    assert(drain_res::<SimpleRuntime, IdealErrorModel<CoinflipSimulator>>(rm1, cm) == Ok::<
        (SimpleRuntimeModel, CoinflipModel),
        (SimpleRuntimeModel, CoinflipModel, EmuError),
    >((rm3, cm1)));

    // The read finds the handle resolved with the simulator's outcome.
    assert(rm3.futures[h as int].resolved && rm3.futures[h as int].value == (if v {
        1u64
    } else {
        0u64
    }));
    assert(rm3.futures[h as int].refcount == 1);
    assert(SimpleRuntime::get_result_res(rm3, h) == Ok::<Option<u64>, EmuError>(
        Some(
            if v {
                1u64
            } else {
                0u64
            },
        ),
    ));
    assert(read_u64_res::<SimpleRuntime, IdealErrorModel<CoinflipSimulator>>(rm3, cm1, h) == Ok::<
        (SimpleRuntimeModel, CoinflipModel, u64),
        (SimpleRuntimeModel, CoinflipModel, EmuError),
    >((rm3, cm1, if v {
        1u64
    } else {
        0u64
    })));
}

/// Shot isolation: a shot boundary resets all per-shot state, so two
/// instances that agree on their persistent configuration stand in identical
/// states after ending a shot and starting the next with identical seeds —
/// whatever their per-shot state was. Identical states then drive identical
/// batch sequences and outcomes, because every transition of the runtime,
/// the error model and the simulator is a function of the model alone.
///
/// Stated here for the eager reference runtime (persistent configuration:
/// width and batch time stamp) and the coinflip simulator (persistent
/// configuration: width and bias threshold).
pub proof fn lemma_shot_isolation(
    rm1: SimpleRuntimeModel,
    rm2: SimpleRuntimeModel,
    sm1: CoinflipModel,
    sm2: CoinflipModel,
    shot_id: u64,
    runtime_seed: u64,
    simulator_seed: u64,
)
    requires
        rm1.qubits.len() == rm2.qubits.len(),
        rm1.start == rm2.start,
        sm1.width == sm2.width,
        sm1.threshold == sm2.threshold,
    ensures
        ({
            let a1 = SimpleRuntime::shot_end_res(rm1);
            let a2 = SimpleRuntime::shot_end_res(rm2);
            &&& a1 is Ok
            &&& a2 is Ok
            &&& (match (a1, a2) {
                (Ok(e1), Ok(e2)) => SimpleRuntime::shot_start_res(e1, shot_id, runtime_seed)
                    == SimpleRuntime::shot_start_res(e2, shot_id, runtime_seed),
                _ => false,
            })
        }),
        ({
            let b1 = CoinflipSimulator::shot_end_res(sm1);
            let b2 = CoinflipSimulator::shot_end_res(sm2);
            &&& b1 is Ok
            &&& b2 is Ok
            &&& (match (b1, b2) {
                (Ok(e1), Ok(e2)) => CoinflipSimulator::shot_start_res(e1, shot_id, simulator_seed)
                    == CoinflipSimulator::shot_start_res(e2, shot_id, simulator_seed),
                _ => false,
            })
        }),
{
    if let (Ok(e1), Ok(e2)) = (SimpleRuntime::shot_end_res(rm1), SimpleRuntime::shot_end_res(
        rm2,
    )) {
        assert(e1 =~= e2);
    }
    if let (Ok(e1), Ok(e2)) = (CoinflipSimulator::shot_end_res(sm1), CoinflipSimulator::shot_end_res(
        sm2,
    )) {
        if let (Ok(f1), Ok(f2)) = (
            CoinflipSimulator::shot_start_res(e1, shot_id, simulator_seed),
            CoinflipSimulator::shot_start_res(e2, shot_id, simulator_seed),
        ) {
            assert(f1 =~= f2);
        }
    }
}

} // verus!
