//! The emulator orchestrator: it drives user calls into the runtime, drains
//! the runtime's batch queue through the error model, writes every returned
//! result back into the runtime's future store, and manages the shot
//! lifecycle across all three components.
//!
//! The machine has four lifecycle states. Each user call while a shot is
//! active forwards to the runtime and then drains unconditionally. The drain
//! is a function of the component models: batches come out until the runtime
//! reports "nothing now", and every round strictly lowers the runtime's
//! pending measure, so the drain terminates and [`drain_res`] states its
//! outcome totally — the final component states on success, and the failing
//! call's error with the states it left behind on failure.

use vstd::prelude::*;

use crate::batch_result::{BoolResult64, U64Result64};
use crate::error_model::ErrorModelInterface;
use crate::errors::EmuError;
use crate::runtime::RuntimeInterface;
use crate::simulator::GateOp;

verus! {

/// The lifecycle of one emulation instance.
#[derive(Debug, Clone, Copy, PartialEq, Eq, Structural)]
pub enum EmulatorState {
    Uninitialized,
    ShotActive,
    ShotEnded,
    Exited,
}

/// Writing a list of boolean results back into the runtime, in order. On
/// failure, the writes before the failing one stay applied.
pub open spec fn writeback_bools<R: RuntimeInterface>(rm: R::V, bs: Seq<BoolResult64>) -> Result<
    R::V,
    (R::V, EmuError),
>
    decreases bs.len(),
{
    if bs.len() == 0 {
        Ok(rm)
    } else {
        match writeback_bools::<R>(rm, bs.drop_last()) {
            Ok(a) => match R::set_result_res(
                a,
                bs.last().result_id,
                if bs.last().value {
                    1
                } else {
                    0
                },
            ) {
                Ok(a2) => Ok(a2),
                Err(e) => Err((a, e)),
            },
            Err(t) => Err(t),
        }
    }
}

/// Writing a list of 64-bit results back into the runtime, in order. On
/// failure, the writes before the failing one stay applied.
pub open spec fn writeback_u64s<R: RuntimeInterface>(rm: R::V, us: Seq<U64Result64>) -> Result<
    R::V,
    (R::V, EmuError),
>
    decreases us.len(),
{
    if us.len() == 0 {
        Ok(rm)
    } else {
        match writeback_u64s::<R>(rm, us.drop_last()) {
            Ok(a) => match R::set_result_res(a, us.last().result_id, us.last().value) {
                Ok(a2) => Ok(a2),
                Err(e) => Err((a, e)),
            },
            Err(t) => Err(t),
        }
    }
}

/// A failing write-back prefix decides the whole write-back.
proof fn lemma_writeback_bools_err_prefix<R: RuntimeInterface>(
    rm: R::V,
    bs: Seq<BoolResult64>,
    i: int,
)
    requires
        0 <= i <= bs.len(),
        writeback_bools::<R>(rm, bs.take(i)) is Err,
    ensures
        writeback_bools::<R>(rm, bs) == writeback_bools::<R>(rm, bs.take(i)),
    decreases bs.len(),
{
    if i == bs.len() {
        assert(bs.take(i) =~= bs);
    } else {
        assert(bs.drop_last().take(i) =~= bs.take(i));
        lemma_writeback_bools_err_prefix::<R>(rm, bs.drop_last(), i);
    }
}

/// A failing write-back prefix decides the whole write-back.
proof fn lemma_writeback_u64s_err_prefix<R: RuntimeInterface>(rm: R::V, us: Seq<U64Result64>, i: int)
    requires
        0 <= i <= us.len(),
        writeback_u64s::<R>(rm, us.take(i)) is Err,
    ensures
        writeback_u64s::<R>(rm, us) == writeback_u64s::<R>(rm, us.take(i)),
    decreases us.len(),
{
    if i == us.len() {
        assert(us.take(i) =~= us);
    } else {
        assert(us.drop_last().take(i) =~= us.take(i));
        lemma_writeback_u64s_err_prefix::<R>(rm, us.drop_last(), i);
    }
}

/// Boolean write-backs keep the runtime model well-formed and never raise
/// the pending measure.
proof fn lemma_writeback_bools_wf<R: RuntimeInterface>(rm: R::V, bs: Seq<BoolResult64>)
    requires
        R::v_inv(rm),
    ensures
        writeback_bools::<R>(rm, bs) matches Ok(a) ==> R::v_inv(a) && R::pending(a) <= R::pending(
            rm,
        ),
    decreases bs.len(),
{
    if bs.len() > 0 {
        lemma_writeback_bools_wf::<R>(rm, bs.drop_last());
        if let Ok(a) = writeback_bools::<R>(rm, bs.drop_last()) {
            R::lemma_drain_progress(
                a,
                bs.last().result_id,
                if bs.last().value {
                    1
                } else {
                    0
                },
            );
            R::lemma_step_wf(
                a,
                GateOp::Reset { qubit: 0 },
                0,
                bs.last().result_id,
                if bs.last().value {
                    1
                } else {
                    0
                },
                Seq::empty(),
                0,
                0,
                Seq::empty(),
                0,
                0,
            );
        }
    }
}

/// The same facts for the 64-bit write-backs.
proof fn lemma_writeback_u64s_wf<R: RuntimeInterface>(rm: R::V, us: Seq<U64Result64>)
    requires
        R::v_inv(rm),
    ensures
        writeback_u64s::<R>(rm, us) matches Ok(a) ==> R::v_inv(a) && R::pending(a) <= R::pending(
            rm,
        ),
    decreases us.len(),
{
    if us.len() > 0 {
        lemma_writeback_u64s_wf::<R>(rm, us.drop_last());
        if let Ok(a) = writeback_u64s::<R>(rm, us.drop_last()) {
            R::lemma_drain_progress(a, us.last().result_id, us.last().value);
            R::lemma_step_wf(
                a,
                GateOp::Reset { qubit: 0 },
                0,
                us.last().result_id,
                us.last().value,
                Seq::empty(),
                0,
                0,
                Seq::empty(),
                0,
                0,
            );
        }
    }
}

/// What draining the runtime through the error model does, as a function of
/// the two component models. Batches come out one at a time; each is
/// consumed by the error model and every returned result is written back,
/// one write per handle, before the next batch comes out; the drain ends
/// when the runtime reports "nothing now". On failure the drain stops at the
/// failing call, and the error carries the states the drain left behind.
pub open spec fn drain_res<R: RuntimeInterface, E: ErrorModelInterface>(
    rm: R::V,
    em: E::V,
) -> Result<(R::V, E::V), (R::V, E::V, EmuError)>
    decreases R::pending(rm),
        when R::v_inv(rm)
        via drain_res_decreases::<R, E>
{
    match R::next_ops_res(rm) {
        Err(e) => Err((rm, em, e)),
        Ok((rm1, None)) => Ok((rm1, em)),
        Ok((rm1, Some(bm))) => match E::handle_res(em, bm.ops) {
            Err((em1, e)) => Err((rm1, em1, e)),
            Ok((em1, bs, us)) => match writeback_bools::<R>(rm1, bs) {
                Err((a, e)) => Err((a, em1, e)),
                Ok(rm2) => match writeback_u64s::<R>(rm2, us) {
                    Err((a, e)) => Err((a, em1, e)),
                    Ok(rm3) => drain_res::<R, E>(rm3, em1),
                },
            },
        },
    }
}

#[via_fn]
proof fn drain_res_decreases<R: RuntimeInterface, E: ErrorModelInterface>(rm: R::V, em: E::V) {
    R::lemma_batch_nonempty(rm);
    R::lemma_drain_progress(rm, 0, 0);
    if let Ok((rm1, Some(bm))) = R::next_ops_res(rm) {
        if let Ok((em1, bs, us)) = E::handle_res(em, bm.ops) {
            lemma_writeback_bools_wf::<R>(rm1, bs);
            if let Ok(rm2) = writeback_bools::<R>(rm1, bs) {
                lemma_writeback_u64s_wf::<R>(rm2, us);
            }
        }
    }
}

/// Drain transitions keep the runtime model well-formed — on success and on
/// failure alike.
pub proof fn lemma_drain_wf<R: RuntimeInterface, E: ErrorModelInterface>(rm: R::V, em: E::V)
    requires
        R::v_inv(rm),
    ensures
        drain_res::<R, E>(rm, em) matches Ok((a, b)) ==> R::v_inv(a),
    decreases R::pending(rm),
{
    R::lemma_batch_nonempty(rm);
    R::lemma_drain_progress(rm, 0, 0);
    if let Ok((rm1, Some(bm))) = R::next_ops_res(rm) {
        if let Ok((em1, bs, us)) = E::handle_res(em, bm.ops) {
            lemma_writeback_bools_wf::<R>(rm1, bs);
            if let Ok(rm2) = writeback_bools::<R>(rm1, bs) {
                lemma_writeback_u64s_wf::<R>(rm2, us);
                if let Ok(rm3) = writeback_u64s::<R>(rm2, us) {
                    lemma_drain_wf::<R, E>(rm3, em1);
                }
            }
        }
    }
}

/// One result per measurement, seen at the orchestrator: whenever a drain
/// round consumes a batch, the results the error model returns — and which
/// the round then writes back, one write per handle — answer exactly the
/// batch's measurements: one boolean result per `Measure` and one 64-bit
/// result per `MeasureLeaked`, under the same handles and in the same order.
pub proof fn lemma_drain_round_answers_batch<R: RuntimeInterface, E: ErrorModelInterface>(
    rm: R::V,
    em: E::V,
)
    requires
        E::v_inv(em),
    ensures
        match R::next_ops_res(rm) {
            Ok((rm1, Some(bm))) => match E::handle_res(em, bm.ops) {
                Ok((em1, bs, us)) => {
                    &&& bs.map_values(|e: BoolResult64| e.result_id) == crate::ops::measure_ids(
                        bm.ops,
                    )
                    &&& us.map_values(|e: U64Result64| e.result_id)
                        == crate::ops::measure_leaked_ids(bm.ops)
                },
                Err(t) => true,
            },
            _ => true,
        },
{
    if let Ok((rm1, Some(bm))) = R::next_ops_res(rm) {
        E::lemma_results_match(em, bm.ops);
    }
}

/// What reading a 64-bit future through the orchestrator does: a resolved
/// handle reads immediately and changes nothing; an unresolved one is
/// forced, the runtime is drained, and the handle is read again — a handle
/// still unresolved after that fails `FutureNeverResolved`. The error
/// carries the states the attempt left behind.
pub open spec fn read_u64_res<R: RuntimeInterface, E: ErrorModelInterface>(
    rm: R::V,
    em: E::V,
    h: u64,
) -> Result<(R::V, E::V, u64), (R::V, E::V, EmuError)> {
    match R::get_result_res(rm, h) {
        Err(e) => Err((rm, em, e)),
        Ok(Some(x)) => Ok((rm, em, x)),
        Ok(None) => match R::force_res(rm, h) {
            Err(e) => Err((rm, em, e)),
            Ok(rm1) => match drain_res::<R, E>(rm1, em) {
                Err(t) => Err(t),
                Ok((a, b)) => match R::get_result_res(a, h) {
                    Err(e) => Err((a, b, e)),
                    Ok(Some(x)) => Ok((a, b, x)),
                    Ok(None) => Err((a, b, EmuError::FutureNeverResolved)),
                },
            },
        },
    }
}

/// What requesting a measurement and immediately reading it does: the
/// runtime hands out a fresh handle, the emission is drained, and the handle
/// is read as a boolean.
pub open spec fn eager_measure_res<R: RuntimeInterface, E: ErrorModelInterface>(
    rm: R::V,
    em: E::V,
    q0: u64,
) -> Result<(R::V, E::V, bool), (R::V, E::V, EmuError)> {
    match R::measure_res(rm, q0, false) {
        Err(e) => Err((rm, em, e)),
        Ok((rm1, h)) => match drain_res::<R, E>(rm1, em) {
            Err(t) => Err(t),
            Ok((a, b)) => match read_u64_res::<R, E>(a, b, h) {
                Err(t) => Err(t),
                Ok((a2, b2, x)) => Ok((a2, b2, x > 0)),
            },
        },
    }
}

/// One emulation instance: a runtime, an error model (driving its inner
/// simulator), and the lifecycle state.
pub struct Emulator<R, E> {
    runtime: R,
    error_model: E,
    state: EmulatorState,
}

impl<R: RuntimeInterface, E: ErrorModelInterface> Emulator<R, E> {
    /// The runtime's model.
    pub closed spec fn rt(&self) -> R::V {
        self.runtime@
    }

    /// The error model's model.
    pub closed spec fn em(&self) -> E::V {
        self.error_model@
    }

    /// The lifecycle state.
    pub closed spec fn lifecycle(&self) -> EmulatorState {
        self.state
    }

    /// Well-formedness of the instance.
    pub closed spec fn inv(&self) -> bool {
        self.runtime.inv() && self.error_model.inv()
    }

    /// Assemble an emulation instance from its components.
    pub fn new(runtime: R, error_model: E) -> (r: Emulator<R, E>)
        requires
            runtime.inv(),
            error_model.inv(),
        ensures
            r.inv(),
            r.rt() == runtime@,
            r.em() == error_model@,
            r.lifecycle() == EmulatorState::Uninitialized,
    {
        Emulator { runtime, error_model, state: EmulatorState::Uninitialized }
    }

    /// The current lifecycle state.
    pub fn lifecycle_state(&self) -> (r: EmulatorState)
        ensures
            r == self.lifecycle(),
    {
        self.state
    }

    /// Drain the runtime: repeatedly fetch the next batch, hand it to the
    /// error model, and write every returned result back, until the runtime
    /// reports "nothing now". The first failing call aborts the drain and
    /// its error is returned, never swallowed; what was already applied
    /// stays applied.
    fn process_runtime(&mut self) -> (r: Result<(), EmuError>)
        requires
            old(self).inv(),
        ensures
            final(self).inv(),
            final(self).lifecycle() == old(self).lifecycle(),
            match drain_res::<R, E>(old(self).rt(), old(self).em()) {
                Ok((a, b)) => r is Ok && final(self).rt() == a && final(self).em() == b,
                Err((a, b, e)) => r == Err::<(), EmuError>(e) && final(self).rt() == a && final(self).em() == b,
            },
    {
        let ghost rm0 = self.runtime@;
        let ghost em0 = self.error_model@;
        loop
            invariant
                self.inv(),
                self.state == old(self).state,
                rm0 == old(self).rt(),
                em0 == old(self).em(),
                drain_res::<R, E>(rm0, em0) == drain_res::<R, E>(
                    self.runtime@,
                    self.error_model@,
                ),
            decreases R::pending(self.runtime@),
        {
            let ghost rm_round = self.runtime@;
            let ghost em_round = self.error_model@;
            proof {
                self.runtime.lemma_inv_model();
                R::lemma_drain_progress(rm_round, 0, 0);
                R::lemma_batch_nonempty(rm_round);
            }
            let maybe_batch = match self.runtime.get_next_operations() {
                Ok(b) => b,
                Err(e) => {
                    proof {
                        assert(drain_res::<R, E>(rm_round, em_round) == Err::<
                            (R::V, E::V),
                            (R::V, E::V, EmuError),
                        >((rm_round, em_round, e)));
                    }
                    return Err(e);
                },
            };
            let batch = match maybe_batch {
                Some(batch) => batch,
                None => {
                    proof {
                        assert(drain_res::<R, E>(rm_round, em_round) == Ok::<
                            (R::V, E::V),
                            (R::V, E::V, EmuError),
                        >((self.runtime@, self.error_model@)));
                    }
                    return Ok(());
                },
            };
            let ghost bm = batch@;
            let ghost rm1 = self.runtime@;
            let results = match self.error_model.handle_operations(batch) {
                Ok(res) => res,
                Err(e) => {
                    proof {
                        assert(drain_res::<R, E>(rm_round, em_round) == Err::<
                            (R::V, E::V),
                            (R::V, E::V, EmuError),
                        >((self.runtime@, self.error_model@, e)));
                    }
                    return Err(e);
                },
            };
            let ghost bs = results.bool_results@;
            let ghost us = results.u64_results@;
            let ghost em1 = self.error_model@;
            let mut i: usize = 0;
            while i < results.bool_results.len()
                invariant
                    self.inv(),
                    self.state == old(self).state,
                    i <= results.bool_results.len(),
                    results.bool_results@ == bs,
                    results.u64_results@ == us,
                    writeback_bools::<R>(rm1, bs.take(i as int)) == Ok::<R::V, (R::V, EmuError)>(
                        self.runtime@,
                    ),
                    self.error_model@ == em1,
                    R::v_inv(rm1),
                    R::v_inv(rm_round),
                    R::v_inv(self.runtime@),
                    R::pending(self.runtime@) <= R::pending(rm1),
                    rm0 == old(self).rt(),
                    em0 == old(self).em(),
                    drain_res::<R, E>(rm0, em0) == drain_res::<R, E>(rm_round, em_round),
                    R::next_ops_res(rm_round) == Ok::<
                        (R::V, Option<crate::ops::BatchModel>),
                        EmuError,
                    >((rm1, Some(bm))),
                    E::handle_res(em_round, bm.ops) == Ok::<
                        (E::V, Seq<BoolResult64>, Seq<U64Result64>),
                        (E::V, EmuError),
                    >((em1, bs, us)),
                decreases results.bool_results.len() - i,
            {
                proof {
                    assert(bs.take(i + 1).drop_last() =~= bs.take(i as int));
                    assert(bs.take(i + 1).last() == bs[i as int]);
                }
                let entry = results.bool_results[i];
                proof {
                    self.runtime.lemma_inv_model();
                    R::lemma_drain_progress(
                        self.runtime@,
                        entry.result_id,
                        if entry.value {
                            1
                        } else {
                            0
                        },
                    );
                    R::lemma_step_wf(
                        self.runtime@,
                        GateOp::Reset { qubit: 0 },
                        0,
                        entry.result_id,
                        if entry.value {
                            1
                        } else {
                            0
                        },
                        Seq::empty(),
                        0,
                        0,
                        Seq::empty(),
                        0,
                        0,
                    );
                }
                match self.runtime.set_bool_result(entry.result_id, entry.value) {
                    Ok(()) => {},
                    Err(e) => {
                        proof {
                            assert(writeback_bools::<R>(rm1, bs.take(i + 1)) == Err::<
                                R::V,
                                (R::V, EmuError),
                            >((self.runtime@, e)));
                            lemma_writeback_bools_err_prefix::<R>(rm1, bs, i + 1);
                            assert(drain_res::<R, E>(rm_round, em_round) == Err::<
                                (R::V, E::V),
                                (R::V, E::V, EmuError),
                            >((self.runtime@, self.error_model@, e)));
                        }
                        return Err(e);
                    },
                }
                i = i + 1;
            }
            proof {
                assert(bs.take(bs.len() as int) =~= bs);
            }
            let ghost rm2 = self.runtime@;
            let mut j: usize = 0;
            while j < results.u64_results.len()
                invariant
                    self.inv(),
                    self.state == old(self).state,
                    j <= results.u64_results.len(),
                    results.u64_results@ == us,
                    writeback_u64s::<R>(rm2, us.take(j as int)) == Ok::<R::V, (R::V, EmuError)>(
                        self.runtime@,
                    ),
                    self.error_model@ == em1,
                    R::v_inv(rm2),
                    R::v_inv(rm_round),
                    R::v_inv(self.runtime@),
                    R::pending(self.runtime@) <= R::pending(rm2),
                    rm0 == old(self).rt(),
                    em0 == old(self).em(),
                    drain_res::<R, E>(rm0, em0) == drain_res::<R, E>(rm_round, em_round),
                    R::next_ops_res(rm_round) == Ok::<
                        (R::V, Option<crate::ops::BatchModel>),
                        EmuError,
                    >((rm1, Some(bm))),
                    E::handle_res(em_round, bm.ops) == Ok::<
                        (E::V, Seq<BoolResult64>, Seq<U64Result64>),
                        (E::V, EmuError),
                    >((em1, bs, us)),
                    writeback_bools::<R>(rm1, bs) == Ok::<R::V, (R::V, EmuError)>(rm2),
                decreases results.u64_results.len() - j,
            {
                proof {
                    assert(us.take(j + 1).drop_last() =~= us.take(j as int));
                    assert(us.take(j + 1).last() == us[j as int]);
                }
                let entry = results.u64_results[j];
                proof {
                    self.runtime.lemma_inv_model();
                    R::lemma_drain_progress(self.runtime@, entry.result_id, entry.value);
                    R::lemma_step_wf(
                        self.runtime@,
                        GateOp::Reset { qubit: 0 },
                        0,
                        entry.result_id,
                        entry.value,
                        Seq::empty(),
                        0,
                        0,
                        Seq::empty(),
                        0,
                        0,
                    );
                }
                match self.runtime.set_u64_result(entry.result_id, entry.value) {
                    Ok(()) => {},
                    Err(e) => {
                        proof {
                            assert(writeback_u64s::<R>(rm2, us.take(j + 1)) == Err::<
                                R::V,
                                (R::V, EmuError),
                            >((self.runtime@, e)));
                            lemma_writeback_u64s_err_prefix::<R>(rm2, us, j + 1);
                            assert(drain_res::<R, E>(rm_round, em_round) == Err::<
                                (R::V, E::V),
                                (R::V, E::V, EmuError),
                            >((self.runtime@, self.error_model@, e)));
                        }
                        return Err(e);
                    },
                }
                j = j + 1;
            }
            proof {
                assert(us.take(us.len() as int) =~= us);
                assert(drain_res::<R, E>(rm_round, em_round) == drain_res::<R, E>(
                    self.runtime@,
                    self.error_model@,
                ));
            }
        }
    }

    /// Drive any operations the runtime wants to emit through the error
    /// model now.
    pub fn poke(&mut self) -> (r: Result<(), EmuError>)
        requires
            old(self).inv(),
        ensures
            final(self).inv(),
            final(self).lifecycle() == old(self).lifecycle(),
            match drain_res::<R, E>(old(self).rt(), old(self).em()) {
                Ok((a, b)) => r is Ok && final(self).rt() == a && final(self).em() == b,
                Err((a, b, e)) => r == Err::<(), EmuError>(e) && final(self).rt() == a && final(self).em() == b,
            },
    {
        self.process_runtime()
    }

    /// Begin a shot: seed all three components independently, reset their
    /// per-shot state, then drain anything the runtime wants to emit before
    /// the first user call. The first failing step aborts the call and its
    /// error propagates; the shot does not become active.
    pub fn shot_start(
        &mut self,
        shot_id: u64,
        runtime_seed: u64,
        error_model_seed: u64,
        simulator_seed: u64,
    ) -> (r: Result<(), EmuError>)
        requires
            old(self).inv(),
        ensures
            final(self).inv(),
            (old(self).lifecycle() == EmulatorState::ShotActive || old(self).lifecycle()
                == EmulatorState::Exited) ==> r == Err::<(), EmuError>(EmuError::InvalidState)
                && *final(self) == *old(self),
            (old(self).lifecycle() == EmulatorState::Uninitialized || old(self).lifecycle()
                == EmulatorState::ShotEnded) ==> (match R::shot_start_res(
                old(self).rt(),
                shot_id,
                runtime_seed,
            ) {
                Err(e) => r == Err::<(), EmuError>(e) && final(self).rt() == old(self).rt()
                    && final(self).em() == old(self).em() && final(self).lifecycle() == old(
                    self,
                ).lifecycle(),
                Ok(rm1) => match E::shot_start_res(
                    old(self).em(),
                    shot_id,
                    error_model_seed,
                    simulator_seed,
                ) {
                    Err(e) => r == Err::<(), EmuError>(e) && final(self).rt() == rm1 && final(self).em() == old(self).em() && final(self).lifecycle() == old(self).lifecycle(),
                    Ok(em1) => match drain_res::<R, E>(rm1, em1) {
                        Ok((a, b)) => r is Ok && final(self).rt() == a && final(self).em() == b
                            && final(self).lifecycle() == EmulatorState::ShotActive,
                        Err((a, b, e)) => r == Err::<(), EmuError>(e) && final(self).rt() == a
                            && final(self).em() == b && final(self).lifecycle() == old(
                            self,
                        ).lifecycle(),
                    },
                },
            }),
    {
        match self.state {
            EmulatorState::ShotActive => {
                return Err(EmuError::InvalidState);
            },
            EmulatorState::Exited => {
                return Err(EmuError::InvalidState);
            },
            _ => {},
        }
        self.runtime.shot_start(shot_id, runtime_seed)?;
        self.error_model.shot_start(shot_id, error_model_seed, simulator_seed)?;
        self.process_runtime()?;
        self.state = EmulatorState::ShotActive;
        Ok(())
    }

    /// End the current shot: the runtime may emit a final batch, which is
    /// drained, and then the error model ends its shot (and its inner
    /// simulator's). The first failing step aborts the call and its error
    /// propagates, never swallowed; the shot then stays active.
    pub fn shot_end(&mut self) -> (r: Result<(), EmuError>)
        requires
            old(self).inv(),
        ensures
            final(self).inv(),
            old(self).lifecycle() != EmulatorState::ShotActive ==> r == Err::<(), EmuError>(
                EmuError::InvalidState,
            ) && *final(self) == *old(self),
            old(self).lifecycle() == EmulatorState::ShotActive ==> (match R::shot_end_res(
                old(self).rt(),
            ) {
                Err(e) => r == Err::<(), EmuError>(e) && final(self).rt() == old(self).rt()
                    && final(self).em() == old(self).em() && final(self).lifecycle()
                    == EmulatorState::ShotActive,
                Ok(rm1) => match drain_res::<R, E>(rm1, old(self).em()) {
                    Err((a, b, e)) => r == Err::<(), EmuError>(e) && final(self).rt() == a && final(self).em() == b && final(self).lifecycle() == EmulatorState::ShotActive,
                    Ok((a, b)) => match E::shot_end_res(b) {
                        Err(e) => r == Err::<(), EmuError>(e) && final(self).rt() == a && final(self).em() == b && final(self).lifecycle() == EmulatorState::ShotActive,
                        Ok(em2) => r is Ok && final(self).rt() == a && final(self).em() == em2
                            && final(self).lifecycle() == EmulatorState::ShotEnded,
                    },
                },
            }),
    {
        match self.state {
            EmulatorState::ShotActive => {},
            _ => {
                return Err(EmuError::InvalidState);
            },
        }
        self.runtime.shot_end()?;
        self.process_runtime()?;
        self.error_model.shot_end()?;
        self.state = EmulatorState::ShotEnded;
        Ok(())
    }

    /// Shut the instance down; no further calls are permitted. The runtime
    /// releases its per-shot state, the error model's state survives
    /// unchanged, and a failing component exit propagates with the lifecycle
    /// not advanced.
    pub fn exit(&mut self) -> (r: Result<(), EmuError>)
        requires
            old(self).inv(),
        ensures
            final(self).inv(),
            final(self).em() == old(self).em(),
            match R::exit_res(old(self).rt()) {
                Err(e) => r == Err::<(), EmuError>(e) && final(self).rt() == old(self).rt()
                    && final(self).lifecycle() == old(self).lifecycle(),
                Ok(rm1) => match E::exit_res(old(self).em()) {
                    Err(e) => r == Err::<(), EmuError>(e) && final(self).rt() == rm1 && final(self).lifecycle() == old(self).lifecycle(),
                    Ok(u) => r is Ok && final(self).rt() == rm1 && final(self).lifecycle()
                        == EmulatorState::Exited,
                },
            },
    {
        self.runtime.exit()?;
        self.error_model.exit()?;
        self.state = EmulatorState::Exited;
        Ok(())
    }

    /// Forward a single-qubit RXY gate request to the runtime, then drain. The runtime's
    /// rejection or the first failing drain call propagates.
    pub fn user_issued_rxy(&mut self, q0: u64, theta: u64, phi: u64) -> (r: Result<(), EmuError>)
        requires
            old(self).inv(),
        ensures
            final(self).inv(),
            final(self).lifecycle() == old(self).lifecycle(),
            old(self).lifecycle() != EmulatorState::ShotActive ==> r == Err::<(), EmuError>(
                EmuError::InvalidState,
            ) && *final(self) == *old(self),
            old(self).lifecycle() == EmulatorState::ShotActive ==> (match R::gate_res(
                old(self).rt(),
                GateOp::Rxy { qubit: q0, theta, phi },
            ) {
                Err(e) => r == Err::<(), EmuError>(e) && final(self).rt() == old(self).rt()
                    && final(self).em() == old(self).em(),
                Ok(rm1) => match drain_res::<R, E>(rm1, old(self).em()) {
                    Ok((a, b)) => r is Ok && final(self).rt() == a && final(self).em() == b,
                    Err((a, b, e)) => r == Err::<(), EmuError>(e) && final(self).rt() == a && final(self).em() == b,
                },
            }),
    {
        match self.state {
            EmulatorState::ShotActive => {},
            _ => {
                return Err(EmuError::InvalidState);
            },
        }
        self.runtime.rxy_gate(q0, theta, phi)?;
        self.process_runtime()
    }

    /// Forward a single-qubit RZ gate request to the runtime, then drain. The runtime's
    /// rejection or the first failing drain call propagates.
    pub fn user_issued_rz(&mut self, q0: u64, theta: u64) -> (r: Result<(), EmuError>)
        requires
            old(self).inv(),
        ensures
            final(self).inv(),
            final(self).lifecycle() == old(self).lifecycle(),
            old(self).lifecycle() != EmulatorState::ShotActive ==> r == Err::<(), EmuError>(
                EmuError::InvalidState,
            ) && *final(self) == *old(self),
            old(self).lifecycle() == EmulatorState::ShotActive ==> (match R::gate_res(
                old(self).rt(),
                GateOp::Rz { qubit: q0, theta },
            ) {
                Err(e) => r == Err::<(), EmuError>(e) && final(self).rt() == old(self).rt()
                    && final(self).em() == old(self).em(),
                Ok(rm1) => match drain_res::<R, E>(rm1, old(self).em()) {
                    Ok((a, b)) => r is Ok && final(self).rt() == a && final(self).em() == b,
                    Err((a, b, e)) => r == Err::<(), EmuError>(e) && final(self).rt() == a && final(self).em() == b,
                },
            }),
    {
        match self.state {
            EmulatorState::ShotActive => {},
            _ => {
                return Err(EmuError::InvalidState);
            },
        }
        self.runtime.rz_gate(q0, theta)?;
        self.process_runtime()
    }

    /// Forward a two-qubit RZZ gate request to the runtime, then drain. The runtime's
    /// rejection or the first failing drain call propagates.
    pub fn user_issued_rzz(&mut self, q0: u64, q1: u64, theta: u64) -> (r: Result<(), EmuError>)
        requires
            old(self).inv(),
        ensures
            final(self).inv(),
            final(self).lifecycle() == old(self).lifecycle(),
            old(self).lifecycle() != EmulatorState::ShotActive ==> r == Err::<(), EmuError>(
                EmuError::InvalidState,
            ) && *final(self) == *old(self),
            old(self).lifecycle() == EmulatorState::ShotActive ==> (match R::gate_res(
                old(self).rt(),
                GateOp::Rzz { qubit_1: q0, qubit_2: q1, theta },
            ) {
                Err(e) => r == Err::<(), EmuError>(e) && final(self).rt() == old(self).rt()
                    && final(self).em() == old(self).em(),
                Ok(rm1) => match drain_res::<R, E>(rm1, old(self).em()) {
                    Ok((a, b)) => r is Ok && final(self).rt() == a && final(self).em() == b,
                    Err((a, b, e)) => r == Err::<(), EmuError>(e) && final(self).rt() == a && final(self).em() == b,
                },
            }),
    {
        match self.state {
            EmulatorState::ShotActive => {},
            _ => {
                return Err(EmuError::InvalidState);
            },
        }
        self.runtime.rzz_gate(q0, q1, theta)?;
        self.process_runtime()
    }

    /// Forward a twin RXY gate request to the runtime, then drain. The runtime's
    /// rejection or the first failing drain call propagates.
    pub fn user_issued_twin_rxy(&mut self, q0: u64, q1: u64, theta: u64, phi: u64) -> (r: Result<(), EmuError>)
        requires
            old(self).inv(),
        ensures
            final(self).inv(),
            final(self).lifecycle() == old(self).lifecycle(),
            old(self).lifecycle() != EmulatorState::ShotActive ==> r == Err::<(), EmuError>(
                EmuError::InvalidState,
            ) && *final(self) == *old(self),
            old(self).lifecycle() == EmulatorState::ShotActive ==> (match R::gate_res(
                old(self).rt(),
                GateOp::TwinRxy { qubit_1: q0, qubit_2: q1, theta, phi },
            ) {
                Err(e) => r == Err::<(), EmuError>(e) && final(self).rt() == old(self).rt()
                    && final(self).em() == old(self).em(),
                Ok(rm1) => match drain_res::<R, E>(rm1, old(self).em()) {
                    Ok((a, b)) => r is Ok && final(self).rt() == a && final(self).em() == b,
                    Err((a, b, e)) => r == Err::<(), EmuError>(e) && final(self).rt() == a && final(self).em() == b,
                },
            }),
    {
        match self.state {
            EmulatorState::ShotActive => {},
            _ => {
                return Err(EmuError::InvalidState);
            },
        }
        self.runtime.twin_rxy_gate(q0, q1, theta, phi)?;
        self.process_runtime()
    }

    /// Forward a two-qubit RPP gate request to the runtime, then drain. The runtime's
    /// rejection or the first failing drain call propagates.
    pub fn user_issued_rpp(&mut self, q0: u64, q1: u64, theta: u64, phi: u64) -> (r: Result<(), EmuError>)
        requires
            old(self).inv(),
        ensures
            final(self).inv(),
            final(self).lifecycle() == old(self).lifecycle(),
            old(self).lifecycle() != EmulatorState::ShotActive ==> r == Err::<(), EmuError>(
                EmuError::InvalidState,
            ) && *final(self) == *old(self),
            old(self).lifecycle() == EmulatorState::ShotActive ==> (match R::gate_res(
                old(self).rt(),
                GateOp::Rpp { qubit_1: q0, qubit_2: q1, theta, phi },
            ) {
                Err(e) => r == Err::<(), EmuError>(e) && final(self).rt() == old(self).rt()
                    && final(self).em() == old(self).em(),
                Ok(rm1) => match drain_res::<R, E>(rm1, old(self).em()) {
                    Ok((a, b)) => r is Ok && final(self).rt() == a && final(self).em() == b,
                    Err((a, b, e)) => r == Err::<(), EmuError>(e) && final(self).rt() == a && final(self).em() == b,
                },
            }),
    {
        match self.state {
            EmulatorState::ShotActive => {},
            _ => {
                return Err(EmuError::InvalidState);
            },
        }
        self.runtime.rpp_gate(q0, q1, theta, phi)?;
        self.process_runtime()
    }

    /// Forward a two-qubit TK2 gate request to the runtime, then drain. The runtime's
    /// rejection or the first failing drain call propagates.
    pub fn user_issued_tk2(&mut self, q0: u64, q1: u64, alpha: u64, beta: u64, gamma: u64) -> (r: Result<(), EmuError>)
        requires
            old(self).inv(),
        ensures
            final(self).inv(),
            final(self).lifecycle() == old(self).lifecycle(),
            old(self).lifecycle() != EmulatorState::ShotActive ==> r == Err::<(), EmuError>(
                EmuError::InvalidState,
            ) && *final(self) == *old(self),
            old(self).lifecycle() == EmulatorState::ShotActive ==> (match R::gate_res(
                old(self).rt(),
                GateOp::Tk2 { qubit_1: q0, qubit_2: q1, alpha, beta, gamma },
            ) {
                Err(e) => r == Err::<(), EmuError>(e) && final(self).rt() == old(self).rt()
                    && final(self).em() == old(self).em(),
                Ok(rm1) => match drain_res::<R, E>(rm1, old(self).em()) {
                    Ok((a, b)) => r is Ok && final(self).rt() == a && final(self).em() == b,
                    Err((a, b, e)) => r == Err::<(), EmuError>(e) && final(self).rt() == a && final(self).em() == b,
                },
            }),
    {
        match self.state {
            EmulatorState::ShotActive => {},
            _ => {
                return Err(EmuError::InvalidState);
            },
        }
        self.runtime.tk2_gate(q0, q1, alpha, beta, gamma)?;
        self.process_runtime()
    }

    /// Forward a qubit reset request to the runtime, then drain. The runtime's
    /// rejection or the first failing drain call propagates.
    pub fn user_issued_reset(&mut self, q0: u64) -> (r: Result<(), EmuError>)
        requires
            old(self).inv(),
        ensures
            final(self).inv(),
            final(self).lifecycle() == old(self).lifecycle(),
            old(self).lifecycle() != EmulatorState::ShotActive ==> r == Err::<(), EmuError>(
                EmuError::InvalidState,
            ) && *final(self) == *old(self),
            old(self).lifecycle() == EmulatorState::ShotActive ==> (match R::gate_res(
                old(self).rt(),
                GateOp::Reset { qubit: q0 },
            ) {
                Err(e) => r == Err::<(), EmuError>(e) && final(self).rt() == old(self).rt()
                    && final(self).em() == old(self).em(),
                Ok(rm1) => match drain_res::<R, E>(rm1, old(self).em()) {
                    Ok((a, b)) => r is Ok && final(self).rt() == a && final(self).em() == b,
                    Err((a, b, e)) => r == Err::<(), EmuError>(e) && final(self).rt() == a && final(self).em() == b,
                },
            }),
    {
        match self.state {
            EmulatorState::ShotActive => {},
            _ => {
                return Err(EmuError::InvalidState);
            },
        }
        self.runtime.reset(q0)?;
        self.process_runtime()
    }

    /// Ask the runtime to free a qubit, then drain. The runtime's rejection or the first failing drain call
    /// propagates.
    pub fn user_issued_qfree(&mut self, q0: u64) -> (r: Result<(), EmuError>)
        requires
            old(self).inv(),
        ensures
            final(self).inv(),
            final(self).lifecycle() == old(self).lifecycle(),
            old(self).lifecycle() != EmulatorState::ShotActive ==> r == Err::<(), EmuError>(
                EmuError::InvalidState,
            ) && *final(self) == *old(self),
            old(self).lifecycle() == EmulatorState::ShotActive ==> (match R::qfree_res(old(self).rt(), q0) {
                Err(e) => r == Err::<(), EmuError>(e) && final(self).rt() == old(self).rt()
                    && final(self).em() == old(self).em(),
                Ok(rm1) => match drain_res::<R, E>(rm1, old(self).em()) {
                    Ok((a, b)) => r is Ok && final(self).rt() == a && final(self).em() == b,
                    Err((a, b, e)) => r == Err::<(), EmuError>(e) && final(self).rt() == a && final(self).em() == b,
                },
            }),
    {
        match self.state {
            EmulatorState::ShotActive => {},
            _ => {
                return Err(EmuError::InvalidState);
            },
        }
        self.runtime.qfree(q0)?;
        self.process_runtime()
    }

    /// Raise a future handle's reference count, then drain. The runtime's rejection or the first failing drain call
    /// propagates.
    pub fn user_issued_increment_measurement_refcount(&mut self, result_id: u64) -> (r: Result<(), EmuError>)
        requires
            old(self).inv(),
        ensures
            final(self).inv(),
            final(self).lifecycle() == old(self).lifecycle(),
            old(self).lifecycle() != EmulatorState::ShotActive ==> r == Err::<(), EmuError>(
                EmuError::InvalidState,
            ) && *final(self) == *old(self),
            old(self).lifecycle() == EmulatorState::ShotActive ==> (match R::incref_res(old(self).rt(), result_id) {
                Err(e) => r == Err::<(), EmuError>(e) && final(self).rt() == old(self).rt()
                    && final(self).em() == old(self).em(),
                Ok(rm1) => match drain_res::<R, E>(rm1, old(self).em()) {
                    Ok((a, b)) => r is Ok && final(self).rt() == a && final(self).em() == b,
                    Err((a, b, e)) => r == Err::<(), EmuError>(e) && final(self).rt() == a && final(self).em() == b,
                },
            }),
    {
        match self.state {
            EmulatorState::ShotActive => {},
            _ => {
                return Err(EmuError::InvalidState);
            },
        }
        self.runtime.increment_future_refcount(result_id)?;
        self.process_runtime()
    }

    /// Lower a future handle's reference count, then drain. The runtime's rejection or the first failing drain call
    /// propagates.
    pub fn user_issued_decrement_measurement_refcount(&mut self, result_id: u64) -> (r: Result<(), EmuError>)
        requires
            old(self).inv(),
        ensures
            final(self).inv(),
            final(self).lifecycle() == old(self).lifecycle(),
            old(self).lifecycle() != EmulatorState::ShotActive ==> r == Err::<(), EmuError>(
                EmuError::InvalidState,
            ) && *final(self) == *old(self),
            old(self).lifecycle() == EmulatorState::ShotActive ==> (match R::decref_res(old(self).rt(), result_id) {
                Err(e) => r == Err::<(), EmuError>(e) && final(self).rt() == old(self).rt()
                    && final(self).em() == old(self).em(),
                Ok(rm1) => match drain_res::<R, E>(rm1, old(self).em()) {
                    Ok((a, b)) => r is Ok && final(self).rt() == a && final(self).em() == b,
                    Err((a, b, e)) => r == Err::<(), EmuError>(e) && final(self).rt() == a && final(self).em() == b,
                },
            }),
    {
        match self.state {
            EmulatorState::ShotActive => {},
            _ => {
                return Err(EmuError::InvalidState);
            },
        }
        self.runtime.decrement_future_refcount(result_id)?;
        self.process_runtime()
    }

    /// Forward a barrier on the given qubits to the runtime, then drain. The runtime's rejection or the first failing drain call
    /// propagates.
    pub fn user_issued_local_barrier(&mut self, qubits: &Vec<u64>, sleep_time: u64) -> (r: Result<(), EmuError>)
        requires
            old(self).inv(),
        ensures
            final(self).inv(),
            final(self).lifecycle() == old(self).lifecycle(),
            old(self).lifecycle() != EmulatorState::ShotActive ==> r == Err::<(), EmuError>(
                EmuError::InvalidState,
            ) && *final(self) == *old(self),
            old(self).lifecycle() == EmulatorState::ShotActive ==> (match R::local_barrier_res(old(self).rt(), qubits@, sleep_time) {
                Err(e) => r == Err::<(), EmuError>(e) && final(self).rt() == old(self).rt()
                    && final(self).em() == old(self).em(),
                Ok(rm1) => match drain_res::<R, E>(rm1, old(self).em()) {
                    Ok((a, b)) => r is Ok && final(self).rt() == a && final(self).em() == b,
                    Err((a, b, e)) => r == Err::<(), EmuError>(e) && final(self).rt() == a && final(self).em() == b,
                },
            }),
    {
        match self.state {
            EmulatorState::ShotActive => {},
            _ => {
                return Err(EmuError::InvalidState);
            },
        }
        self.runtime.local_barrier(qubits, sleep_time)?;
        self.process_runtime()
    }

    /// Forward a barrier on all qubits to the runtime, then drain. The runtime's rejection or the first failing drain call
    /// propagates.
    pub fn user_issued_global_barrier(&mut self, sleep_time: u64) -> (r: Result<(), EmuError>)
        requires
            old(self).inv(),
        ensures
            final(self).inv(),
            final(self).lifecycle() == old(self).lifecycle(),
            old(self).lifecycle() != EmulatorState::ShotActive ==> r == Err::<(), EmuError>(
                EmuError::InvalidState,
            ) && *final(self) == *old(self),
            old(self).lifecycle() == EmulatorState::ShotActive ==> (match R::global_barrier_res(old(self).rt(), sleep_time) {
                Err(e) => r == Err::<(), EmuError>(e) && final(self).rt() == old(self).rt()
                    && final(self).em() == old(self).em(),
                Ok(rm1) => match drain_res::<R, E>(rm1, old(self).em()) {
                    Ok((a, b)) => r is Ok && final(self).rt() == a && final(self).em() == b,
                    Err((a, b, e)) => r == Err::<(), EmuError>(e) && final(self).rt() == a && final(self).em() == b,
                },
            }),
    {
        match self.state {
            EmulatorState::ShotActive => {},
            _ => {
                return Err(EmuError::InvalidState);
            },
        }
        self.runtime.global_barrier(sleep_time)?;
        self.process_runtime()
    }

    /// Ask the runtime for a fresh qubit, then drain. `u64::MAX` reports
    /// exhaustion, which is not an error; any failure propagates.
    pub fn user_issued_qalloc(&mut self) -> (r: Result<u64, EmuError>)
        requires
            old(self).inv(),
        ensures
            final(self).inv(),
            final(self).lifecycle() == old(self).lifecycle(),
            old(self).lifecycle() != EmulatorState::ShotActive ==> r == Err::<u64, EmuError>(
                EmuError::InvalidState,
            ) && *final(self) == *old(self),
            old(self).lifecycle() == EmulatorState::ShotActive ==> (match R::qalloc_res(
                old(self).rt(),
            ) {
                Err(e) => r == Err::<u64, EmuError>(e) && final(self).rt() == old(self).rt()
                    && final(self).em() == old(self).em(),
                Ok((rm1, id)) => match drain_res::<R, E>(rm1, old(self).em()) {
                    Ok((a, b)) => r == Ok::<u64, EmuError>(id) && final(self).rt() == a && final(self).em() == b,
                    Err((a, b, e)) => r == Err::<u64, EmuError>(e) && final(self).rt() == a
                        && final(self).em() == b,
                },
            }),
    {
        match self.state {
            EmulatorState::ShotActive => {},
            _ => {
                return Err(EmuError::InvalidState);
            },
        }
        let address = self.runtime.qalloc()?;
        self.process_runtime()?;
        Ok(address)
    }

    /// Request a measurement: the runtime returns a fresh future handle, and
    /// the drain may already resolve it. Any failure propagates.
    pub fn user_issued_lazy_measure(&mut self, q0: u64) -> (r: Result<u64, EmuError>)
        requires
            old(self).inv(),
        ensures
            final(self).inv(),
            final(self).lifecycle() == old(self).lifecycle(),
            old(self).lifecycle() != EmulatorState::ShotActive ==> r == Err::<u64, EmuError>(
                EmuError::InvalidState,
            ) && *final(self) == *old(self),
            old(self).lifecycle() == EmulatorState::ShotActive ==> (match R::measure_res(
                old(self).rt(),
                q0,
                false,
            ) {
                Err(e) => r == Err::<u64, EmuError>(e) && final(self).rt() == old(self).rt()
                    && final(self).em() == old(self).em(),
                Ok((rm1, h)) => match drain_res::<R, E>(rm1, old(self).em()) {
                    Ok((a, b)) => r == Ok::<u64, EmuError>(h) && final(self).rt() == a && final(self).em() == b,
                    Err((a, b, e)) => r == Err::<u64, EmuError>(e) && final(self).rt() == a
                        && final(self).em() == b,
                },
            }),
    {
        match self.state {
            EmulatorState::ShotActive => {},
            _ => {
                return Err(EmuError::InvalidState);
            },
        }
        let result_id = self.runtime.measure(q0)?;
        self.process_runtime()?;
        Ok(result_id)
    }

    /// Request a leakage-detecting measurement: the runtime returns a fresh
    /// future handle, and the drain may already resolve it. Any failure
    /// propagates.
    pub fn user_issued_lazy_measure_leaked(&mut self, q0: u64) -> (r: Result<u64, EmuError>)
        requires
            old(self).inv(),
        ensures
            final(self).inv(),
            final(self).lifecycle() == old(self).lifecycle(),
            old(self).lifecycle() != EmulatorState::ShotActive ==> r == Err::<u64, EmuError>(
                EmuError::InvalidState,
            ) && *final(self) == *old(self),
            old(self).lifecycle() == EmulatorState::ShotActive ==> (match R::measure_res(
                old(self).rt(),
                q0,
                true,
            ) {
                Err(e) => r == Err::<u64, EmuError>(e) && final(self).rt() == old(self).rt()
                    && final(self).em() == old(self).em(),
                Ok((rm1, h)) => match drain_res::<R, E>(rm1, old(self).em()) {
                    Ok((a, b)) => r == Ok::<u64, EmuError>(h) && final(self).rt() == a && final(self).em() == b,
                    Err((a, b, e)) => r == Err::<u64, EmuError>(e) && final(self).rt() == a
                        && final(self).em() == b,
                },
            }),
    {
        match self.state {
            EmulatorState::ShotActive => {},
            _ => {
                return Err(EmuError::InvalidState);
            },
        }
        let result_id = self.runtime.measure_leaked(q0)?;
        self.process_runtime()?;
        Ok(result_id)
    }

    /// Forward a runtime-specific call, then drain in case it produced
    /// operations. Any failure propagates.
    pub fn custom_runtime_call(&mut self, tag: u64, data: &Vec<u8>) -> (r: Result<u64, EmuError>)
        requires
            old(self).inv(),
        ensures
            final(self).inv(),
            final(self).lifecycle() == old(self).lifecycle(),
            old(self).lifecycle() != EmulatorState::ShotActive ==> r == Err::<u64, EmuError>(
                EmuError::InvalidState,
            ) && *final(self) == *old(self),
            old(self).lifecycle() == EmulatorState::ShotActive ==> (match R::custom_res(
                old(self).rt(),
                tag,
                data@,
            ) {
                Err(e) => r == Err::<u64, EmuError>(e) && final(self).rt() == old(self).rt()
                    && final(self).em() == old(self).em(),
                Ok((rm1, v)) => match drain_res::<R, E>(rm1, old(self).em()) {
                    Ok((a, b)) => r == Ok::<u64, EmuError>(v) && final(self).rt() == a && final(self).em() == b,
                    Err((a, b, e)) => r == Err::<u64, EmuError>(e) && final(self).rt() == a
                        && final(self).em() == b,
                },
            }),
    {
        match self.state {
            EmulatorState::ShotActive => {},
            _ => {
                return Err(EmuError::InvalidState);
            },
        }
        let value = self.runtime.custom_call(tag, data)?;
        self.process_runtime()?;
        Ok(value)
    }

    /// Read a boolean future: a resolved handle reads immediately and
    /// changes nothing; an unresolved one is forced, the runtime is drained,
    /// and the handle is read again — a handle still unresolved after that
    /// fails `FutureNeverResolved`. Any failure propagates.
    pub fn user_issued_read_future_bool(&mut self, result_id: u64) -> (r: Result<bool, EmuError>)
        requires
            old(self).inv(),
        ensures
            final(self).inv(),
            final(self).lifecycle() == old(self).lifecycle(),
            old(self).lifecycle() != EmulatorState::ShotActive ==> r == Err::<bool, EmuError>(
                EmuError::InvalidState,
            ) && *final(self) == *old(self),
            old(self).lifecycle() == EmulatorState::ShotActive ==> (match read_u64_res::<R, E>(
                old(self).rt(),
                old(self).em(),
                result_id,
            ) {
                Ok((a, b, x)) => r == Ok::<bool, EmuError>(x > 0) && final(self).rt() == a && final(self).em() == b,
                Err((a, b, e)) => r == Err::<bool, EmuError>(e) && final(self).rt() == a && final(self).em() == b,
            }),
    {
        match self.state {
            EmulatorState::ShotActive => {},
            _ => {
                return Err(EmuError::InvalidState);
            },
        }
        match self.runtime.get_bool_result(result_id)? {
            Some(value) => Ok(value),
            None => {
                self.runtime.force_result(result_id)?;
                self.process_runtime()?;
                match self.runtime.get_bool_result(result_id)? {
                    Some(value) => Ok(value),
                    None => Err(EmuError::FutureNeverResolved),
                }
            },
        }
    }

    /// Read a 64-bit future: a resolved handle reads immediately and changes
    /// nothing; an unresolved one is forced, the runtime is drained, and the
    /// handle is read again — a handle still unresolved after that fails
    /// `FutureNeverResolved`. Any failure propagates.
    pub fn user_issued_read_future_u64(&mut self, result_id: u64) -> (r: Result<u64, EmuError>)
        requires
            old(self).inv(),
        ensures
            final(self).inv(),
            final(self).lifecycle() == old(self).lifecycle(),
            old(self).lifecycle() != EmulatorState::ShotActive ==> r == Err::<u64, EmuError>(
                EmuError::InvalidState,
            ) && *final(self) == *old(self),
            old(self).lifecycle() == EmulatorState::ShotActive ==> (match read_u64_res::<R, E>(
                old(self).rt(),
                old(self).em(),
                result_id,
            ) {
                Ok((a, b, x)) => r == Ok::<u64, EmuError>(x) && final(self).rt() == a && final(self).em() == b,
                Err((a, b, e)) => r == Err::<u64, EmuError>(e) && final(self).rt() == a && final(self).em() == b,
            }),
    {
        match self.state {
            EmulatorState::ShotActive => {},
            _ => {
                return Err(EmuError::InvalidState);
            },
        }
        match self.runtime.get_u64_result(result_id)? {
            Some(value) => Ok(value),
            None => {
                self.runtime.force_result(result_id)?;
                self.process_runtime()?;
                match self.runtime.get_u64_result(result_id)? {
                    Some(value) => Ok(value),
                    None => Err(EmuError::FutureNeverResolved),
                }
            },
        }
    }

    /// Request a measurement and immediately read its boolean outcome: the
    /// measurement's emission is drained through the error model and the
    /// fresh handle is read back — exactly the simulator outcome the error
    /// model reported for it.
    pub fn user_issued_eager_measure(&mut self, q0: u64) -> (r: Result<bool, EmuError>)
        requires
            old(self).inv(),
        ensures
            final(self).inv(),
            final(self).lifecycle() == old(self).lifecycle(),
            old(self).lifecycle() != EmulatorState::ShotActive ==> r == Err::<bool, EmuError>(
                EmuError::InvalidState,
            ) && *final(self) == *old(self),
            old(self).lifecycle() == EmulatorState::ShotActive ==> (match eager_measure_res::<R, E>(
                old(self).rt(),
                old(self).em(),
                q0,
            ) {
                Ok((a, b, v)) => r == Ok::<bool, EmuError>(v) && final(self).rt() == a && final(self).em() == b,
                Err((a, b, e)) => r == Err::<bool, EmuError>(e) && final(self).rt() == a && final(self).em() == b,
            }),
    {
        let result_id = self.user_issued_lazy_measure(q0)?;
        self.user_issued_read_future_bool(result_id)
    }

    /// Flush everything pending and forward a state-dump request to the
    /// error model's inner simulator. A failing barrier, drain or dump
    /// propagates.
    pub fn dump_quantum_state(&mut self, path: &String, qubits: &Vec<u64>) -> (r: Result<
        (),
        EmuError,
    >)
        requires
            old(self).inv(),
        ensures
            final(self).inv(),
            final(self).lifecycle() == old(self).lifecycle(),
            old(self).lifecycle() != EmulatorState::ShotActive ==> r == Err::<(), EmuError>(
                EmuError::InvalidState,
            ) && *final(self) == *old(self),
            old(self).lifecycle() == EmulatorState::ShotActive ==> (match R::global_barrier_res(
                old(self).rt(),
                0,
            ) {
                Err(e) => r == Err::<(), EmuError>(e) && final(self).rt() == old(self).rt()
                    && final(self).em() == old(self).em(),
                Ok(rm1) => match drain_res::<R, E>(rm1, old(self).em()) {
                    Err((a, b, e)) => r == Err::<(), EmuError>(e) && final(self).rt() == a && final(self).em() == b,
                    Ok((a, b)) => r == E::dump_res(b) && final(self).rt() == a && final(self).em()
                        == b,
                },
            }),
    {
        match self.state {
            EmulatorState::ShotActive => {},
            _ => {
                return Err(EmuError::InvalidState);
            },
        }
        self.runtime.global_barrier(0)?;
        self.process_runtime()?;
        self.error_model.dump_simulator_state(path, qubits)
    }

    /// Enumerate the runtime's diagnostics — exactly its metric table.
    pub fn runtime_metric(&mut self, nth_metric: u8) -> (r: Result<
        Option<(String, crate::utils::MetricValue)>,
        EmuError,
    >)
        requires
            old(self).inv(),
        ensures
            final(self).inv(),
            final(self).rt() == old(self).rt(),
            final(self).em() == old(self).em(),
            final(self).lifecycle() == old(self).lifecycle(),
            match (r, R::metric_res(old(self).rt(), nth_metric)) {
                (Ok(Some((tag, v))), Some((stag, sv))) => tag@ == stag && v == sv,
                (Ok(None), None) => true,
                _ => false,
            },
    {
        self.runtime.get_metric(nth_metric)
    }

    /// Enumerate the error model's diagnostics — exactly its metric table.
    pub fn error_model_metric(&mut self, nth_metric: u8) -> (r: Result<
        Option<(String, crate::utils::MetricValue)>,
        EmuError,
    >)
        requires
            old(self).inv(),
        ensures
            final(self).inv(),
            final(self).rt() == old(self).rt(),
            final(self).em() == old(self).em(),
            final(self).lifecycle() == old(self).lifecycle(),
            match (r, E::metric_res(old(self).em(), nth_metric)) {
                (Ok(Some((tag, v))), Some((stag, sv))) => tag@ == stag && v == sv,
                (Ok(None), None) => true,
                _ => false,
            },
    {
        self.error_model.get_metric(nth_metric)
    }

    /// Enumerate the inner simulator's diagnostics — exactly its metric
    /// table.
    pub fn simulator_metric(&mut self, nth_metric: u8) -> (r: Result<
        Option<(String, crate::utils::MetricValue)>,
        EmuError,
    >)
        requires
            old(self).inv(),
        ensures
            final(self).inv(),
            final(self).rt() == old(self).rt(),
            final(self).em() == old(self).em(),
            final(self).lifecycle() == old(self).lifecycle(),
            match (r, E::sim_metric_res(old(self).em(), nth_metric)) {
                (Ok(Some((tag, v))), Some((stag, sv))) => tag@ == stag && v == sv,
                (Ok(None), None) => true,
                _ => false,
            },
    {
        self.error_model.get_simulator_metric(nth_metric)
    }
}

} // verus!
