//! High-level diagnostics: per-shot counters over what the user program
//! requested and over what the runtime emitted, written to the result stream
//! as tagged metric messages.

use vstd::prelude::*;

use crate::encoder::{OutputStream, OutputStreamError};
use crate::event_hooks::UserEvent;
use crate::ops::{BatchOperation, Operation};
use crate::utils::{bump, bumped};

verus! {

/// Counters over the user program's own calls.
#[derive(Debug, Clone, Copy, PartialEq, Eq, Structural)]
pub struct UserProgramMetrics {
    pub max_allocated: u64,
    pub currently_allocated: u64,
    pub qalloc_count: u64,
    pub qfree_count: u64,
    pub reset_count: u64,
    pub measure_request_count: u64,
    pub measure_leaked_request_count: u64,
    pub future_read_count: u64,
    pub rxy_count: u64,
    pub rz_count: u64,
    pub rzz_count: u64,
    pub global_barrier_count: u64,
    pub local_barrier_count: u64,
}

impl UserProgramMetrics {
    /// Fresh all-zero counters.
    pub open spec fn zero() -> UserProgramMetrics {
        UserProgramMetrics {
            max_allocated: 0,
            currently_allocated: 0,
            qalloc_count: 0,
            qfree_count: 0,
            reset_count: 0,
            measure_request_count: 0,
            measure_leaked_request_count: 0,
            future_read_count: 0,
            rxy_count: 0,
            rz_count: 0,
            rzz_count: 0,
            global_barrier_count: 0,
            local_barrier_count: 0,
        }
    }

    /// The counters after observing one event.
    pub open spec fn updated(self, event: UserEvent) -> UserProgramMetrics {
        match event {
            UserEvent::QAlloc(_) => {
                let now = bumped(self.currently_allocated);
                UserProgramMetrics {
                    qalloc_count: bumped(self.qalloc_count),
                    currently_allocated: now,
                    max_allocated: if now > self.max_allocated {
                        now
                    } else {
                        self.max_allocated
                    },
                    ..self
                }
            },
            UserEvent::QFree(_) => UserProgramMetrics {
                qfree_count: bumped(self.qfree_count),
                currently_allocated: if self.currently_allocated > 0 {
                    (self.currently_allocated - 1) as u64
                } else {
                    0
                },
                ..self
            },
            UserEvent::Reset(_) => UserProgramMetrics {
                reset_count: bumped(self.reset_count),
                ..self
            },
            UserEvent::MeasureRequest(_) => UserProgramMetrics {
                measure_request_count: bumped(self.measure_request_count),
                ..self
            },
            UserEvent::MeasureLeakedRequest(_) => UserProgramMetrics {
                measure_leaked_request_count: bumped(self.measure_leaked_request_count),
                ..self
            },
            UserEvent::FutureRead(_) => UserProgramMetrics {
                future_read_count: bumped(self.future_read_count),
                ..self
            },
            UserEvent::RXY(_, _, _) => UserProgramMetrics {
                rxy_count: bumped(self.rxy_count),
                ..self
            },
            UserEvent::RZ(_, _) => UserProgramMetrics { rz_count: bumped(self.rz_count), ..self },
            UserEvent::RZZ(_, _, _) => UserProgramMetrics {
                rzz_count: bumped(self.rzz_count),
                ..self
            },
            UserEvent::LocalBarrier(_, _) => UserProgramMetrics {
                local_barrier_count: bumped(self.local_barrier_count),
                ..self
            },
            UserEvent::GlobalBarrier(_) => UserProgramMetrics {
                global_barrier_count: bumped(self.global_barrier_count),
                ..self
            },
            _ => self,
        }
    }

    pub fn new() -> (r: UserProgramMetrics)
        ensures
            r == UserProgramMetrics::zero(),
    {
        UserProgramMetrics {
            max_allocated: 0,
            currently_allocated: 0,
            qalloc_count: 0,
            qfree_count: 0,
            reset_count: 0,
            measure_request_count: 0,
            measure_leaked_request_count: 0,
            future_read_count: 0,
            rxy_count: 0,
            rz_count: 0,
            rzz_count: 0,
            global_barrier_count: 0,
            local_barrier_count: 0,
        }
    }

    /// Observe one event.
    pub fn update(&mut self, event: &UserEvent)
        ensures
            *final(self) == old(self).updated(*event),
    {
        match event {
            UserEvent::QAlloc(_) => {
                self.qalloc_count = bump(self.qalloc_count);
                self.currently_allocated = bump(self.currently_allocated);
                if self.currently_allocated > self.max_allocated {
                    self.max_allocated = self.currently_allocated;
                }
            },
            UserEvent::QFree(_) => {
                self.qfree_count = bump(self.qfree_count);
                if self.currently_allocated > 0 {
                    self.currently_allocated = self.currently_allocated - 1;
                }
            },
            UserEvent::Reset(_) => {
                self.reset_count = bump(self.reset_count);
            },
            UserEvent::MeasureRequest(_) => {
                self.measure_request_count = bump(self.measure_request_count);
            },
            UserEvent::MeasureLeakedRequest(_) => {
                self.measure_leaked_request_count = bump(self.measure_leaked_request_count);
            },
            UserEvent::FutureRead(_) => {
                self.future_read_count = bump(self.future_read_count);
            },
            UserEvent::RXY(_, _, _) => {
                self.rxy_count = bump(self.rxy_count);
            },
            UserEvent::RZ(_, _) => {
                self.rz_count = bump(self.rz_count);
            },
            UserEvent::RZZ(_, _, _) => {
                self.rzz_count = bump(self.rzz_count);
            },
            UserEvent::LocalBarrier(_, _) => {
                self.local_barrier_count = bump(self.local_barrier_count);
            },
            UserEvent::GlobalBarrier(_) => {
                self.global_barrier_count = bump(self.global_barrier_count);
            },
            _ => {},
        }
    }

    /// Write each counter as a tagged metric message.
    pub fn write(&self, time_cursor: u64, encoder: &mut OutputStream) -> (r: Result<
        (),
        OutputStreamError,
    >)
        ensures
            r is Ok,
            final(encoder).writer.last_read_index == old(encoder).writer.last_read_index,
    {
        write_metric_u64(encoder, time_cursor, "METRICS:INT:user_program:qalloc_count", self.qalloc_count)?;
        write_metric_u64(encoder, time_cursor, "METRICS:INT:user_program:qfree_count", self.qfree_count)?;
        write_metric_u64(encoder, time_cursor, "METRICS:INT:user_program:reset_count", self.reset_count)?;
        write_metric_u64(
            encoder,
            time_cursor,
            "METRICS:INT:user_program:measure_request_count",
            self.measure_request_count,
        )?;
        write_metric_u64(
            encoder,
            time_cursor,
            "METRICS:INT:user_program:measure_leaked_request_count",
            self.measure_leaked_request_count,
        )?;
        write_metric_u64(
            encoder,
            time_cursor,
            "METRICS:INT:user_program:measure_read_count",
            self.future_read_count,
        )?;
        write_metric_u64(encoder, time_cursor, "METRICS:INT:user_program:rxy_count", self.rxy_count)?;
        write_metric_u64(encoder, time_cursor, "METRICS:INT:user_program:rzz_count", self.rzz_count)?;
        write_metric_u64(encoder, time_cursor, "METRICS:INT:user_program:rz_count", self.rz_count)?;
        write_metric_u64(
            encoder,
            time_cursor,
            "METRICS:INT:user_program:global_barrier_count",
            self.global_barrier_count,
        )?;
        write_metric_u64(
            encoder,
            time_cursor,
            "METRICS:INT:user_program:local_barrier_count",
            self.local_barrier_count,
        )?;
        write_metric_u64(encoder, time_cursor, "METRICS:INT:user_program:max_allocated", self.max_allocated)?;
        write_metric_u64(
            encoder,
            time_cursor,
            "METRICS:INT:user_program:currently_allocated",
            self.currently_allocated,
        )
    }
}

/// Write one tagged 64-bit metric as its own message.
fn write_metric_u64(
    encoder: &mut OutputStream,
    time_cursor: u64,
    tag: &str,
    value: u64,
) -> (r: Result<(), OutputStreamError>)
    ensures
        r is Ok,
        final(encoder).writer.last_read_index == old(encoder).writer.last_read_index,
{
    encoder.begin_message(time_cursor)?;
    let tag_string = tag.to_string();
    match encoder.write(&tag_string) {
        Ok(()) => {},
        Err(_) => {},
    }
    encoder.write(&value)?;
    encoder.end_message()
}

/// Counters over what the runtime emitted.
#[derive(Debug, Clone, Copy, PartialEq, Eq, Structural)]
pub struct PostRuntimeMetrics {
    pub batch_count: u64,
    pub operation_count: u64,
    pub measure_count: u64,
    pub measure_leaked_count: u64,
    pub reset_count: u64,
    pub rxy_count: u64,
    pub rz_count: u64,
    pub rzz_count: u64,
    pub two_qubit_count: u64,
    pub custom_count: u64,
    pub total_duration_ns: u64,
}

/// The counters after observing one emitted operation.
pub open spec fn counted(m: PostRuntimeMetrics, op: Operation) -> PostRuntimeMetrics {
    let m1 = PostRuntimeMetrics { operation_count: bumped(m.operation_count), ..m };
    match op {
        Operation::Measure { .. } => PostRuntimeMetrics {
            measure_count: bumped(m1.measure_count),
            ..m1
        },
        Operation::MeasureLeaked { .. } => PostRuntimeMetrics {
            measure_leaked_count: bumped(m1.measure_leaked_count),
            ..m1
        },
        Operation::Reset { .. } => PostRuntimeMetrics { reset_count: bumped(m1.reset_count), ..m1 },
        Operation::RXYGate { .. } => PostRuntimeMetrics { rxy_count: bumped(m1.rxy_count), ..m1 },
        Operation::RZGate { .. } => PostRuntimeMetrics { rz_count: bumped(m1.rz_count), ..m1 },
        Operation::RZZGate { .. } => PostRuntimeMetrics { rzz_count: bumped(m1.rzz_count), ..m1 },
        Operation::Custom { .. } => PostRuntimeMetrics {
            custom_count: bumped(m1.custom_count),
            ..m1
        },
        _ => PostRuntimeMetrics { two_qubit_count: bumped(m1.two_qubit_count), ..m1 },
    }
}

/// The counters after observing every operation of a batch, in order.
pub open spec fn counted_all(m: PostRuntimeMetrics, ops: Seq<Operation>) -> PostRuntimeMetrics
    decreases ops.len(),
{
    if ops.len() == 0 {
        m
    } else {
        counted(counted_all(m, ops.drop_last()), ops.last())
    }
}

/// Counting operations touches neither the batch counter nor the duration
/// total.
proof fn lemma_counted_all_frame(m: PostRuntimeMetrics, ops: Seq<Operation>)
    ensures
        counted_all(m, ops).batch_count == m.batch_count,
        counted_all(m, ops).total_duration_ns == m.total_duration_ns,
    decreases ops.len(),
{
    if ops.len() > 0 {
        lemma_counted_all_frame(m, ops.drop_last());
    }
}

impl PostRuntimeMetrics {
    /// Fresh all-zero counters.
    pub open spec fn zero() -> PostRuntimeMetrics {
        PostRuntimeMetrics {
            batch_count: 0,
            operation_count: 0,
            measure_count: 0,
            measure_leaked_count: 0,
            reset_count: 0,
            rxy_count: 0,
            rz_count: 0,
            rzz_count: 0,
            two_qubit_count: 0,
            custom_count: 0,
            total_duration_ns: 0,
        }
    }

    pub fn new() -> (r: PostRuntimeMetrics)
        ensures
            r == PostRuntimeMetrics::zero(),
    {
        PostRuntimeMetrics {
            batch_count: 0,
            operation_count: 0,
            measure_count: 0,
            measure_leaked_count: 0,
            reset_count: 0,
            rxy_count: 0,
            rz_count: 0,
            rzz_count: 0,
            two_qubit_count: 0,
            custom_count: 0,
            total_duration_ns: 0,
        }
    }

    /// Observe one emitted batch: count its batch boundary, its duration,
    /// and every operation in it.
    pub fn update(&mut self, batch: &BatchOperation)
        ensures
            *final(self) == (PostRuntimeMetrics {
                batch_count: bumped(old(self).batch_count),
                total_duration_ns: if old(self).total_duration_ns + batch@.duration <= u64::MAX {
                    (old(self).total_duration_ns + batch@.duration) as u64
                } else {
                    u64::MAX
                },
                ..counted_all(*old(self), batch@.ops)
            }),
    {
        let ghost ops = batch@.ops;
        let mut i: usize = 0;
        let n = batch.len();
        while i < n
            invariant
                i <= n,
                n == ops.len(),
                batch@.ops == ops,
                *self == counted_all(*old(self), ops.take(i as int)),
            decreases n - i,
        {
            proof {
                assert(ops.take(i + 1).drop_last() =~= ops.take(i as int));
                assert(ops.take(i + 1).last() == ops[i as int]);
            }
            self.operation_count = bump(self.operation_count);
            match batch.op_at(i) {
                Operation::Measure { .. } => {
                    self.measure_count = bump(self.measure_count);
                },
                Operation::MeasureLeaked { .. } => {
                    self.measure_leaked_count = bump(self.measure_leaked_count);
                },
                Operation::Reset { .. } => {
                    self.reset_count = bump(self.reset_count);
                },
                Operation::RXYGate { .. } => {
                    self.rxy_count = bump(self.rxy_count);
                },
                Operation::RZGate { .. } => {
                    self.rz_count = bump(self.rz_count);
                },
                Operation::RZZGate { .. } => {
                    self.rzz_count = bump(self.rzz_count);
                },
                Operation::Custom { .. } => {
                    self.custom_count = bump(self.custom_count);
                },
                _ => {
                    self.two_qubit_count = bump(self.two_qubit_count);
                },
            }
            i = i + 1;
        }
        proof {
            assert(ops.take(n as int) =~= ops);
            lemma_counted_all_frame(*old(self), ops);
        }
        self.batch_count = bump(self.batch_count);
        let duration = batch.duration();
        if self.total_duration_ns <= u64::MAX - duration {
            self.total_duration_ns = self.total_duration_ns + duration;
        } else {
            self.total_duration_ns = u64::MAX;
        }
    }

    /// Write each counter as a tagged metric message.
    pub fn write(&self, time_cursor: u64, encoder: &mut OutputStream) -> (r: Result<
        (),
        OutputStreamError,
    >)
        ensures
            r is Ok,
            final(encoder).writer.last_read_index == old(encoder).writer.last_read_index,
    {
        write_metric_u64(encoder, time_cursor, "METRICS:INT:post_runtime:batch_count", self.batch_count)?;
        write_metric_u64(
            encoder,
            time_cursor,
            "METRICS:INT:post_runtime:operation_count",
            self.operation_count,
        )?;
        write_metric_u64(encoder, time_cursor, "METRICS:INT:post_runtime:measure_count", self.measure_count)?;
        write_metric_u64(
            encoder,
            time_cursor,
            "METRICS:INT:post_runtime:measure_leaked_count",
            self.measure_leaked_count,
        )?;
        write_metric_u64(encoder, time_cursor, "METRICS:INT:post_runtime:reset_count", self.reset_count)?;
        write_metric_u64(encoder, time_cursor, "METRICS:INT:post_runtime:rxy_count", self.rxy_count)?;
        write_metric_u64(encoder, time_cursor, "METRICS:INT:post_runtime:rz_count", self.rz_count)?;
        write_metric_u64(encoder, time_cursor, "METRICS:INT:post_runtime:rzz_count", self.rzz_count)?;
        write_metric_u64(
            encoder,
            time_cursor,
            "METRICS:INT:post_runtime:two_qubit_count",
            self.two_qubit_count,
        )?;
        write_metric_u64(encoder, time_cursor, "METRICS:INT:post_runtime:custom_count", self.custom_count)?;
        write_metric_u64(
            encoder,
            time_cursor,
            "METRICS:INT:post_runtime:total_duration_ns",
            self.total_duration_ns,
        )
    }
}

/// Both counter sets, reset together at each shot boundary.
#[derive(Debug, Clone, Copy, PartialEq, Eq, Structural)]
pub struct HighLevelMetrics {
    pub user_program_metrics: UserProgramMetrics,
    pub post_runtime_metrics: PostRuntimeMetrics,
}

impl HighLevelMetrics {
    pub fn new() -> (r: HighLevelMetrics)
        ensures
            r.user_program_metrics == UserProgramMetrics::zero(),
            r.post_runtime_metrics == PostRuntimeMetrics::zero(),
    {
        HighLevelMetrics {
            user_program_metrics: UserProgramMetrics::new(),
            post_runtime_metrics: PostRuntimeMetrics::new(),
        }
    }

    /// Observe one user call.
    pub fn on_user_call(&mut self, event: &UserEvent)
        ensures
            final(self).user_program_metrics == old(self).user_program_metrics.updated(*event),
            final(self).post_runtime_metrics == old(self).post_runtime_metrics,
    {
        self.user_program_metrics.update(event);
    }

    /// Observe one emitted batch.
    pub fn on_runtime_batch(&mut self, batch: &BatchOperation)
        ensures
            final(self).user_program_metrics == old(self).user_program_metrics,
    {
        self.post_runtime_metrics.update(batch);
    }

    /// Reset both counter sets at a shot boundary.
    pub fn on_shot_start(&mut self)
        ensures
            final(self).user_program_metrics == UserProgramMetrics::zero(),
            final(self).post_runtime_metrics == PostRuntimeMetrics::zero(),
    {
        self.user_program_metrics = UserProgramMetrics::new();
        self.post_runtime_metrics = PostRuntimeMetrics::new();
    }

    /// Write every counter to the result stream.
    pub fn write(&self, time_cursor: u64, encoder: &mut OutputStream) -> (r: Result<
        (),
        OutputStreamError,
    >)
        ensures
            r is Ok,
            final(encoder).writer.last_read_index == old(encoder).writer.last_read_index,
    {
        self.user_program_metrics.write(time_cursor, encoder)?;
        self.post_runtime_metrics.write(time_cursor, encoder)
    }
}

} // verus!
