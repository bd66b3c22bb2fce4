//! The instruction log: every observed event, tagged with the component it
//! came from, written to the result stream at shot end.

use vstd::prelude::*;

use crate::encoder::{OutputStream, OutputStreamError};
use crate::event_hooks::UserEvent;

verus! {

/// Where an instruction originated.
#[derive(Debug, Clone, Copy, PartialEq, Eq, Structural)]
pub enum Source {
    UserProgram,
    RuntimeOptimiser,
    ErrorModel,
}

impl Source {
    /// The wire encoding of the source.
    pub open spec fn code_spec(self) -> u64 {
        match self {
            Source::UserProgram => 0,
            Source::RuntimeOptimiser => 1,
            Source::ErrorModel => 2,
        }
    }

    /// The wire encoding of the source.
    pub fn code(&self) -> (r: u64)
        ensures
            r == self.code_spec(),
    {
        match self {
            Source::UserProgram => 0,
            Source::RuntimeOptimiser => 1,
            Source::ErrorModel => 2,
        }
    }
}

/// One logged instruction.
#[derive(Debug, Clone, PartialEq)]
pub struct Instruction {
    pub source: Source,
    pub event: UserEvent,
}

/// The per-shot list of observed instructions, in order.
pub struct InstructionLog {
    entries: Vec<Instruction>,
}

impl InstructionLog {
    /// The recorded instructions, in order.
    pub closed spec fn entries_spec(&self) -> Seq<Instruction> {
        self.entries@
    }

    pub fn new() -> (r: InstructionLog)
        ensures
            r.entries_spec() == Seq::<Instruction>::empty(),
    {
        InstructionLog { entries: Vec::new() }
    }

    /// Record one instruction.
    pub fn record(&mut self, source: Source, event: UserEvent)
        ensures
            final(self).entries_spec() == old(self).entries_spec().push(
                Instruction { source, event },
            ),
    {
        self.entries.push(Instruction { source, event });
    }

    /// Forget the recorded instructions at a shot boundary.
    pub fn on_shot_start(&mut self)
        ensures
            final(self).entries_spec() == Seq::<Instruction>::empty(),
    {
        self.entries = Vec::new();
    }

    /// Write the recorded instructions as one message: each entry carries
    /// its source code, an event code, and the event's payload words.
    pub fn write(&self, time_cursor: u64, encoder: &mut OutputStream) -> (r: Result<
        (),
        OutputStreamError,
    >)
        ensures
            r is Ok,
            final(encoder).writer.last_read_index == old(encoder).writer.last_read_index,
    {
        encoder.begin_message(time_cursor)?;
        let tag = "INSTRUCTIONLOG".to_string();
        match encoder.write(&tag) {
            Ok(()) => {},
            Err(_) => {},
        }
        let n = self.entries.len();
        let mut i: usize = 0;
        while i < n
            invariant
                i <= n,
                n == self.entries@.len(),
                encoder.writer.last_read_index == old(encoder).writer.last_read_index,
            decreases n - i,
        {
            let source_code = self.entries[i].source.code();
            encoder.write(&source_code)?;
            write_event(&self.entries[i].event, encoder)?;
            i = i + 1;
        }
        encoder.end_message()
    }
}

/// Write one event as an event code followed by its payload words.
fn write_event(event: &UserEvent, encoder: &mut OutputStream) -> (r: Result<
    (),
    OutputStreamError,
>)
    ensures
        r is Ok,
        final(encoder).writer.last_read_index == old(encoder).writer.last_read_index,
{
    match event {
        UserEvent::BatchStart(start, duration) => {
            encoder.write(&0u64)?;
            encoder.write(start)?;
            encoder.write(duration)
        },
        UserEvent::QAlloc(address) => {
            encoder.write(&1u64)?;
            encoder.write(address)
        },
        UserEvent::QFree(address) => {
            encoder.write(&2u64)?;
            encoder.write(address)
        },
        UserEvent::Reset(qubit) => {
            encoder.write(&3u64)?;
            encoder.write(qubit)
        },
        UserEvent::MeasureRequest(qubit) => {
            encoder.write(&4u64)?;
            encoder.write(qubit)
        },
        UserEvent::FutureRead(handle) => {
            encoder.write(&5u64)?;
            encoder.write(handle)
        },
        UserEvent::RXY(qubit, theta, phi) => {
            encoder.write(&6u64)?;
            encoder.write(qubit)?;
            encoder.write(theta)?;
            encoder.write(phi)
        },
        UserEvent::RZ(qubit, theta) => {
            encoder.write(&7u64)?;
            encoder.write(qubit)?;
            encoder.write(theta)
        },
        UserEvent::RZZ(qubit_1, qubit_2, theta) => {
            encoder.write(&8u64)?;
            encoder.write(qubit_1)?;
            encoder.write(qubit_2)?;
            encoder.write(theta)
        },
        UserEvent::Custom(custom_tag, data) => {
            encoder.write(&9u64)?;
            encoder.write(custom_tag)?;
            let n = data.len();
            let mut i: usize = 0;
            while i < n
                invariant
                    i <= n,
                    n == data@.len(),
                    encoder.writer.last_read_index == old(encoder).writer.last_read_index,
                decreases n - i,
            {
                let b = data[i];
                encoder.write(&b)?;
                i = i + 1;
            }
            Ok(())
        },
        UserEvent::LocalBarrier(qubits, sleep_time) => {
            encoder.write(&10u64)?;
            let count = qubits.len() as u64;
            encoder.write(&count)?;
            let n = qubits.len();
            let mut i: usize = 0;
            while i < n
                invariant
                    i <= n,
                    n == qubits@.len(),
                    encoder.writer.last_read_index == old(encoder).writer.last_read_index,
                decreases n - i,
            {
                let q = qubits[i];
                encoder.write(&q)?;
                i = i + 1;
            }
            encoder.write(sleep_time)
        },
        UserEvent::GlobalBarrier(sleep_time) => {
            encoder.write(&11u64)?;
            encoder.write(sleep_time)
        },
        UserEvent::MeasureLeakedRequest(qubit) => {
            encoder.write(&12u64)?;
            encoder.write(qubit)
        },
    }
}

} // verus!
