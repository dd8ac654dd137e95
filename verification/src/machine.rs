//! The mathematical model of the interpreter: a state, the effect of each
//! operation on it, and the step that the drive loop takes.

use vstd::prelude::*;
use crate::ops::{decode, replacement, Fault, Operations};

verus! {

/// Number of cells on the data tape.
pub const DATA_LENGTH: usize = 128;

/// The whole state of an interpreter.
pub struct Machine {
    /// The program, one instruction per byte.
    pub source: Seq<u8>,
    /// Index of the next byte to decode.
    pub ip: nat,
    /// Index of the current tape cell.
    pub dp: nat,
    /// The saved jump target, if one was placed.
    pub mark: Option<nat>,
    /// The data tape.
    pub tape: Seq<i32>,
    /// The copy register.
    pub copied: i32,
    /// The last operation executed outside a comment.
    pub last: Operations,
    /// How many comments are open.
    pub depth: nat,
    /// Everything emitted so far, oldest first.
    pub output: Seq<char>,
}

/// Where an operation, a step or a run left the machine, and the fault that
/// stopped it, if one did.
pub struct Outcome {
    pub machine: Machine,
    pub fault: Option<Fault>,
}

impl Outcome {
    /// The outcome as a result without a value.
    pub open spec fn status(self) -> Result<(), Fault> {
        match self.fault {
            Some(f) => Err(f),
            None => Ok(()),
        }
    }
}

/// Whether `v` is a Unicode scalar value: a code point that is no surrogate.
pub open spec fn is_scalar_value(v: int) -> bool {
    0 <= v <= 0xd7ff || 0xe000 <= v <= 0x10ffff
}

/// A sum or difference of two cell values, brought back into the range of a
/// cell: the tape counts modulo 2^32.
pub open spec fn wrapped(v: int) -> i32 {
    if v > i32::MAX {
        (v - 0x1_0000_0000) as i32
    } else if v < i32::MIN {
        (v + 0x1_0000_0000) as i32
    } else {
        v as i32
    }
}

/// The index after `ip`. A buffer cannot be longer than `usize::MAX`, so the
/// pointer is held there: it is past the end of every buffer already.
pub open spec fn next_index(ip: nat) -> nat {
    if ip < usize::MAX {
        ip + 1
    } else {
        ip
    }
}

impl Machine {
    /// A fresh machine: empty program, zeroed tape, nothing marked, copied,
    /// executed or emitted.
    pub open spec fn initial() -> Machine {
        Machine {
            source: Seq::empty(),
            ip: 0,
            dp: 0,
            mark: None,
            tape: Seq::new(DATA_LENGTH as nat, |i: int| 0i32),
            copied: 0,
            last: Operations::Nop,
            depth: 0,
            output: Seq::empty(),
        }
    }

    /// What holds of every machine between two steps.
    ///
    /// A comment is opened by its own byte and nothing jumps inside a comment,
    /// so the depth never exceeds the instruction pointer; and `(` leaves the
    /// depth positive, so it is never the recorded operation.
    pub open spec fn valid(self) -> bool {
        &&& self.source.len() <= usize::MAX
        &&& self.tape.len() == DATA_LENGTH
        &&& self.dp < DATA_LENGTH
        &&& self.depth <= self.ip
        &&& !(self.last is BeginComment)
    }

    /// No further step is produced.
    pub open spec fn halted(self) -> bool {
        self.ip >= self.source.len()
    }

    /// The value of the current cell.
    pub open spec fn cell(self) -> i32 {
        self.tape[self.dp as int]
    }

    /// The machine with the current cell set to `v`.
    pub open spec fn with_cell(self, v: i32) -> Machine {
        Machine { tape: self.tape.update(self.dp as int, v), ..self }
    }

    /// The machine as it is, with no fault.
    pub open spec fn done(self) -> Outcome {
        Outcome { machine: self, fault: None }
    }

    /// The machine as it is, stopped by `f`.
    pub open spec fn failed(self, f: Fault) -> Outcome {
        Outcome { machine: self, fault: Some(f) }
    }

    /// The effect of one operation other than a repeat. A fault leaves the
    /// machine as it was.
    pub open spec fn effect(self, op: Operations) -> Outcome {
        match op {
            Operations::IncrementPointer => if self.dp + 1 < DATA_LENGTH {
                Machine { dp: self.dp + 1, ..self }.done()
            } else {
                self.failed(Fault::PointerOutOfRange)
            },
            Operations::DecrementPointer => if 0 < self.dp {
                Machine { dp: (self.dp - 1) as nat, ..self }.done()
            } else {
                self.failed(Fault::PointerOutOfRange)
            },
            Operations::PlaceMark => Machine { mark: Some(self.ip), ..self }.done(),
            Operations::GotoMark => match self.mark {
                Some(m) => Machine { ip: m, ..self }.done(),
                None => self.failed(Fault::UnsetMarkJump),
            },
            Operations::SkipIfZero => if self.cell() == 0 {
                Machine { ip: next_index(self.ip), ..self }.done()
            } else {
                self.done()
            },
            Operations::Input => self.failed(Fault::UnimplementedInput),
            Operations::Output => if is_scalar_value(self.cell() as int) {
                Machine { output: self.output.push(self.cell() as char), ..self }.done()
            } else {
                self.failed(Fault::InvalidCodePoint)
            },
            Operations::IncrementValue => self.with_cell(wrapped(self.cell() + 1)).done(),
            Operations::DecrementValue => self.with_cell(wrapped(self.cell() - 1)).done(),
            Operations::IncrementValue10 => self.with_cell(wrapped(self.cell() + 10)).done(),
            Operations::DecrementValue10 => self.with_cell(wrapped(self.cell() - 10)).done(),
            Operations::Replace => if self.ip < self.source.len() {
                Machine {
                    source: self.source.update(self.ip as int, replacement(self.cell())),
                    ..self
                }.done()
            } else {
                self.failed(Fault::SelfModifyOutOfBounds)
            },
            Operations::SetZero => self.with_cell(0).done(),
            Operations::CopyValue => Machine { copied: self.cell(), ..self }.done(),
            Operations::PasteValue => self.with_cell(self.copied).done(),
            Operations::BeginComment => Machine { depth: self.depth + 1, ..self }.done(),
            Operations::EndComment => if 0 < self.depth {
                Machine { depth: (self.depth - 1) as nat, ..self }.done()
            } else {
                self.failed(Fault::CommentUnderflow)
            },
            Operations::Repeat(_) => self.failed(Fault::InvalidRepeatTarget),
            Operations::Nop => self.done(),
        }
    }

    /// One replay of the recorded operation. A recorded skip is not replayed.
    pub open spec fn replay_once(self) -> Outcome {
        if self.last is SkipIfZero {
            self.done()
        } else {
            self.effect(self.last)
        }
    }

    /// `count` replays of the recorded operation, one after the other, ending
    /// at the first that faults.
    pub open spec fn replay(self, count: nat) -> Outcome
        decreases count,
    {
        if count == 0 {
            self.done()
        } else {
            let first = self.replay_once();
            if first.fault is Some {
                first
            } else {
                first.machine.replay((count - 1) as nat)
            }
        }
    }

    /// The effect of any operation: a repeat replays the recorded operation,
    /// and is refused where that is itself a repeat.
    pub open spec fn execute(self, op: Operations) -> Outcome {
        match op {
            Operations::Repeat(count) => if self.last is Repeat {
                self.failed(Fault::InvalidRepeatTarget)
            } else {
                self.replay(count as nat)
            },
            _ => self.effect(op),
        }
    }

    /// Whether `op` takes effect here: inside a comment only the comment
    /// delimiters do.
    pub open spec fn runs(self, op: Operations) -> bool {
        self.depth == 0 || op is BeginComment || op is EndComment
    }

    /// The machine with `op` recorded as last executed, which it is when it
    /// is no no-op and no comment is open.
    pub open spec fn record(self, op: Operations) -> Machine {
        if op != Operations::Nop && self.depth == 0 {
            Machine { last: op, ..self }
        } else {
            self
        }
    }

    /// The machine with the instruction pointer moved on by one.
    pub open spec fn advance(self) -> Machine {
        Machine { ip: next_index(self.ip), ..self }
    }

    /// The operation under the instruction pointer.
    pub open spec fn fetched(self) -> Operations
        recommends
            !self.halted(),
    {
        decode(self.source[self.ip as int])
    }

    /// One cycle of the drive loop: decode the byte under the instruction
    /// pointer, execute it unless a comment suppresses it, record it, and move
    /// on by one whatever jump was made. A halted machine stays as it is. A
    /// fault stops the cycle where it arose: nothing is recorded and the
    /// pointer is not moved on.
    pub open spec fn step(self) -> Outcome {
        if self.halted() {
            self.done()
        } else {
            let op = self.fetched();
            let ran = if self.runs(op) {
                self.execute(op)
            } else {
                self.done()
            };
            if ran.fault is Some {
                ran
            } else {
                ran.machine.record(op).advance().done()
            }
        }
    }

    /// What a pull yields: the byte just processed, as a character, or nothing
    /// at the end of the program.
    pub open spec fn yields(self) -> Option<char> {
        if self.halted() {
            None
        } else {
            Some(self.source[self.ip as int] as char)
        }
    }

    /// `count` cycles, ending at the first that faults. Once the machine has
    /// halted the remaining cycles change nothing.
    pub open spec fn run(self, count: nat) -> Outcome
        decreases count,
    {
        if count == 0 {
            self.done()
        } else {
            let first = self.step();
            if first.fault is Some {
                first
            } else {
                first.machine.run((count - 1) as nat)
            }
        }
    }

    /// How many of `count` cycles process a byte without a fault: those
    /// before the machine halts or faults.
    pub open spec fn pulls(self, count: nat) -> nat
        decreases count,
    {
        if count == 0 || self.halted() || self.step().fault is Some {
            0
        } else {
            1 + self.step().machine.pulls((count - 1) as nat)
        }
    }
}

} // verus!
