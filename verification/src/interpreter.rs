//! The executable interpreter. Every method is tied to the model in
//! [`crate::machine`]: its contract says which model state it leaves behind.

use vstd::prelude::*;
use crate::laws::{lemma_halted_stays, lemma_step_keeps_valid};
use crate::machine::{is_scalar_value, wrapped, Machine, DATA_LENGTH};
use crate::ops::{symbol_for_key, Fault, Operations, NUM_COMMANDS};

verus! {

/// Execution state: the program buffer and everything it runs against.
pub struct Interpreter {
    source: Vec<u8>,
    instruction_pointer: usize,
    data_pointer: usize,
    mark: Option<usize>,
    data: [i32; 128],
    copied_data: i32,
    last: Operations,
    comment_depth: usize,
    emitted: Vec<char>,
}

impl View for Interpreter {
    type V = Machine;

    closed spec fn view(&self) -> Machine {
        Machine {
            source: self.source@,
            ip: self.instruction_pointer as nat,
            dp: self.data_pointer as nat,
            mark: match self.mark {
                Some(m) => Some(m as nat),
                None => None,
            },
            tape: self.data@,
            copied: self.copied_data,
            last: self.last,
            depth: self.comment_depth as nat,
            output: self.emitted@,
        }
    }
}

/// `char::from_u32` of std: the character with the code `code`, which exists
/// exactly when `code` is a Unicode scalar value.
#[verifier::external_body]
fn scalar_to_char(code: u32) -> (c: Option<char>)
    ensures
        c == if is_scalar_value(code as int) {
            Some(code as char)
        } else {
            None::<char>
        },
{
    char::from_u32(code)
}

impl Interpreter {
    /// A fresh interpreter with an empty program.
    pub fn new() -> (interpreter: Self)
        ensures
            interpreter@ == Machine::initial(),
            interpreter@.valid(),
    {
        let interpreter = Self {
            source: Vec::new(),
            instruction_pointer: 0,
            data_pointer: 0,
            mark: None,
            data: [0; 128],
            copied_data: 0,
            last: Operations::Nop,
            comment_depth: 0,
            emitted: Vec::new(),
        };
        assert(interpreter@.tape =~= Machine::initial().tape);
        interpreter
    }

    /// The live program buffer.
    pub fn source(&self) -> (bytes: &[u8])
        ensures
            bytes@ == self@.source,
    {
        self.source.as_slice()
    }

    /// The live program buffer, for writing in place. Nothing else changes.
    pub fn source_mut(&mut self) -> (bytes: &mut [u8])
        ensures
            bytes@ == old(self)@.source,
            final(self)@ == (Machine { source: final(bytes)@, ..old(self)@ }),
            old(self)@.valid() ==> final(self)@.valid(),
    {
        proof {
            vstd::std_specs::vec::axiom_spec_len(&final(self).source);
        }
        self.source.as_mut_slice()
    }

    /// Replaces the whole program by the bytes of `source`. Nothing is reset.
    pub fn set_source(&mut self, source: String)
        ensures
            final(self)@ == (Machine { source: vstd::utf8::encode_utf8(source@), ..old(self)@ }),
            old(self)@.valid() ==> final(self)@.valid(),
    {
        self.source = source.as_str().as_bytes_vec();
        proof {
            vstd::std_specs::vec::axiom_spec_len(&self.source);
        }
    }

    /// Index of the next byte to decode.
    pub fn instruction_pointer(&self) -> (ip: usize)
        ensures
            ip == self@.ip,
    {
        self.instruction_pointer
    }

    /// Index of the current tape cell.
    pub fn data_pointer(&self) -> (dp: usize)
        ensures
            dp == self@.dp,
    {
        self.data_pointer
    }

    /// The saved jump target, if one was placed.
    pub fn mark(&self) -> (mark: Option<usize>)
        ensures
            match mark {
                Some(m) => self@.mark == Some(m as nat),
                None => self@.mark is None,
            },
    {
        self.mark
    }

    /// The data tape.
    pub fn data(&self) -> (tape: &[i32; 128])
        ensures
            tape@ == self@.tape,
    {
        &self.data
    }

    /// The copy register.
    pub fn copied_data(&self) -> (value: i32)
        ensures
            value == self@.copied,
    {
        self.copied_data
    }

    /// The operation that a repeat would replay.
    pub fn last(&self) -> (op: Operations)
        ensures
            op == self@.last,
    {
        self.last
    }

    /// How many comments are open.
    pub fn comment_depth(&self) -> (depth: usize)
        ensures
            depth == self@.depth,
    {
        self.comment_depth
    }

    /// Everything emitted and not yet taken, oldest first.
    pub fn emitted(&self) -> (out: &[char])
        ensures
            out@ == self@.output,
    {
        self.emitted.as_slice()
    }

    /// Hands over what was emitted and leaves the sink empty. Nothing else
    /// changes.
    pub fn take_emitted(&mut self) -> (out: Vec<char>)
        ensures
            out@ == old(self)@.output,
            final(self)@ == (Machine { output: Seq::empty(), ..old(self)@ }),
            old(self)@.valid() ==> final(self)@.valid(),
    {
        let mut out: Vec<char> = Vec::new();
        core::mem::swap(&mut out, &mut self.emitted);
        out
    }

    /// Performs one cycle and yields the byte it processed, as a character;
    /// `None` once the program has ended. A fault aborts the cycle and leaves
    /// the instruction pointer on the instruction that raised it.
    pub fn next(&mut self) -> (r: Result<Option<char>, Fault>)
        requires
            old(self)@.valid(),
        ensures
            final(self)@ == old(self)@.step().machine,
            r == match old(self)@.step().fault {
                Some(fault) => Err::<Option<char>, Fault>(fault),
                None => Ok(old(self)@.yields()),
            },
            final(self)@.valid(),
    {
        proof {
            lemma_step_keeps_valid(self@);
        }
        if self.source.len() <= self.instruction_pointer {
            return Ok(None);
        }
        let byte: u8 = self.source[self.instruction_pointer];
        let op = Operations::from(byte);
        let active: bool = self.comment_depth == 0;
        let ran: Result<(), Fault> = match op {
            Operations::IncrementPointer if active => self.increment_pointer(),
            Operations::DecrementPointer if active => self.decrement_pointer(),
            Operations::PlaceMark if active => {
                self.place_mark();
                Ok(())
            },
            Operations::GotoMark if active => self.goto_mark(),
            Operations::SkipIfZero if active => {
                self.skip_if_zero();
                Ok(())
            },
            Operations::Input if active => self.input(),
            Operations::Output if active => self.output(),
            Operations::IncrementValue if active => {
                self.increment_value();
                Ok(())
            },
            Operations::DecrementValue if active => {
                self.decrement_value();
                Ok(())
            },
            Operations::IncrementValue10 if active => {
                self.increment_value_10();
                Ok(())
            },
            Operations::DecrementValue10 if active => {
                self.decrement_value_10();
                Ok(())
            },
            Operations::Repeat(count) if active => self.repeat(count),
            Operations::Replace if active => self.replace(),
            Operations::SetZero if active => {
                self.set_zero();
                Ok(())
            },
            Operations::CopyValue if active => {
                self.copy_value();
                Ok(())
            },
            Operations::PasteValue if active => {
                self.paste_value();
                Ok(())
            },
            Operations::BeginComment => {
                self.begin_comment();
                Ok(())
            },
            Operations::EndComment => self.end_comment(),
            _ => Ok(()),
        };
        if let Err(fault) = ran {
            return Err(fault);
        }
        if op != Operations::Nop && self.comment_depth == 0 {
            self.last = op;
        }
        self.instruction_pointer = self.instruction_pointer.saturating_add(1);
        Ok(Some(byte as char))
    }

    /// Drives the program for at most `budget` cycles: until it halts, until
    /// a cycle faults, or until the budget is spent. Gives the number of
    /// cycles that processed a byte, or the fault that aborted the run.
    pub fn run(&mut self, budget: usize) -> (r: Result<usize, Fault>)
        requires
            old(self)@.valid(),
        ensures
            final(self)@ == old(self)@.run(budget as nat).machine,
            match r {
                Ok(taken) => old(self)@.run(budget as nat).fault is None && taken == old(
                    self,
                )@.pulls(budget as nat),
                Err(fault) => old(self)@.run(budget as nat).fault == Some(fault),
            },
            final(self)@.valid(),
    {
        let mut taken: usize = 0;
        while taken < budget
            invariant
                taken <= budget,
                self@.valid(),
                old(self)@.run(budget as nat) == self@.run((budget - taken) as nat),
                old(self)@.pulls(budget as nat) == taken + self@.pulls((budget - taken) as nat),
            decreases budget - taken,
        {
            match self.next() {
                Ok(Some(_)) => {
                    taken += 1;
                },
                Ok(None) => {
                    proof {
                        lemma_halted_stays(self@, (budget - taken) as nat);
                    }
                    return Ok(taken);
                },
                Err(fault) => {
                    return Err(fault);
                },
            }
        }
        Ok(taken)
    }

    /// `>`: moves to the next cell, unless the tape ends here.
    fn increment_pointer(&mut self) -> (r: Result<(), Fault>)
        requires
            old(self)@.dp < DATA_LENGTH,
        ensures
            final(self)@ == old(self)@.effect(Operations::IncrementPointer).machine,
            r == old(self)@.effect(Operations::IncrementPointer).status(),
    {
        if self.data_pointer + 1 < DATA_LENGTH {
            self.data_pointer += 1;
            Ok(())
        } else {
            Err(Fault::PointerOutOfRange)
        }
    }

    /// `<`: moves to the previous cell, unless the tape begins here.
    fn decrement_pointer(&mut self) -> (r: Result<(), Fault>)
        ensures
            final(self)@ == old(self)@.effect(Operations::DecrementPointer).machine,
            r == old(self)@.effect(Operations::DecrementPointer).status(),
    {
        if 0 < self.data_pointer {
            self.data_pointer -= 1;
            Ok(())
        } else {
            Err(Fault::PointerOutOfRange)
        }
    }

    /// `[`: saves the position of the instruction pointer, over any earlier
    /// mark.
    fn place_mark(&mut self)
        ensures
            final(self)@ == old(self)@.effect(Operations::PlaceMark).machine,
    {
        self.mark = Some(self.instruction_pointer);
    }

    /// `]`: moves the instruction pointer to the mark. The cycle then moves on
    /// by one, so execution resumes behind the marked byte.
    fn goto_mark(&mut self) -> (r: Result<(), Fault>)
        ensures
            final(self)@ == old(self)@.effect(Operations::GotoMark).machine,
            r == old(self)@.effect(Operations::GotoMark).status(),
    {
        match self.mark {
            Some(m) => {
                self.instruction_pointer = m;
                Ok(())
            },
            None => Err(Fault::UnsetMarkJump),
        }
    }

    /// `j`: passes over the next byte where the current cell is zero.
    fn skip_if_zero(&mut self)
        requires
            old(self)@.dp < DATA_LENGTH,
        ensures
            final(self)@ == old(self)@.effect(Operations::SkipIfZero).machine,
    {
        if self.data[self.data_pointer] == 0 {
            self.instruction_pointer = self.instruction_pointer.saturating_add(1);
        }
    }

    /// `i`: always a fault, as there is no input source to read from.
    fn input(&mut self) -> (r: Result<(), Fault>)
        ensures
            final(self)@ == old(self)@.effect(Operations::Input).machine,
            r == old(self)@.effect(Operations::Input).status(),
    {
        Err(Fault::UnimplementedInput)
    }

    /// `o`: appends the current cell to the sink as the character with that
    /// code, where there is one.
    fn output(&mut self) -> (r: Result<(), Fault>)
        requires
            old(self)@.dp < DATA_LENGTH,
        ensures
            final(self)@ == old(self)@.effect(Operations::Output).machine,
            r == old(self)@.effect(Operations::Output).status(),
    {
        let value: i32 = self.data[self.data_pointer];
        if value < 0 {
            return Err(Fault::InvalidCodePoint);
        }
        match scalar_to_char(value as u32) {
            Some(c) => {
                self.emitted.push(c);
                Ok(())
            },
            None => Err(Fault::InvalidCodePoint),
        }
    }

    /// `+`: adds one to the current cell.
    fn increment_value(&mut self)
        requires
            old(self)@.dp < DATA_LENGTH,
        ensures
            final(self)@ == old(self)@.effect(Operations::IncrementValue).machine,
    {
        self.increment_value_by(1);
    }

    /// `-`: subtracts one from the current cell.
    fn decrement_value(&mut self)
        requires
            old(self)@.dp < DATA_LENGTH,
        ensures
            final(self)@ == old(self)@.effect(Operations::DecrementValue).machine,
    {
        self.increment_value_by(-1);
    }

    /// `^`: adds ten to the current cell.
    fn increment_value_10(&mut self)
        requires
            old(self)@.dp < DATA_LENGTH,
        ensures
            final(self)@ == old(self)@.effect(Operations::IncrementValue10).machine,
    {
        self.increment_value_by(10);
    }

    /// `v`: subtracts ten from the current cell.
    fn decrement_value_10(&mut self)
        requires
            old(self)@.dp < DATA_LENGTH,
        ensures
            final(self)@ == old(self)@.effect(Operations::DecrementValue10).machine,
    {
        self.increment_value_by(-10);
    }

    /// Adds `n` to the current cell, wrapping at the ends of its range.
    fn increment_value_by(&mut self, n: i32)
        requires
            old(self)@.dp < DATA_LENGTH,
        ensures
            final(self)@ == old(self)@.with_cell(wrapped(old(self)@.cell() + n)),
    {
        let value: i32 = self.data[self.data_pointer];
        self.data[self.data_pointer] = value.wrapping_add(n);
    }

    /// `r`: overwrites the byte under the instruction pointer with the symbol
    /// that the current cell selects.
    fn replace(&mut self) -> (r: Result<(), Fault>)
        requires
            old(self)@.dp < DATA_LENGTH,
        ensures
            final(self)@ == old(self)@.effect(Operations::Replace).machine,
            r == old(self)@.effect(Operations::Replace).status(),
    {
        let destination: usize = self.instruction_pointer;
        let value: i32 = self.data[self.data_pointer];
        let modulus: i32 = NUM_COMMANDS as i32;
        let remainder: i32 = value % modulus;
        let key: u8 = if remainder < 0 {
            (remainder + modulus) as u8
        } else {
            remainder as u8
        };
        let command: u8 = symbol_for_key(key);
        if self.source.len() <= destination {
            return Err(Fault::SelfModifyOutOfBounds);
        }
        self.source[destination] = command;
        Ok(())
    }

    /// `0`: clears the current cell.
    fn set_zero(&mut self)
        requires
            old(self)@.dp < DATA_LENGTH,
        ensures
            final(self)@ == old(self)@.effect(Operations::SetZero).machine,
            final(self)@.cell() == 0,
    {
        self.data[self.data_pointer] = 0;
    }

    /// `c`: loads the copy register from the current cell.
    fn copy_value(&mut self)
        requires
            old(self)@.dp < DATA_LENGTH,
        ensures
            final(self)@ == old(self)@.effect(Operations::CopyValue).machine,
    {
        self.copied_data = self.data[self.data_pointer];
    }

    /// `p`: stores the copy register in the current cell.
    fn paste_value(&mut self)
        requires
            old(self)@.dp < DATA_LENGTH,
        ensures
            final(self)@ == old(self)@.effect(Operations::PasteValue).machine,
    {
        self.data[self.data_pointer] = self.copied_data;
    }

    /// `(`: opens a comment, inside a comment too.
    fn begin_comment(&mut self)
        requires
            old(self)@.depth < usize::MAX,
        ensures
            final(self)@ == old(self)@.effect(Operations::BeginComment).machine,
    {
        self.comment_depth += 1;
    }

    /// `)`: closes the innermost comment, if one is open.
    fn end_comment(&mut self) -> (r: Result<(), Fault>)
        ensures
            final(self)@ == old(self)@.effect(Operations::EndComment).machine,
            r == old(self)@.effect(Operations::EndComment).status(),
    {
        if 0 < self.comment_depth {
            self.comment_depth -= 1;
            Ok(())
        } else {
            Err(Fault::CommentUnderflow)
        }
    }

    /// A digit: replays the recorded operation `count` times in place, and
    /// stops at the first replay that faults. Refused where the recorded
    /// operation is itself a repeat.
    fn repeat(&mut self, count: usize) -> (r: Result<(), Fault>)
        requires
            old(self)@.dp < DATA_LENGTH,
            !(old(self)@.last is BeginComment),
        ensures
            final(self)@ == old(self)@.execute(Operations::Repeat(count)).machine,
            r == old(self)@.execute(Operations::Repeat(count)).status(),
    {
        if let Operations::Repeat(_) = self.last {
            return Err(Fault::InvalidRepeatTarget);
        }
        let mut done: usize = 0;
        while done < count
            invariant
                done <= count,
                self@.dp < DATA_LENGTH,
                !(self@.last is BeginComment),
                old(self)@.replay(count as nat) == self@.replay((count - done) as nat),
            decreases count - done,
        {
            if let Err(fault) = self.replay_last() {
                return Err(fault);
            }
            done += 1;
        }
        Ok(())
    }

    /// Replays the recorded operation once. A recorded skip is passed over:
    /// in the middle of a replay there is no next instruction to skip.
    fn replay_last(&mut self) -> (r: Result<(), Fault>)
        requires
            old(self)@.dp < DATA_LENGTH,
            !(old(self)@.last is BeginComment),
        ensures
            final(self)@ == old(self)@.replay_once().machine,
            r == old(self)@.replay_once().status(),
            final(self)@.dp < DATA_LENGTH,
            final(self)@.last == old(self)@.last,
    {
        match self.last {
            Operations::IncrementPointer => self.increment_pointer(),
            Operations::DecrementPointer => self.decrement_pointer(),
            Operations::PlaceMark => {
                self.place_mark();
                Ok(())
            },
            Operations::GotoMark => self.goto_mark(),
            Operations::SkipIfZero => Ok(()),
            Operations::Input => self.input(),
            Operations::Output => self.output(),
            Operations::IncrementValue => {
                self.increment_value();
                Ok(())
            },
            Operations::DecrementValue => {
                self.decrement_value();
                Ok(())
            },
            Operations::IncrementValue10 => {
                self.increment_value_10();
                Ok(())
            },
            Operations::DecrementValue10 => {
                self.decrement_value_10();
                Ok(())
            },
            Operations::Repeat(_) => Err(Fault::InvalidRepeatTarget),
            Operations::Replace => self.replace(),
            Operations::SetZero => {
                self.set_zero();
                Ok(())
            },
            Operations::CopyValue => {
                self.copy_value();
                Ok(())
            },
            Operations::PasteValue => {
                self.paste_value();
                Ok(())
            },
            Operations::BeginComment => {
                self.begin_comment();
                Ok(())
            },
            Operations::EndComment => self.end_comment(),
            Operations::Nop => Ok(()),
        }
    }
}

} // verus!
