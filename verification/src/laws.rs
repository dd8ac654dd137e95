//! What holds of every run, proved over the model.

use vstd::prelude::*;
use crate::machine::{wrapped, Machine, DATA_LENGTH};
use crate::ops::{decode, replacement, symbol, Fault, Operations};

verus! {

/// Replaying keeps the shape of the machine: the tape and the buffer keep
/// their lengths, the data pointer stays on the tape, the recorded operation
/// stays, and no comment is opened.
pub proof fn lemma_replay_keeps_shape(m: Machine, count: nat)
    requires
        m.tape.len() == DATA_LENGTH,
        m.dp < DATA_LENGTH,
        !(m.last is BeginComment),
    ensures
        m.replay(count).machine.tape.len() == DATA_LENGTH,
        m.replay(count).machine.dp < DATA_LENGTH,
        m.replay(count).machine.source.len() == m.source.len(),
        m.replay(count).machine.last == m.last,
        m.replay(count).machine.depth <= m.depth,
    decreases count,
{
    if count > 0 {
        let first = m.replay_once();
        if first.fault is None {
            lemma_replay_keeps_shape(first.machine, (count - 1) as nat);
        }
    }
}

/// Every step leads from a valid machine to a valid machine, whether it
/// faults or not.
pub proof fn lemma_step_keeps_valid(m: Machine)
    requires
        m.valid(),
    ensures
        m.step().machine.valid(),
{
    if !m.halted() {
        let op = m.fetched();
        if m.runs(op) {
            if let Operations::Repeat(count) = op {
                lemma_replay_keeps_shape(m, count as nat);
            }
        }
    }
}

/// A halted machine stays as it is, however many cycles are asked of it.
pub proof fn lemma_halted_stays(m: Machine, count: nat)
    requires
        m.halted(),
    ensures
        m.run(count) == m.done(),
        m.pulls(count) == 0,
    decreases count,
{
    if count > 0 {
        lemma_halted_stays(m, (count - 1) as nat);
    }
}

/// Every run leads from a valid machine to a valid machine.
pub proof fn lemma_run_keeps_valid(m: Machine, count: nat)
    requires
        m.valid(),
    ensures
        m.run(count).machine.valid(),
    decreases count,
{
    if count > 0 {
        lemma_step_keeps_valid(m);
        if m.step().fault is None {
            lemma_run_keeps_valid(m.step().machine, (count - 1) as nat);
        }
    }
}

/// Whether every byte of `source` is a no-op.
pub open spec fn only_nops(source: Seq<u8>) -> bool {
    forall|i: int| 0 <= i < source.len() ==> decode(#[trigger] source[i]) == Operations::Nop
}

/// Over no-op bytes a run only counts: after `steps` cycles that stay inside
/// the buffer, the instruction pointer has moved on by `steps` and nothing
/// else has changed.
pub proof fn lemma_nops_only_count(m: Machine, steps: nat)
    requires
        only_nops(m.source),
        m.ip + steps <= m.source.len() <= usize::MAX,
    ensures
        m.run(steps) == (Machine { ip: m.ip + steps, ..m }).done(),
        m.pulls(steps) == steps,
    decreases steps,
{
    if steps > 0 {
        let after = Machine { ip: m.ip + 1, ..m };
        assert(m.fetched() == Operations::Nop);
        assert(m.step() == after.done());
        lemma_nops_only_count(after, (steps - 1) as nat);
    }
}

/// A program of no-op bytes alone leaves the tape and every register as they
/// were, and halts after as many steps as it has bytes and no sooner: however
/// large the budget, exactly that many cycles process a byte.
pub proof fn lemma_nop_program_runs_to_its_end(m: Machine, budget: nat)
    requires
        only_nops(m.source),
        m.ip == 0,
        m.source.len() <= usize::MAX,
        m.source.len() <= budget,
    ensures
        m.run(budget) == (Machine { ip: m.source.len(), ..m }).done(),
        m.run(budget).machine.halted(),
        m.pulls(budget) == m.source.len(),
        forall|steps: nat|
            steps < m.source.len() ==> !(#[trigger] m.run(steps)).machine.halted() && m.run(
                steps,
            ).fault is None,
{
    lemma_nops_only_count(m, m.source.len());
    lemma_run_splits(m, m.source.len(), (budget - m.source.len()) as nat);
    lemma_halted_stays(m.run(m.source.len()).machine, (budget - m.source.len()) as nat);
    assert forall|steps: nat| steps < m.source.len() implies !(#[trigger] m.run(
        steps,
    )).machine.halted() && m.run(steps).fault is None by {
        lemma_nops_only_count(m, steps);
    }
}

/// A run of `first + rest` cycles is a run of `first` followed, unless it
/// faulted, by a run of `rest`; and the cycles that process a byte add up.
pub proof fn lemma_run_splits(m: Machine, first: nat, rest: nat)
    ensures
        m.run(first + rest) == if m.run(first).fault is Some {
            m.run(first)
        } else {
            m.run(first).machine.run(rest)
        },
        m.run(first).fault is None ==> m.pulls(first + rest) == m.pulls(first) + m.run(
            first,
        ).machine.pulls(rest),
    decreases first,
{
    if first > 0 {
        let one = m.step();
        if one.fault is None {
            lemma_run_splits(one.machine, (first - 1) as nat, rest);
            if m.halted() {
                lemma_halted_stays(m, (first - 1) as nat);
                lemma_halted_stays(m, rest);
            }
        }
    }
}

/// `+` followed by `-` on the same cell restores the tape, and so does `^`
/// followed by `v`.
pub proof fn lemma_increment_then_decrement_restores(m: Machine)
    requires
        m.dp < m.tape.len(),
    ensures
        m.effect(Operations::IncrementValue).machine.effect(Operations::DecrementValue) == m.done(),
        m.effect(Operations::IncrementValue10).machine.effect(Operations::DecrementValue10)
            == m.done(),
{
    let up = m.effect(Operations::IncrementValue).machine;
    assert(up.effect(Operations::DecrementValue).machine.tape =~= m.tape);
    let up10 = m.effect(Operations::IncrementValue10).machine;
    assert(up10.effect(Operations::DecrementValue10).machine.tape =~= m.tape);
}

/// `0` leaves zero in the current cell, whatever was there, and touches no
/// other cell.
pub proof fn lemma_set_zero_clears_the_cell(m: Machine)
    requires
        m.dp < m.tape.len(),
    ensures
        m.effect(Operations::SetZero).fault is None,
        m.effect(Operations::SetZero).machine.cell() == 0,
        m.effect(Operations::SetZero).machine == m.with_cell(0),
        forall|i: int|
            0 <= i < m.tape.len() && i != m.dp ==> m.effect(Operations::SetZero).machine.tape[i]
                == m.tape[i],
{
}

/// `c` followed by `p` on the same cell leaves the tape as it was.
pub proof fn lemma_copy_then_paste_keeps_the_tape(m: Machine)
    requires
        m.dp < m.tape.len(),
    ensures
        m.effect(Operations::CopyValue).machine.effect(Operations::PasteValue).fault is None,
        m.effect(Operations::CopyValue).machine.effect(Operations::PasteValue).machine.tape
            == m.tape,
{
    let copied = m.effect(Operations::CopyValue).machine;
    assert(copied.effect(Operations::PasteValue).machine.tape =~= m.tape);
}

/// The symbol that `r` selects has period 26 in the value of the cell: two
/// values that differ by a multiple of 26 select the same symbol.
pub proof fn lemma_replacement_has_period_26(a: i32, b: i32)
    requires
        (a - b) % 26 == 0,
    ensures
        replacement(a) == replacement(b),
{
    assert(a as int % 26 == b as int % 26) by {
        vstd::arithmetic::div_mod::lemma_fundamental_div_mod(a - b, 26);
        vstd::arithmetic::div_mod::lemma_mod_multiples_vanish((a - b) / 26, b as int, 26);
    }
}

/// `r` writes the same byte whether the cell holds 0 or 26, and in general
/// for two values that differ by a multiple of 26.
pub proof fn lemma_replace_has_period_26(m: Machine, a: i32, b: i32)
    requires
        m.dp < m.tape.len(),
        (a - b) % 26 == 0,
    ensures
        replacement(26) == replacement(0),
        m.with_cell(a).effect(Operations::Replace).machine.source == m.with_cell(b).effect(
            Operations::Replace,
        ).machine.source,
        m.with_cell(a).effect(Operations::Replace).fault == m.with_cell(b).effect(
            Operations::Replace,
        ).fault,
{
    lemma_replacement_has_period_26(a, b);
    lemma_replacement_has_period_26(26, 0);
}

/// Every entry of the symbol table decodes to an operation, no two entries to
/// the same one: what `r` writes is always an instruction.
pub proof fn lemma_symbols_decode(j: int, k: int)
    requires
        0 <= j < 26,
        0 <= k < 26,
    ensures
        decode(symbol(k)) != Operations::Nop,
        j != k ==> decode(symbol(j)) != decode(symbol(k)),
{
}

/// A repeat of three after `+` adds exactly three to the current cell and
/// changes nothing else.
pub proof fn lemma_repeat_three_adds_three(m: Machine)
    requires
        m.dp < m.tape.len(),
        m.last == Operations::IncrementValue,
    ensures
        m.execute(Operations::Repeat(3)) == m.with_cell(wrapped(m.cell() + 3)).done(),
{
    reveal_with_fuel(Machine::replay, 4);
    let one = m.with_cell(wrapped(m.cell() + 1));
    let two = one.with_cell(wrapped(one.cell() + 1));
    let three = two.with_cell(wrapped(two.cell() + 1));
    assert(three.tape =~= m.with_cell(wrapped(m.cell() + 3)).tape);
}

/// `+` followed by the digit `3` adds four in all: one for the `+` and three
/// for the replays.
pub proof fn lemma_plus_then_three_adds_four(m: Machine)
    requires
        m.valid(),
        m.depth == 0,
        m.ip + 1 < m.source.len(),
        m.source[m.ip as int] == 0x2b,
        m.source[(m.ip + 1) as int] == 0x33,
    ensures
        m.run(2).fault is None,
        m.run(2).machine.tape == m.tape.update(m.dp as int, wrapped(m.cell() + 4)),
        m.run(2).machine.ip == m.ip + 2,
{
    reveal_with_fuel(Machine::run, 3);
    let first = m.step().machine;
    assert(first == (Machine {
        last: Operations::IncrementValue,
        ip: m.ip + 1,
        ..m.with_cell(wrapped(m.cell() + 1))
    }));
    lemma_repeat_three_adds_three(first);
    assert(first.fetched() == Operations::Repeat(3));
    assert(first.with_cell(wrapped(first.cell() + 3)).tape =~= m.tape.update(
        m.dp as int,
        wrapped(m.cell() + 4),
    ));
}

/// A repeat is refused wherever the recorded operation is itself a repeat:
/// it faults and changes nothing, whatever its count.
pub proof fn lemma_repeat_of_repeat_is_refused(m: Machine, count: usize)
    requires
        m.last is Repeat,
    ensures
        m.execute(Operations::Repeat(count)) == m.failed(Fault::InvalidRepeatTarget),
{
}

/// A step that meets a repeat digit outside a comment, with a repeat
/// recorded, faults with `InvalidRepeatTarget` and leaves the machine as it
/// was.
pub proof fn lemma_step_refuses_repeat_of_repeat(m: Machine)
    requires
        !m.halted(),
        m.depth == 0,
        m.fetched() is Repeat,
        m.last is Repeat,
    ensures
        m.step() == m.failed(Fault::InvalidRepeatTarget),
{
}

/// Inside a comment a step passes over every byte but the two delimiters: it
/// moves the instruction pointer on and changes nothing else.
pub proof fn lemma_comment_suppresses(m: Machine)
    requires
        !m.halted(),
        m.depth > 0,
        !(m.fetched() is BeginComment),
        !(m.fetched() is EndComment),
    ensures
        m.step() == m.advance().done(),
{
}

/// A jump lands one past the mark: after `]` the next byte decoded is the one
/// that follows the marked position.
pub proof fn lemma_jump_lands_past_the_mark(m: Machine, target: nat)
    requires
        !m.halted(),
        m.depth == 0,
        m.fetched() == Operations::GotoMark,
        m.mark == Some(target),
        target < usize::MAX,
    ensures
        m.step().fault is None,
        m.step().machine == (Machine { ip: target + 1, last: Operations::GotoMark, ..m }),
{
}

/// Replaying never writes outside the buffer, provided the instruction
/// pointer is inside it wherever the recorded operation is `r`.
pub proof fn lemma_replay_modifies_in_bounds(m: Machine, count: nat)
    requires
        m.last == Operations::Replace ==> m.ip < m.source.len(),
    ensures
        m.replay(count).fault != Some(Fault::SelfModifyOutOfBounds),
    decreases count,
{
    if count > 0 {
        let first = m.replay_once();
        if first.fault is None {
            lemma_replay_modifies_in_bounds(first.machine, (count - 1) as nat);
        }
    }
}

/// No step self-modifies out of bounds: `r` overwrites the byte that was just
/// fetched, and a replayed `r` the digit that replays it.
pub proof fn lemma_step_modifies_in_bounds(m: Machine)
    ensures
        m.step().fault != Some(Fault::SelfModifyOutOfBounds),
{
    if !m.halted() {
        if let Operations::Repeat(count) = m.fetched() {
            lemma_replay_modifies_in_bounds(m, count as nat);
        }
    }
}

} // verus!
