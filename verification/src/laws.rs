//! Laws of the machine: what holds of every state and of every run, proved
//! from the definitions that the interpreter is specified against.

use crate::cpu::{FLAG_REGISTER, REGISTER_COUNT};
use crate::instruction::{decoded, lemma_decoded_valid, Instruction};
use crate::machine::{
    keypad_of, ticked, ticked_times, Fault, FrameInput, Machine, FONT_SPRITES_LENGTH,
    FONT_SPRITES_MEM_START, INSTRUCTION_WIDTH, INTERPRETER_END, STACK_DEPTH,
};
use vstd::prelude::*;

verus! {

/// The word `6xkk` is the instruction `Vx = kk`.
pub proof fn lemma_load_byte_word(x: u8, kk: u8)
    requires
        x < REGISTER_COUNT,
    ensures
        decoded((0x6000 + x * 0x100 + kk) as u16) == (Instruction::LoadByte { x, kk }),
{
}

/// After `Vx = kk`, register `x` reads `kk`, whatever `kk` is, and every
/// other register reads what it read before.
pub proof fn lemma_load_then_read(m: Machine, x: u8, kk: u8, random: u8, keys: Seq<bool>)
    requires
        m.wf(),
        x < REGISTER_COUNT,
        m.current() == (Instruction::LoadByte { x, kk }),
    ensures
        m.step(random, keys).v[x as int] == kk,
        forall|other: int|
            0 <= other < REGISTER_COUNT && other != x ==> m.step(random, keys).v[other]
                == m.v[other],
{
}

/// `Vx = Vx + Vy` stores the sum modulo 256 in register `x`. Unless `x` is
/// the flags register itself, the flags register then holds one if the sum
/// is above 255 and zero if it is not. With the flags register as `x`, the
/// sum is what stays, so the flag can be read only where the two agree.
pub proof fn lemma_add_sets_carry(m: Machine, x: u8, y: u8, random: u8, keys: Seq<bool>)
    requires
        m.wf(),
        x < REGISTER_COUNT,
        y < REGISTER_COUNT,
        m.current() == (Instruction::Add { x, y }),
    ensures
        m.step(random, keys).v[x as int] == (m.v[x as int] + m.v[y as int]) % 256,
        ({
            let sum = m.v[x as int] + m.v[y as int];
            x != FLAG_REGISTER || sum == 0 || sum == 257
        }) ==> m.step(random, keys).v[FLAG_REGISTER as int] == (if m.v[x as int] + m.v[y as int]
            > 255 {
            1int
        } else {
            0int
        }),
{
}

/// `Vx = Vx - Vy`: if `Vx > Vy`, register `x` takes the difference and the
/// flags register takes one; otherwise both take zero. With the flags
/// register as `x` the difference is what stays, so this holds there only
/// if the difference is itself the flag.
pub proof fn lemma_subtract_clamps(m: Machine, x: u8, y: u8, random: u8, keys: Seq<bool>)
    requires
        m.wf(),
        x < REGISTER_COUNT,
        y < REGISTER_COUNT,
        m.current() == (Instruction::Subtract { x, y }),
        x != FLAG_REGISTER || m.v[x as int] <= m.v[y as int] || m.v[x as int] == m.v[y as int] + 1,
    ensures
        m.v[x as int] > m.v[y as int] ==> {
            &&& m.step(random, keys).v[x as int] == m.v[x as int] - m.v[y as int]
            &&& m.step(random, keys).v[FLAG_REGISTER as int] == 1
        },
        m.v[x as int] <= m.v[y as int] ==> {
            &&& m.step(random, keys).v[x as int] == 0
            &&& m.step(random, keys).v[FLAG_REGISTER as int] == 0
        },
{
}

/// A call that is followed at once by a return brings the program counter
/// to the instruction after the call and the stack pointer to where it was,
/// as long as the call leaves the stack at most fifteen deep.
pub proof fn lemma_call_then_return(
    m: Machine,
    addr: u16,
    random: u8,
    keys: Seq<bool>,
    random_after: u8,
    keys_after: Seq<bool>,
)
    requires
        m.wf(),
        m.fault() is None,
        m.current() == (Instruction::Call { addr }),
        m.step(random, keys).fault() is None,
        m.step(random, keys).current() == Instruction::Return,
        m.sp + 1 < STACK_DEPTH,
    ensures
        m.step(random, keys).step(random_after, keys_after).pc == m.pc + INSTRUCTION_WIDTH,
        m.step(random, keys).step(random_after, keys_after).sp == m.sp,
{
}

/// A call puts its return address into the slot under the stack pointer and
/// moves the stack pointer up by one; it touches no other slot.
pub proof fn lemma_call_pushes(m: Machine, addr: u16, random: u8, keys: Seq<bool>)
    requires
        m.wf(),
        m.fault() is None,
        m.current() == (Instruction::Call { addr }),
    ensures
        m.sp < STACK_DEPTH,
        m.step(random, keys).sp == m.sp + 1,
        m.step(random, keys).pc == addr,
        m.step(random, keys).stack == m.stack.update(
            m.sp as int,
            (m.pc + INSTRUCTION_WIDTH) as u16,
        ),
{
}

/// With every slot of the stack taken, a call is a fault, and a return reads
/// slot zero and leaves the stack pointer where it is.
pub proof fn lemma_full_stack(m: Machine, random: u8, keys: Seq<bool>)
    requires
        m.wf(),
        m.fetchable(),
        m.sp == STACK_DEPTH,
    ensures
        m.current() is Call ==> m.fault() == Some(Fault::Stack),
        m.current() is Return ==> m.step(random, keys).pc == m.stack[0] && m.step(
            random,
            keys,
        ).sp == m.sp,
{
}

/// An instruction of a well-formed machine that can be carried out leaves
/// the machine well formed: the stack pointer goes on naming a slot of the
/// stack, and no part changes its size.
pub proof fn lemma_step_keeps_wf(m: Machine, random: u8, keys: Seq<bool>)
    requires
        m.wf(),
        m.fault() is None,
    ensures
        m.step(random, keys).wf(),
{
}

/// A whole frame that runs to its end leaves a well-formed machine well
/// formed.
pub proof fn lemma_frame_keeps_wf(m: Machine, input: FrameInput)
    requires
        m.wf(),
        m.completes(input),
    ensures
        m.frame(input).wf(),
{
    let fetched = m.at_fetch(input);
    lemma_step_keeps_wf(fetched, input.random, keypad_of(input.pressed));
}

/// The flags register changes only under an instruction that defines a flag
/// or that names the flags register as the place of its result. An
/// instruction that defines a flag and puts its result elsewhere leaves zero
/// or one in the flags register.
pub proof fn lemma_flag_register(m: Machine, random: u8, keys: Seq<bool>)
    requires
        m.wf(),
    ensures
        !m.current().defines_flag() && !m.current().writes_register(FLAG_REGISTER) ==> m.step(
            random,
            keys,
        ).v[FLAG_REGISTER as int] == m.v[FLAG_REGISTER as int],
        m.current().defines_flag() && !m.current().writes_register(FLAG_REGISTER) ==> m.step(
            random,
            keys,
        ).v[FLAG_REGISTER as int] <= 1,
{
    lemma_decoded_valid(m.fetch());
}

/// A general register changes only under an instruction that puts its
/// result there, or, for the flags register, under one that defines a flag.
pub proof fn lemma_register_kept(m: Machine, r: u8, random: u8, keys: Seq<bool>)
    requires
        m.wf(),
        r < REGISTER_COUNT,
        !m.current().writes_register(r),
        r == FLAG_REGISTER ==> !m.current().defines_flag(),
    ensures
        m.step(random, keys).v[r as int] == m.v[r as int],
{
    lemma_decoded_valid(m.fetch());
}

/// The display changes only under the instructions that clear it and that
/// blit to it.
pub proof fn lemma_display_changed_only_by_clear_and_draw(
    m: Machine,
    random: u8,
    keys: Seq<bool>,
)
    requires
        !(m.current() is ClearScreen),
        !(m.current() is Draw),
    ensures
        m.step(random, keys).screen == m.screen,
{
}

/// The call stack changes only under a call.
pub proof fn lemma_stack_written_only_by_call(m: Machine, random: u8, keys: Seq<bool>)
    requires
        !(m.current() is Call),
    ensures
        m.step(random, keys).stack == m.stack,
{
}

/// The font sprites stay as they are under every instruction but a store
/// that is aimed at them.
pub proof fn lemma_font_kept(m: Machine, random: u8, keys: Seq<bool>)
    requires
        m.wf(),
        m.current() is StoreDigits || m.current() is StoreRegisters ==> m.i
            >= FONT_SPRITES_MEM_START + FONT_SPRITES_LENGTH,
    ensures
        forall|a: int|
            FONT_SPRITES_MEM_START <= a < FONT_SPRITES_MEM_START + FONT_SPRITES_LENGTH ==> m.step(
                random,
                keys,
            ).memory[a] == m.memory[a],
{
}

/// Loading a program leaves everything below the start of program memory
/// as it is, the font sprites among it.
pub proof fn lemma_load_keeps_interpreter_area(m: Machine, image: Seq<u8>)
    requires
        m.wf(),
    ensures
        forall|a: int| 0 <= a < INTERPRETER_END ==> m.loaded(image).memory[a] == m.memory[a],
{
}

/// Memory changes only under the two instructions that store to it.
pub proof fn lemma_memory_written_only_by_stores(m: Machine, random: u8, keys: Seq<bool>)
    requires
        !(m.current() is StoreDigits),
        !(m.current() is StoreRegisters),
    ensures
        m.step(random, keys).memory == m.memory,
{
}

/// The byte drawn by the generator matters to the random-number
/// instruction alone.
pub proof fn lemma_random_matters_to_random_only(
    m: Machine,
    random: u8,
    other: u8,
    keys: Seq<bool>,
)
    requires
        !(m.current() is Random),
    ensures
        m.step(random, keys) == m.step(other, keys),
{
}

/// `count` ticks take `count` off a timer, but never take it below zero.
pub proof fn lemma_ticked_times(timer: u8, count: nat)
    ensures
        ticked_times(timer, count) == if count < timer {
            timer - count
        } else {
            0
        },
    decreases count,
{
    if count > 0 {
        lemma_ticked_times(timer, (count - 1) as nat);
    }
}

/// A timer that starts at `start` and is not written to reads zero after
/// `start` ticks, and after any number of ticks beyond that.
pub proof fn lemma_timer_runs_out(start: u8, count: nat)
    requires
        count >= start,
    ensures
        ticked_times(start, count) == 0,
{
    lemma_ticked_times(start, count);
}

/// A frame whose instruction does not set the delay timer takes one tick off
/// the delay timer, and does nothing else to it.
pub proof fn lemma_frame_ticks_delay(m: Machine, input: FrameInput)
    requires
        !(m.at_fetch(input).current() is SetDelay),
    ensures
        m.frame(input).delay == ticked(m.delay),
{
}

/// Over a run of frames none of which sets the delay timer, the delay timer
/// goes down by one a frame until it reaches zero.
pub proof fn lemma_delay_counts_frames(m: Machine, inputs: Seq<FrameInput>)
    requires
        forall|j: int|
            0 <= j < inputs.len() ==> !((#[trigger] m.frames(inputs.take(j))).at_fetch(
                inputs[j],
            ).current() is SetDelay),
    ensures
        m.frames(inputs).delay == ticked_times(m.delay, inputs.len()),
    decreases inputs.len(),
{
    if inputs.len() > 0 {
        let head = inputs.drop_last();
        assert forall|j: int| 0 <= j < head.len() implies !((#[trigger] m.frames(
            head.take(j),
        )).at_fetch(head[j]).current() is SetDelay) by {
            assert(head.take(j) == inputs.take(j));
        }
        lemma_delay_counts_frames(m, head);
        lemma_frame_ticks_delay(m.frames(head), inputs.last());
    }
}

/// A delay timer that starts at `n` reads zero after `n` frames in which no
/// instruction writes to it, and after any longer such run.
pub proof fn lemma_delay_runs_out(m: Machine, inputs: Seq<FrameInput>)
    requires
        inputs.len() >= m.delay,
        forall|j: int|
            0 <= j < inputs.len() ==> !((#[trigger] m.frames(inputs.take(j))).at_fetch(
                inputs[j],
            ).current() is SetDelay),
    ensures
        m.frames(inputs).delay == 0,
{
    lemma_delay_counts_frames(m, inputs);
    lemma_ticked_times(m.delay, inputs.len());
}

} // verus!
