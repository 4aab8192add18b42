//! The interpreter: the machine's state in executable form and the engine
//! that fetches, decodes and carries out one instruction at a time.

use crate::cpu::{Cpu, Reg, REGISTER_COUNT};
use crate::display::VideoSystem;
use crate::input::{restart_chord, symbol, Event, Key, Keypad};
use crate::instruction::{decode, Instruction};
use crate::machine::{
    digits, written, Fault, KeyWait, Machine, Step, FONT_SPRITES, FONT_SPRITES_LENGTH,
    FONT_SPRITES_MEM_START, FONT_SPRITE_LENGTH, INSTRUCTION_WIDTH, INTERPRETER_END, MEMORY_SIZE,
    STACK_DEPTH,
};
use vstd::prelude::*;

verus! {

/// Why a program could not be loaded.
#[derive(Clone, Copy, Debug, PartialEq, Eq)]
pub enum LoadError {
    /// The program does not fit between the start of program memory and
    /// the end of memory.
    TooLarge,
}

/// The largest number of bytes that a program can have.
pub open spec fn program_capacity() -> int {
    MEMORY_SIZE - INTERPRETER_END
}

/// The bytes of a sequence of instruction words, each word's high byte
/// first.
pub open spec fn big_endian(words: Seq<u16>) -> Seq<u8> {
    Seq::new(
        2 * words.len(),
        |k: int|
            if k % 2 == 0 {
                (words[k / 2] / 0x100) as u8
            } else {
                (words[k / 2] % 0x100) as u8
            },
    )
}

/// Returns the binary-coded decimal form of `input`: its hundreds, tens and
/// ones digits, in this order.
pub fn u8_to_bcd(input: u8) -> (result: [u8; 3])
    ensures
        result@ == digits(input),
{
    let mut result: [u8; 3] = [0; 3];
    result[0] = input / 100;
    result[1] = (input - (result[0] * 100)) / 10;
    result[2] = input - ((result[0] * 100) + (result[1] * 10));
    result
}

/// How `instruction` ends: the wait for a key suspends the machine, every
/// other instruction is complete when it has been carried out.
fn ending_of(instruction: Instruction) -> (ending: Step)
    ensures
        ending == match instruction {
            Instruction::WaitKey { x } => Step::AwaitKey { register: x },
            _ => Step::Done,
        },
{
    match instruction {
        Instruction::WaitKey { x } => Step::AwaitKey { register: x },
        _ => Step::Done,
    }
}

/// The virtual machine: processor, memory, call stack, timers and display.
pub struct Interpreter {
    cpu: Cpu,
    memory: [u8; 4096],
    stack: [u16; 16],
    delay_timer: u8,
    sound_timer: u8,
    video_system: VideoSystem,
}

impl View for Interpreter {
    type V = Machine;

    closed spec fn view(&self) -> Machine {
        Machine {
            v: self.cpu.registers.general(),
            i: self.cpu.registers.i,
            pc: self.cpu.registers.pc,
            sp: self.cpu.registers.sp,
            memory: self.memory@,
            stack: self.stack@,
            delay: self.delay_timer,
            sound: self.sound_timer,
            screen: self.video_system@,
        }
    }
}

impl Interpreter {
    /// The stack pointer names a slot of the stack or stands just past the
    /// last one, and the display is well formed.
    pub closed spec fn wf(&self) -> bool {
        &&& self.cpu.registers.sp <= STACK_DEPTH
        &&& self.video_system.wf()
    }

    /// The state of a well-formed interpreter is a well-formed machine.
    pub proof fn lemma_view_wf(&self)
        requires
            self.wf(),
        ensures
            self@.wf(),
    {
        self.video_system.lemma_size();
    }

    /// Creates an interpreter with the font sprites in place and
    /// everything else at rest.
    pub fn new() -> (interpreter: Interpreter)
        ensures
            interpreter.wf(),
            interpreter@ == Machine::initial(),
    {
        let mut interpreter = Interpreter {
            cpu: Cpu::init(),
            memory: [0; 4096],
            stack: [0; 16],
            delay_timer: 0,
            sound_timer: 0,
            video_system: VideoSystem::default(),
        };
        let mut i: u16 = FONT_SPRITES_MEM_START;
        while i < FONT_SPRITES_MEM_START + FONT_SPRITES_LENGTH
            invariant
                FONT_SPRITES_MEM_START <= i <= FONT_SPRITES_MEM_START + FONT_SPRITES_LENGTH,
                interpreter.wf(),
                interpreter@ == (Machine {
                    memory: written(
                        Seq::new(MEMORY_SIZE as nat, |a: int| 0u8),
                        0,
                        FONT_SPRITES@.take(i as int),
                    ),
                    ..Machine::initial()
                }),
            decreases FONT_SPRITES_MEM_START + FONT_SPRITES_LENGTH - i,
        {
            interpreter.memory[i as usize] = FONT_SPRITES[(i - FONT_SPRITES_MEM_START) as usize];
            i += 1;
        }
        interpreter
    }

    /// Places the program `image` at the start of program memory and points
    /// the program counter at it. An image that does not fit is turned down,
    /// and nothing changes.
    pub fn load_program(&mut self, image: &[u8]) -> (result: Result<(), LoadError>)
        requires
            old(self).wf(),
        ensures
            final(self).wf(),
            image@.len() <= program_capacity() ==> result is Ok && final(self)@ == old(
                self,
            )@.loaded(image@),
            image@.len() > program_capacity() ==> result == Err::<(), LoadError>(
                LoadError::TooLarge,
            ) && final(self)@ == old(self)@,
    {
        if image.len() > (MEMORY_SIZE - INTERPRETER_END) as usize {
            return Err(LoadError::TooLarge);
        }
        let ghost before = self.memory@;
        let mut k: usize = 0;
        while k < image.len()
            invariant
                k <= image@.len() <= program_capacity(),
                before.len() == MEMORY_SIZE,
                self.memory@ == written(before, INTERPRETER_END as int, image@.take(k as int)),
                self.wf(),
                self@ == (Machine { memory: self.memory@, ..old(self)@ }),
            decreases image@.len() - k,
        {
            self.memory[INTERPRETER_END as usize + k] = image[k];
            k += 1;
        }
        self.cpu.registers.pc = INTERPRETER_END;
        Ok(())
    }

    /// Loads a program given as instruction words: each word goes to memory
    /// high byte first. A program that does not fit is turned down, and
    /// nothing changes.
    pub fn load_from_bytes(&mut self, instructions: &[u16]) -> (result: Result<(), LoadError>)
        requires
            old(self).wf(),
        ensures
            final(self).wf(),
            2 * instructions@.len() <= program_capacity() ==> result is Ok && final(self)@ == old(
                self,
            )@.loaded(big_endian(instructions@)),
            2 * instructions@.len() > program_capacity() ==> result == Err::<(), LoadError>(
                LoadError::TooLarge,
            ) && final(self)@ == old(self)@,
    {
        if instructions.len() > ((MEMORY_SIZE - INTERPRETER_END) / 2) as usize {
            return Err(LoadError::TooLarge);
        }
        let ghost before = self.memory@;
        let mut mem_idx: usize = INTERPRETER_END as usize;
        let mut k: usize = 0;
        while k < instructions.len()
            invariant
                k <= instructions@.len(),
                2 * instructions@.len() <= program_capacity(),
                mem_idx == INTERPRETER_END + 2 * k,
                before.len() == MEMORY_SIZE,
                self.memory@ == written(
                    before,
                    INTERPRETER_END as int,
                    big_endian(instructions@.take(k as int)),
                ),
                self.wf(),
                self@ == (Machine { memory: self.memory@, ..old(self)@ }),
            decreases instructions@.len() - k,
        {
            let instruction = instructions[k];
            assert(((instruction >> 8) & 0x00ffu16) == instruction / 0x100) by (bit_vector);
            assert((instruction & 0x00ffu16) == instruction % 0x100) by (bit_vector);
            let high = ((instruction >> 8) & 0x00ffu16) as u8;
            let low = (instruction & 0x00ffu16) as u8;
            self.memory[mem_idx] = high;
            self.memory[mem_idx + 1] = low;
            mem_idx += 2;
            k += 1;
        }
        self.cpu.registers.pc = INTERPRETER_END;
        Ok(())
    }

    /// Fetches the instruction word at the program counter, or nothing if
    /// the word does not lie in memory.
    pub fn fetch(&self) -> (word: Option<u16>)
        ensures
            self@.fetchable() ==> word == Some(self@.fetch()),
            !self@.fetchable() ==> word is None,
    {
        let pc = self.cpu.registers.pc as usize;
        if pc + 1 >= MEMORY_SIZE as usize {
            return None;
        }
        let high = self.memory[pc];
        let low = self.memory[pc + 1];
        assert((((high as u16) << 8) | (low as u16)) == (high * 0x100 + low) as u16)
            by (bit_vector);
        Some(((high as u16) << 8) | low as u16)
    }
}

impl Interpreter {
    /// The value of general register `x`.
    fn v(&self, x: u8) -> (value: u8)
        requires
            x < REGISTER_COUNT,
        ensures
            value == self@.v[x as int],
    {
        self.cpu.registers.get(x).unwrap()
    }

    /// Sets general register `x` to `value`.
    fn set_v(&mut self, x: u8, value: u8)
        requires
            old(self).wf(),
        ensures
            final(self).wf(),
            final(self)@ == old(self)@.with_v(x, value),
    {
        self.cpu.registers.set(x, value);
    }

    /// Sets the flags register to `value`.
    fn set_flag(&mut self, value: u8)
        requires
            old(self).wf(),
        ensures
            final(self).wf(),
            final(self)@ == old(self)@.with_flag(value),
    {
        self.cpu.registers.vf = value;
    }

    /// Moves the program counter to the next instruction.
    fn advance(&mut self)
        requires
            old(self).wf(),
            old(self)@.pc + INSTRUCTION_WIDTH <= u16::MAX,
        ensures
            final(self).wf(),
            final(self)@ == old(self)@.advance(),
    {
        self.cpu.registers.pc += INSTRUCTION_WIDTH as u16;
    }

    /// Moves the program counter to the next instruction, and past that one
    /// too if `skip` holds.
    fn skip_next_if(&mut self, skip: bool)
        requires
            old(self).wf(),
            old(self)@.pc + 2 * INSTRUCTION_WIDTH <= u16::MAX,
        ensures
            final(self).wf(),
            final(self)@ == old(self)@.skip_next_if(skip),
    {
        self.advance();
        if skip {
            self.advance();
        }
    }

    /// Calls the subroutine at `addr`.
    fn call(&mut self, addr: u16)
        requires
            old(self).wf(),
            old(self)@.pc + INSTRUCTION_WIDTH <= u16::MAX,
            !old(self)@.stack_full(),
        ensures
            final(self).wf(),
            final(self)@ == old(self)@.called(addr),
    {
        self.cpu.registers.pc += INSTRUCTION_WIDTH as u16;
        self.stack[self.cpu.registers.sp as usize] = self.cpu.registers.pc;
        self.cpu.registers.sp += 1;
        self.cpu.registers.pc = addr;
    }

    /// Returns from a subroutine.
    fn ret(&mut self)
        requires
            old(self).wf(),
        ensures
            final(self).wf(),
            final(self)@ == old(self)@.returned(),
    {
        let sp = match self.cpu.registers.sp {
            0 => 0,
            n @ 1..=15 => {
                self.cpu.registers.sp -= 1;
                n - 1
            },
            _ => 0,
        };
        self.cpu.registers.pc = self.stack[sp as usize];
    }

    /// Puts the carry of `a + b` into the flags register, then the sum, cut
    /// to eight bits, into register `x`.
    fn add(&mut self, x: u8, a: u8, b: u8)
        requires
            old(self).wf(),
        ensures
            final(self).wf(),
            final(self)@ == old(self)@.with_sum(x, a, b),
    {
        let sum: u16 = a as u16 + b as u16;
        if sum > 255 {
            self.set_flag(1);
        } else {
            self.set_flag(0);
        }
        self.set_v(x, (sum % 0x100) as u8);
    }

    /// Puts `a - b`, clamped at zero, into register `x`, after the flags
    /// register has been told whether `a > b`.
    fn subtract(&mut self, x: u8, a: u8, b: u8)
        requires
            old(self).wf(),
        ensures
            final(self).wf(),
            final(self)@ == old(self)@.with_difference(x, a, b),
    {
        if a > b {
            self.set_flag(1);
            self.set_v(x, a - b);
        } else {
            self.set_flag(0);
            self.set_v(x, 0);
        }
    }

    /// Shifts register `x` right by one bit; the bit shifted out goes to the
    /// flags register first.
    fn shift_right(&mut self, x: u8)
        requires
            old(self).wf(),
            x < REGISTER_COUNT,
        ensures
            final(self).wf(),
            final(self)@ == old(self)@.with_flag(old(self)@.v[x as int] % 2).with_v(
                x,
                old(self)@.v[x as int] / 2,
            ),
    {
        let vx = self.v(x);
        assert(vx & 0x01 == vx % 2 && vx >> 1 == vx / 2) by (bit_vector);
        self.set_flag(vx & 0x01);
        self.set_v(x, vx >> 1);
    }

    /// Shifts register `x` left by one bit; the bit shifted out goes to the
    /// flags register first.
    fn shift_left(&mut self, x: u8)
        requires
            old(self).wf(),
            x < REGISTER_COUNT,
        ensures
            final(self).wf(),
            final(self)@ == old(self)@.with_flag(old(self)@.v[x as int] / 0x80).with_v(
                x,
                ((old(self)@.v[x as int] * 2) % 0x100) as u8,
            ),
    {
        let vx = self.v(x);
        assert(vx >> 7 == vx / 0x80 && vx << 1 == ((vx * 2) % 0x100) as u8) by (bit_vector);
        self.set_flag(vx >> 7);
        self.set_v(x, vx << 1);
    }

    /// Blits the `n`-byte sprite at the address register to the cell that
    /// registers `x` and `y` name, and reports a collision in the flags
    /// register.
    fn blit(&mut self, x: u8, y: u8, n: u8)
        requires
            old(self).wf(),
            x < REGISTER_COUNT,
            y < REGISTER_COUNT,
            old(self)@.i + n <= MEMORY_SIZE,
        ensures
            final(self).wf(),
            final(self)@ == old(self)@.blitted(x, y, n),
    {
        let i = self.cpu.registers.i as usize;
        let column = self.v(x);
        let row = self.v(y);
        let sprite = &self.memory[i..i + n as usize];
        let erased = self.video_system.draw(column, row, sprite);
        self.set_flag(
            if erased {
                1
            } else {
                0
            },
        );
    }

    /// Adds register `x` to the address register, in sixteen bits.
    fn add_index(&mut self, x: u8)
        requires
            old(self).wf(),
            x < REGISTER_COUNT,
        ensures
            final(self).wf(),
            final(self)@ == old(self)@.index_added(x),
    {
        let regv = self.v(x);
        self.cpu.registers.i = self.cpu.registers.i.wrapping_add(regv as u16);
    }

    /// Points the address register at the font sprite of the digit in
    /// register `x`, if that register holds a digit.
    fn font_address(&mut self, x: u8)
        requires
            old(self).wf(),
            x < REGISTER_COUNT,
        ensures
            final(self).wf(),
            final(self)@ == old(self)@.font_addressed(x),
    {
        let vx = self.v(x) as u16;
        if vx <= 0xf {
            assert(vx * FONT_SPRITE_LENGTH == vx * 5);
            self.cpu.registers.i = FONT_SPRITES_MEM_START + vx * FONT_SPRITE_LENGTH as u16;
        }
    }

    /// Stores the decimal digits of register `x` at the address register.
    fn store_digits(&mut self, x: u8)
        requires
            old(self).wf(),
            x < REGISTER_COUNT,
            old(self)@.i + 3 <= MEMORY_SIZE,
        ensures
            final(self).wf(),
            final(self)@ == old(self)@.with_memory(
                written(old(self)@.memory, old(self)@.i as int, digits(old(self)@.v[x as int])),
            ),
    {
        let vx = self.v(x);
        let vx_bcd = u8_to_bcd(vx);
        let ireg = self.cpu.registers.i as usize;
        let ghost before = self.memory@;
        let mut k: usize = 0;
        while k < 3
            invariant
                k <= 3,
                ireg + 3 <= MEMORY_SIZE,
                vx_bcd@ == digits(vx),
                before.len() == MEMORY_SIZE,
                self.memory@ == written(before, ireg as int, digits(vx).take(k as int)),
                self.wf(),
                self@ == old(self)@.with_memory(self.memory@),
            decreases 3 - k,
        {
            self.memory[ireg + k] = vx_bcd[k];
            k += 1;
        }
    }

    /// Stores registers `V0`..`Vx` at the address register.
    fn store_registers(&mut self, x: u8)
        requires
            old(self).wf(),
            x < REGISTER_COUNT,
            old(self)@.i + x + 1 <= MEMORY_SIZE,
        ensures
            final(self).wf(),
            final(self)@ == old(self)@.with_memory(
                written(old(self)@.memory, old(self)@.i as int, old(self)@.v.take(x + 1)),
            ),
    {
        let ireg = self.cpu.registers.i;
        let ghost before = self.memory@;
        let ghost v = self@.v;
        let mut k: u8 = 0;
        while k < x + 1
            invariant
                k <= x + 1,
                x < REGISTER_COUNT,
                ireg + x + 1 <= MEMORY_SIZE,
                before.len() == MEMORY_SIZE,
                v.len() == REGISTER_COUNT,
                self.memory@ == written(before, ireg as int, v.take(k as int)),
                self.wf(),
                self@ == old(self)@.with_memory(self.memory@),
                v == old(self)@.v,
                ireg == old(self)@.i,
            decreases x + 1 - k,
        {
            let regv = self.v(k);
            self.memory[(ireg + k as u16) as usize] = regv;
            k += 1;
        }
    }

    /// Loads registers `V0`..`Vx` from the address register.
    fn load_registers(&mut self, x: u8)
        requires
            old(self).wf(),
            x < REGISTER_COUNT,
            old(self)@.i + x + 1 <= MEMORY_SIZE,
        ensures
            final(self).wf(),
            final(self)@ == old(self)@.registers_loaded(x),
    {
        let ireg = self.cpu.registers.i;
        let ghost before = self@;
        proof {
            self.lemma_view_wf();
        }
        let mut k: u8 = 0;
        while k < x + 1
            invariant
                k <= x + 1,
                x < REGISTER_COUNT,
                ireg + x + 1 <= MEMORY_SIZE,
                before == old(self)@,
                before.wf(),
                ireg == before.i,
                self.wf(),
                self@ == (Machine {
                    v: Seq::new(
                        16,
                        |j: int|
                            if j < k {
                                before.memory[before.i + j]
                            } else {
                                before.v[j]
                            },
                    ),
                    ..before
                }),
            decreases x + 1 - k,
        {
            let mem_val = self.memory[(ireg + k as u16) as usize];
            self.set_v(k, mem_val);
            k += 1;
        }
    }

    /// Whether `instruction` would touch memory beyond its last byte.
    fn out_of_memory(&self, instruction: Instruction) -> (out: bool)
        requires
            instruction.valid(),
        ensures
            out == self@.out_of_memory(instruction),
    {
        let i = self.cpu.registers.i as u32;
        match instruction {
            Instruction::Draw { x, y, n } => i + n as u32 > MEMORY_SIZE as u32,
            Instruction::StoreDigits { x } => i + 3 > MEMORY_SIZE as u32,
            Instruction::StoreRegisters { x } | Instruction::LoadRegisters { x } => i + x as u32 + 1
                > MEMORY_SIZE as u32,
            _ => false,
        }
    }

    /// Carries out `instruction`.
    fn perform(&mut self, instruction: Instruction, random: u8, keypad: &Keypad)
        requires
            old(self).wf(),
            instruction.valid(),
            old(self)@.fetchable(),
            instruction is Call ==> !old(self)@.stack_full(),
            !old(self)@.out_of_memory(instruction),
        ensures
            final(self).wf(),
            final(self)@ == old(self)@.execute(instruction, random, keypad@),
    {
        match instruction {
            Instruction::ClearScreen => {
                self.advance();
                self.video_system.clear_screen();
            },
            Instruction::Return => {
                self.ret();
            },
            Instruction::Jump { addr } => {
                self.cpu.registers.pc = addr;
            },
            Instruction::Call { addr } => {
                self.call(addr);
            },
            Instruction::SkipEqualByte { x, kk } => {
                let vx = self.v(x);
                self.skip_next_if(vx == kk);
            },
            Instruction::SkipUnequalByte { x, kk } => {
                let vx = self.v(x);
                self.skip_next_if(vx != kk);
            },
            Instruction::SkipEqual { x, y } => {
                let vx = self.v(x);
                let vy = self.v(y);
                self.skip_next_if(vx == vy);
            },
            Instruction::LoadByte { x, kk } => {
                self.set_v(x, kk);
                self.advance();
            },
            Instruction::AddByte { x, kk } => {
                let vx = self.v(x);
                self.add(x, vx, kk);
                self.advance();
            },
            Instruction::Move { x, y } => {
                let vy = self.v(y);
                self.set_v(x, vy);
                self.advance();
            },
            Instruction::Or { x, y } => {
                let vx = self.v(x);
                let vy = self.v(y);
                self.set_v(x, vx | vy);
                self.advance();
            },
            Instruction::And { x, y } => {
                let vx = self.v(x);
                let vy = self.v(y);
                self.set_v(x, vx & vy);
                self.advance();
            },
            Instruction::Xor { x, y } => {
                let vx = self.v(x);
                let vy = self.v(y);
                self.set_v(x, vx ^ vy);
                self.advance();
            },
            Instruction::Add { x, y } => {
                let vx = self.v(x);
                let vy = self.v(y);
                self.add(x, vx, vy);
                self.advance();
            },
            Instruction::Subtract { x, y } => {
                let vx = self.v(x);
                let vy = self.v(y);
                self.subtract(x, vx, vy);
                self.advance();
            },
            Instruction::ShiftRight { x } => {
                self.shift_right(x);
                self.advance();
            },
            Instruction::SubtractFrom { x, y } => {
                let vx = self.v(x);
                let vy = self.v(y);
                self.subtract(x, vy, vx);
                self.advance();
            },
            Instruction::ShiftLeft { x } => {
                self.shift_left(x);
                self.advance();
            },
            Instruction::SkipUnequal { x, y } => {
                let vx = self.v(x);
                let vy = self.v(y);
                self.skip_next_if(vx != vy);
            },
            Instruction::LoadIndex { addr } => {
                self.cpu.registers.i = addr;
                self.advance();
            },
            Instruction::JumpOffset { addr } => {
                let v0 = self.cpu.registers.v0;
                self.cpu.registers.pc = addr + (v0 as u16);
            },
            Instruction::Random { x, kk } => {
                self.set_v(x, random & kk);
                self.advance();
            },
            Instruction::Draw { x, y, n } => {
                self.advance();
                self.blit(x, y, n);
            },
            Instruction::SkipKey { x } => {
                let vx = self.v(x);
                self.skip_next_if(keypad.is_held(vx));
            },
            Instruction::SkipNoKey { x } => {
                let vx = self.v(x);
                self.skip_next_if(!keypad.is_held(vx));
            },
            Instruction::ReadDelay { x } => {
                self.set_v(x, self.delay_timer);
                self.advance();
            },
            Instruction::WaitKey { x } => {
                self.advance();
            },
            Instruction::SetDelay { x } => {
                self.delay_timer = self.v(x);
                self.advance();
            },
            Instruction::SetSound { x } => {
                self.sound_timer = self.v(x);
                self.advance();
            },
            Instruction::AddIndex { x } => {
                self.advance();
                self.add_index(x);
            },
            Instruction::FontAddress { x } => {
                self.advance();
                self.font_address(x);
            },
            Instruction::StoreDigits { x } => {
                self.advance();
                self.store_digits(x);
            },
            Instruction::StoreRegisters { x } => {
                self.advance();
                self.store_registers(x);
            },
            Instruction::LoadRegisters { x } => {
                self.advance();
                self.load_registers(x);
            },
            Instruction::Nop => {
                self.advance();
            },
        }
    }

    /// Fetches and decodes the instruction at the program counter, and makes
    /// sure that it can be carried out.
    fn issue(&self) -> (result: Result<Instruction, Fault>)
        ensures
            match result {
                Ok(instruction) => {
                    &&& self@.fault() is None
                    &&& instruction == self@.current()
                    &&& instruction.valid()
                },
                Err(fault) => self@.fault() == Some(fault),
            },
    {
        let word = match self.fetch() {
            Some(word) => word,
            None => {
                return Err(Fault::ProgramCounter);
            },
        };
        let instruction = decode(word);
        match instruction {
            Instruction::Call { addr } => {
                if self.cpu.registers.sp >= STACK_DEPTH {
                    return Err(Fault::Stack);
                }
            },
            _ => {},
        }
        if self.out_of_memory(instruction) {
            return Err(Fault::Address);
        }
        Ok(instruction)
    }

    /// Carries out the instruction at the program counter, with `random` as
    /// the byte that a random-number instruction draws and `keypad` as the
    /// keys that a key instruction sees. An instruction that cannot be
    /// fetched, a call with every stack slot taken, and an instruction that
    /// would reach beyond memory are faults and leave the machine as it was.
    pub fn step(&mut self, random: u8, keypad: &Keypad) -> (result: Result<Step, Fault>)
        requires
            old(self).wf(),
        ensures
            final(self).wf(),
            match result {
                Ok(ending) => {
                    &&& old(self)@.fault() is None
                    &&& ending == old(self)@.ending()
                    &&& final(self)@ == old(self)@.step(random, keypad@)
                },
                Err(fault) => {
                    &&& old(self)@.fault() == Some(fault)
                    &&& final(self)@ == old(self)@
                },
            },
    {
        let instruction = match self.issue() {
            Ok(instruction) => instruction,
            Err(fault) => {
                return Err(fault);
            },
        };
        self.perform(instruction, random, keypad);
        Ok(ending_of(instruction))
    }

    /// Executes a single instruction: the one at the program counter. A
    /// random-number instruction draws its byte from the processor's
    /// generator, so all that is known of the outcome is that it is the
    /// outcome for some byte that the generator can give.
    pub fn cycle(&mut self, keypad: &Keypad) -> (result: Result<Step, Fault>)
        requires
            old(self).wf(),
        ensures
            final(self).wf(),
            match result {
                Ok(ending) => {
                    &&& old(self)@.fault() is None
                    &&& ending == old(self)@.ending()
                    &&& exists|random: u8|
                        random < u8::MAX && final(self)@ == #[trigger] old(self)@.step(
                            random,
                            keypad@,
                        )
                },
                Err(fault) => {
                    &&& old(self)@.fault() == Some(fault)
                    &&& final(self)@ == old(self)@
                },
            },
    {
        let instruction = match self.issue() {
            Ok(instruction) => instruction,
            Err(fault) => {
                return Err(fault);
            },
        };
        let random = match instruction {
            Instruction::Random { x, kk } => self.cpu.random_byte(),
            _ => 0,
        };
        self.perform(instruction, random, keypad);
        assert(self@ == old(self)@.step(random, keypad@));
        Ok(ending_of(instruction))
    }

    /// Checks and updates the delay and sound timers: each goes down by one
    /// unless it has run out. The result tells whether the tone is to sound,
    /// which it does as long as the sound timer had not run out.
    pub fn timer_routine(&mut self) -> (tone: bool)
        requires
            old(self).wf(),
        ensures
            final(self).wf(),
            final(self)@ == old(self)@.tick(),
            tone == old(self)@.tone(),
    {
        let sound_timer = self.sound_timer;
        let tone = sound_timer > 0;
        if tone {
            self.sound_timer -= 1;
        }
        let delay_timer = self.delay_timer;
        if delay_timer > 0 {
            self.delay_timer -= 1;
        }
        tone
    }

    /// Restarts the machine: the program counter goes back to zero and the
    /// display is cleared. Registers, memory, stack and timers stay.
    pub fn restart(&mut self)
        requires
            old(self).wf(),
        ensures
            final(self).wf(),
            final(self)@ == old(self)@.restarted(),
    {
        self.cpu.registers.pc = 0;
        self.video_system.clear_screen();
    }

    /// Hands `event` to a machine that waits for a key to store in
    /// `register`, and tells what became of the wait.
    pub fn key_event(&mut self, register: u8, event: Event) -> (answer: KeyWait)
        requires
            old(self).wf(),
        ensures
            final(self).wf(),
            answer == Machine::key_answer(event),
            final(self)@ == old(self)@.key_event(register, event),
    {
        match event {
            Event::KeyDown { key, lshift, rshift } => {
                match symbol(key) {
                    Some(entered) => {
                        self.set_v(register, entered);
                        KeyWait::Stored
                    },
                    None => {
                        match key {
                            Key::R => {
                                if lshift || rshift {
                                    self.restart();
                                    KeyWait::Restarted
                                } else {
                                    KeyWait::Pending
                                }
                            },
                            _ => KeyWait::Pending,
                        }
                    },
                }
            },
            Event::Quit => KeyWait::Quit,
            Event::Other => KeyWait::Pending,
        }
    }

    /// Hands out the display for showing if it changed since the last time.
    pub fn render_screen(&mut self) -> (frame: Option<Vec<bool>>)
        requires
            old(self).wf(),
        ensures
            final(self).wf(),
            final(self)@ == old(self)@.shown(),
            old(self)@.screen.dirty ==> frame is Some && frame->0@ == old(self)@.screen.pixels,
            !old(self)@.screen.dirty ==> frame is None,
    {
        self.video_system.render_screen()
    }
}

impl Interpreter {
    /// Reacts to the event polled at the start of a frame. A request to
    /// quit ends the run: the result is `false`. A key press while the
    /// restart chord is held restarts the machine. Nothing else has any
    /// effect.
    pub fn poll(&mut self, event: Event, pressed: &[Key]) -> (running: bool)
        requires
            old(self).wf(),
        ensures
            final(self).wf(),
            running == !(event is Quit),
            final(self)@ == old(self)@.polled(event, pressed@),
    {
        match event {
            Event::Quit => false,
            Event::KeyDown { key, lshift, rshift } => {
                if restart_chord(pressed) {
                    self.restart();
                }
                true
            },
            Event::Other => true,
        }
    }

    /// The register file.
    pub fn registers(&self) -> (registers: &Reg)
        ensures
            registers.general() == self@.v,
            registers.i == self@.i,
            registers.pc == self@.pc,
            registers.sp == self@.sp,
    {
        &self.cpu.registers
    }

    /// The byte of memory at `address`, or nothing beyond the end of memory.
    pub fn memory_at(&self, address: u16) -> (byte: Option<u8>)
        ensures
            address < MEMORY_SIZE ==> byte == Some(self@.memory[address as int]),
            address >= MEMORY_SIZE ==> byte is None,
    {
        if address < MEMORY_SIZE {
            Some(self.memory[address as usize])
        } else {
            None
        }
    }

    /// The return address in slot `slot` of the call stack, or nothing beyond
    /// the last slot.
    pub fn stack_at(&self, slot: u8) -> (address: Option<u16>)
        ensures
            slot < STACK_DEPTH ==> address == Some(self@.stack[slot as int]),
            slot >= STACK_DEPTH ==> address is None,
    {
        if slot < STACK_DEPTH {
            Some(self.stack[slot as usize])
        } else {
            None
        }
    }

    /// The delay timer.
    pub fn delay_timer(&self) -> (timer: u8)
        ensures
            timer == self@.delay,
    {
        self.delay_timer
    }

    /// The sound timer.
    pub fn sound_timer(&self) -> (timer: u8)
        ensures
            timer == self@.sound,
    {
        self.sound_timer
    }

    /// The display.
    pub fn video(&self) -> (video: &VideoSystem)
        requires
            self.wf(),
        ensures
            video.wf(),
            video@ == self@.screen,
    {
        &self.video_system
    }
}

} // verus!
