//! The machine as a mathematical object: its state and what each instruction,
//! a timer tick, a restart and a key event make of it. The executable
//! interpreter is specified against these definitions.

use crate::cpu::{FLAG_REGISTER, REGISTER_COUNT};
use crate::display::{blank, drawable, drawn, erases, Screen, SCREEN_CELLS};
use crate::input::{enters, held, is_restart_chord, symbol_of, Event, Key};
use crate::instruction::{decoded, Instruction};
use vstd::prelude::*;

verus! {

/// Number of bytes of memory.
pub const MEMORY_SIZE: u16 = 4096;

/// First address of a loaded program; the addresses below it belong to the
/// interpreter.
pub const INTERPRETER_END: u16 = 512;

/// Address of the first font sprite.
pub const FONT_SPRITES_MEM_START: u16 = 0;

/// Number of slots of the call stack.
pub const STACK_DEPTH: u8 = 16;

/// Number of bytes of one instruction.
pub const INSTRUCTION_WIDTH: u8 = 2;

/// Number of bytes of one font sprite.
pub const FONT_SPRITE_LENGTH: u8 = 5;

/// Number of bytes of the font.
pub const FONT_SPRITES_LENGTH: u16 = 80;

/// The sprites of the sixteen hexadecimal digits, five bytes each.
pub const FONT_SPRITES: [u8; 80] = [
    0xf0, 0x90, 0x90, 0x90, 0xf0,
    0x20, 0x60, 0x20, 0x20, 0x70,
    0xf0, 0x10, 0xf0, 0x80, 0xf0,
    0xf0, 0x10, 0xf0, 0x10, 0xf0,
    0x90, 0x90, 0xf0, 0x10, 0x10,
    0xf0, 0x80, 0xf0, 0x10, 0xf0,
    0xf0, 0x80, 0xf0, 0x90, 0xf0,
    0xf0, 0x10, 0x20, 0x40, 0x40,
    0xf0, 0x90, 0xf0, 0x90, 0xf0,
    0xf0, 0x90, 0xf0, 0x10, 0xf0,
    0xf0, 0x90, 0xf0, 0x90, 0x90,
    0xe0, 0x90, 0xe0, 0x90, 0xe0,
    0xf0, 0x80, 0x80, 0x80, 0xf0,
    0xe0, 0x90, 0x90, 0x90, 0xe0,
    0xf0, 0x80, 0xf0, 0x80, 0xf0,
    0xf0, 0x80, 0xf0, 0x80, 0x80,
];

/// Why an instruction could not be carried out.
#[derive(Clone, Copy, Debug, PartialEq, Eq)]
pub enum Fault {
    /// The program counter points at or beyond the last byte of memory, so
    /// there is no instruction word to fetch.
    ProgramCounter,
    /// The instruction reads or writes memory beyond its last byte.
    Address,
    /// The instruction is a call, and every slot of the call stack is taken.
    Stack,
}

/// How an instruction ended.
#[derive(Clone, Copy, Debug, PartialEq, Eq)]
pub enum Step {
    /// The instruction is complete.
    Done,
    /// The machine is suspended until a key press has been stored in the
    /// general register `register`.
    AwaitKey { register: u8 },
}

/// What a key event did to a machine that waits for a key.
#[derive(Clone, Copy, Debug, PartialEq, Eq)]
pub enum KeyWait {
    /// The event was not for the machine: it goes on waiting.
    Pending,
    /// A key symbol was stored and the wait is over.
    Stored,
    /// The restart chord came and the wait is over.
    Restarted,
    /// The user asked for the machine to stop.
    Quit,
}

/// The big-endian 16-bit word made of two bytes.
pub open spec fn word_of(high: u8, low: u8) -> u16 {
    (high * 0x100 + low) as u16
}

/// The decimal digits of a byte: hundreds, tens, ones.
pub open spec fn digits(value: u8) -> Seq<u8> {
    seq![value / 100, (value / 10) % 10, value % 10]
}

/// `memory` with `bytes` written at address `at` onwards.
pub open spec fn written(memory: Seq<u8>, at: int, bytes: Seq<u8>) -> Seq<u8> {
    Seq::new(
        memory.len(),
        |a: int|
            if at <= a < at + bytes.len() {
                bytes[a - at]
            } else {
                memory[a]
            },
    )
}

/// The state of the machine.
#[verifier::ext_equal]
pub struct Machine {
    /// The general registers `V0`..`VF`.
    pub v: Seq<u8>,
    /// The address register.
    pub i: u16,
    /// The program counter.
    pub pc: u16,
    /// The stack pointer: the next free slot of the call stack.
    pub sp: u8,
    /// The 4096 bytes of memory.
    pub memory: Seq<u8>,
    /// The sixteen slots of the call stack.
    pub stack: Seq<u16>,
    /// The delay timer.
    pub delay: u8,
    /// The sound timer.
    pub sound: u8,
    /// The display.
    pub screen: Screen,
}

impl Machine {
    /// The sizes of the parts are those of the architecture, and the stack
    /// pointer names a slot of the stack or, with every slot taken, stands
    /// just past the last one.
    pub open spec fn wf(self) -> bool {
        &&& self.v.len() == REGISTER_COUNT
        &&& self.memory.len() == MEMORY_SIZE
        &&& self.stack.len() == STACK_DEPTH
        &&& self.sp <= STACK_DEPTH
        &&& self.screen.pixels.len() == SCREEN_CELLS
    }

    /// The machine as it is switched on: the font sprites at the bottom of
    /// memory, everything else zero, the display blank and due to be shown.
    pub open spec fn initial() -> Machine {
        Machine {
            v: Seq::new(16, |k: int| 0u8),
            i: 0,
            pc: 0,
            sp: 0,
            memory: written(Seq::new(MEMORY_SIZE as nat, |a: int| 0u8), 0, FONT_SPRITES@),
            stack: Seq::new(STACK_DEPTH as nat, |k: int| 0u16),
            delay: 0,
            sound: 0,
            screen: Screen { pixels: blank(), dirty: true },
        }
    }

    /// The machine after `image` has been placed at the start of program
    /// memory and the program counter has been pointed at it.
    pub open spec fn loaded(self, image: Seq<u8>) -> Machine {
        Machine {
            memory: written(self.memory, INTERPRETER_END as int, image),
            pc: INTERPRETER_END,
            ..self
        }
    }

    /// Whether both bytes of the instruction word at the program counter lie
    /// in memory.
    pub open spec fn fetchable(self) -> bool {
        self.pc + 1 < MEMORY_SIZE
    }

    /// The instruction word at the program counter.
    pub open spec fn fetch(self) -> u16 {
        word_of(self.memory[self.pc as int], self.memory[self.pc + 1])
    }

    /// The instruction at the program counter.
    pub open spec fn current(self) -> Instruction {
        decoded(self.fetch())
    }

    /// The program counter moved to the next instruction.
    pub open spec fn advance(self) -> Machine {
        Machine { pc: (self.pc + INSTRUCTION_WIDTH) as u16, ..self }
    }

    /// The program counter moved to the next instruction, and past that one
    /// too if `skip` holds.
    pub open spec fn skip_next_if(self, skip: bool) -> Machine {
        if skip {
            self.advance().advance()
        } else {
            self.advance()
        }
    }

    /// General register `x` set to `value`; there is no register beyond
    /// `VF`, and a write to one changes nothing.
    pub open spec fn with_v(self, x: u8, value: u8) -> Machine {
        if x < REGISTER_COUNT {
            Machine { v: self.v.update(x as int, value), ..self }
        } else {
            self
        }
    }

    /// The flags register set to `value`.
    pub open spec fn with_flag(self, value: u8) -> Machine {
        self.with_v(FLAG_REGISTER, value)
    }

    /// The flags register takes the carry of `a + b`, then register `x`
    /// takes the sum, cut to eight bits.
    pub open spec fn with_sum(self, x: u8, a: u8, b: u8) -> Machine {
        let carry = if a + b > 255 {
            1u8
        } else {
            0u8
        };
        self.with_flag(carry).with_v(x, ((a + b) % 0x100) as u8)
    }

    /// If `a > b`, the flags register is set and register `x` takes `a - b`;
    /// otherwise the flags register is cleared and register `x` takes zero.
    /// The flags register is written first.
    pub open spec fn with_difference(self, x: u8, a: u8, b: u8) -> Machine {
        if a > b {
            self.with_flag(1).with_v(x, (a - b) as u8)
        } else {
            self.with_flag(0).with_v(x, 0)
        }
    }

    /// The call of the subroutine at `addr`: the address of the next
    /// instruction goes to the stack slot under the stack pointer, and the
    /// stack pointer moves up by one. A call needs a free slot: see
    /// `stack_full`.
    pub open spec fn called(self, addr: u16) -> Machine {
        Machine {
            stack: self.stack.update(self.sp as int, (self.pc + INSTRUCTION_WIDTH) as u16),
            sp: (self.sp + 1) as u8,
            pc: addr,
            ..self
        }
    }

    /// Whether every slot of the call stack is taken, so that a call has
    /// nowhere to put its return address.
    pub open spec fn stack_full(self) -> bool {
        self.sp >= STACK_DEPTH
    }

    /// The return from a subroutine. With the stack pointer at one to
    /// fifteen it moves down by one and the program counter takes what the
    /// slot now under it holds. With the stack pointer at zero, or past the
    /// last slot, it stays where it is and the program counter takes what
    /// slot zero holds.
    pub open spec fn returned(self) -> Machine {
        if 1 <= self.sp < STACK_DEPTH {
            Machine { sp: (self.sp - 1) as u8, pc: self.stack[self.sp - 1], ..self }
        } else {
            Machine { pc: self.stack[0], ..self }
        }
    }

    /// The display cleared and marked as changed.
    pub open spec fn cleared(self) -> Machine {
        Machine { screen: Screen { pixels: blank(), dirty: true }, ..self }
    }

    /// The `n` bytes of memory at the address register: a sprite.
    pub open spec fn sprite(self, n: u8) -> Seq<u8> {
        self.memory.subrange(self.i as int, self.i + n)
    }

    /// The blit of the `n`-byte sprite at the address register to the cell
    /// that registers `x` and `y` name; the flags register tells whether a
    /// lit cell went off.
    pub open spec fn blitted(self, x: u8, y: u8, n: u8) -> Machine {
        let column = self.v[x as int];
        let row = self.v[y as int];
        let sprite = self.sprite(n);
        let erased = if erases(self.screen.pixels, column, row, sprite) {
            1u8
        } else {
            0u8
        };
        Machine {
            screen: Screen {
                pixels: drawn(self.screen.pixels, column, row, sprite),
                dirty: self.screen.dirty || drawable(column, row, sprite),
            },
            ..self.with_flag(erased)
        }
    }

    /// The address register moved up by the value of register `x`, in
    /// sixteen bits.
    pub open spec fn index_added(self, x: u8) -> Machine {
        Machine { i: ((self.i + self.v[x as int]) % 0x10000) as u16, ..self }
    }

    /// The address register pointed at the font sprite of the digit in
    /// register `x`; left alone if that register holds no digit.
    pub open spec fn font_addressed(self, x: u8) -> Machine {
        let digit = self.v[x as int];
        if digit <= 0xf {
            Machine { i: (FONT_SPRITES_MEM_START + digit * FONT_SPRITE_LENGTH) as u16, ..self }
        } else {
            self
        }
    }

    /// Registers `V0`..`Vx` loaded from memory at the address register.
    pub open spec fn registers_loaded(self, x: u8) -> Machine {
        Machine {
            v: Seq::new(
                16,
                |k: int|
                    if k <= x {
                        self.memory[self.i + k]
                    } else {
                        self.v[k]
                    },
            ),
            ..self
        }
    }

    /// `memory` replaced.
    pub open spec fn with_memory(self, memory: Seq<u8>) -> Machine {
        Machine { memory, ..self }
    }

    /// What carrying out `instruction` makes of the machine, given the random
    /// byte and the keypad snapshot that the instruction may consult.
    pub open spec fn execute(
        self,
        instruction: Instruction,
        random: u8,
        keys: Seq<bool>,
    ) -> Machine {
        match instruction {
            Instruction::ClearScreen => self.advance().cleared(),
            Instruction::Return => self.returned(),
            Instruction::Jump { addr } => Machine { pc: addr, ..self },
            Instruction::Call { addr } => self.called(addr),
            Instruction::SkipEqualByte { x, kk } => self.skip_next_if(self.v[x as int] == kk),
            Instruction::SkipUnequalByte { x, kk } => self.skip_next_if(self.v[x as int] != kk),
            Instruction::SkipEqual { x, y } => self.skip_next_if(
                self.v[x as int] == self.v[y as int],
            ),
            Instruction::LoadByte { x, kk } => self.with_v(x, kk).advance(),
            Instruction::AddByte { x, kk } => self.with_sum(x, self.v[x as int], kk).advance(),
            Instruction::Move { x, y } => self.with_v(x, self.v[y as int]).advance(),
            Instruction::Or { x, y } => self.with_v(
                x,
                self.v[x as int] | self.v[y as int],
            ).advance(),
            Instruction::And { x, y } => self.with_v(
                x,
                self.v[x as int] & self.v[y as int],
            ).advance(),
            Instruction::Xor { x, y } => self.with_v(
                x,
                self.v[x as int] ^ self.v[y as int],
            ).advance(),
            Instruction::Add { x, y } => self.with_sum(
                x,
                self.v[x as int],
                self.v[y as int],
            ).advance(),
            Instruction::Subtract { x, y } => self.with_difference(
                x,
                self.v[x as int],
                self.v[y as int],
            ).advance(),
            Instruction::ShiftRight { x } => self.with_flag(self.v[x as int] % 2).with_v(
                x,
                self.v[x as int] / 2,
            ).advance(),
            Instruction::SubtractFrom { x, y } => self.with_difference(
                x,
                self.v[y as int],
                self.v[x as int],
            ).advance(),
            Instruction::ShiftLeft { x } => self.with_flag(self.v[x as int] / 0x80).with_v(
                x,
                ((self.v[x as int] * 2) % 0x100) as u8,
            ).advance(),
            Instruction::SkipUnequal { x, y } => self.skip_next_if(
                self.v[x as int] != self.v[y as int],
            ),
            Instruction::LoadIndex { addr } => Machine { i: addr, ..self.advance() },
            Instruction::JumpOffset { addr } => Machine { pc: (addr + self.v[0]) as u16, ..self },
            Instruction::Random { x, kk } => self.with_v(x, random & kk).advance(),
            Instruction::Draw { x, y, n } => self.advance().blitted(x, y, n),
            Instruction::SkipKey { x } => self.skip_next_if(held(keys, self.v[x as int])),
            Instruction::SkipNoKey { x } => self.skip_next_if(!held(keys, self.v[x as int])),
            Instruction::ReadDelay { x } => self.with_v(x, self.delay).advance(),
            Instruction::WaitKey { x } => self.advance(),
            Instruction::SetDelay { x } => Machine { delay: self.v[x as int], ..self.advance() },
            Instruction::SetSound { x } => Machine { sound: self.v[x as int], ..self.advance() },
            Instruction::AddIndex { x } => self.advance().index_added(x),
            Instruction::FontAddress { x } => self.advance().font_addressed(x),
            Instruction::StoreDigits { x } => self.advance().with_memory(
                written(self.memory, self.i as int, digits(self.v[x as int])),
            ),
            Instruction::StoreRegisters { x } => self.advance().with_memory(
                written(self.memory, self.i as int, self.v.take(x + 1)),
            ),
            Instruction::LoadRegisters { x } => self.advance().registers_loaded(x),
            Instruction::Nop => self.advance(),
        }
    }

    /// Whether `instruction` would touch memory beyond its last byte.
    pub open spec fn out_of_memory(self, instruction: Instruction) -> bool {
        match instruction {
            Instruction::Draw { x, y, n } => self.i + n > MEMORY_SIZE,
            Instruction::StoreDigits { x } => self.i + 3 > MEMORY_SIZE,
            Instruction::StoreRegisters { x } | Instruction::LoadRegisters { x } => self.i + x + 1
                > MEMORY_SIZE,
            _ => false,
        }
    }

    /// Why the instruction at the program counter cannot be carried out, if
    /// it cannot.
    pub open spec fn fault(self) -> Option<Fault> {
        if !self.fetchable() {
            Some(Fault::ProgramCounter)
        } else if self.current() is Call && self.stack_full() {
            Some(Fault::Stack)
        } else if self.out_of_memory(self.current()) {
            Some(Fault::Address)
        } else {
            None
        }
    }

    /// The machine after the instruction at the program counter.
    pub open spec fn step(self, random: u8, keys: Seq<bool>) -> Machine {
        self.execute(self.current(), random, keys)
    }

    /// How the instruction at the program counter ends.
    pub open spec fn ending(self) -> Step {
        match self.current() {
            Instruction::WaitKey { x } => Step::AwaitKey { register: x },
            _ => Step::Done,
        }
    }

    /// One tick of both timers: each goes down by one unless it is zero.
    pub open spec fn tick(self) -> Machine {
        Machine { delay: ticked(self.delay), sound: ticked(self.sound), ..self }
    }

    /// Whether the tone is to sound after the next tick: it does while the
    /// sound timer has not run out.
    pub open spec fn tone(self) -> bool {
        self.sound > 0
    }

    /// The restart: the program counter back at zero and the display
    /// cleared, everything else as it was.
    pub open spec fn restarted(self) -> Machine {
        Machine { pc: 0, ..self.cleared() }
    }

    /// The display handed out for showing: it is no longer dirty.
    pub open spec fn shown(self) -> Machine {
        Machine { screen: Screen { pixels: self.screen.pixels, dirty: false }, ..self }
    }

    /// The machine after the signal polled at the start of a frame: a key
    /// press that completes the restart chord restarts it, anything else
    /// leaves it as it was.
    pub open spec fn polled(self, event: Event, pressed: Seq<Key>) -> Machine {
        if event is KeyDown && is_restart_chord(pressed) {
            self.restarted()
        } else {
            self
        }
    }

    /// What `event` means to a machine that waits for a key: a key that
    /// enters a symbol ends the wait; so does `R` with a shift key down,
    /// which is the restart chord; a request to quit is handed on; anything
    /// else leaves the machine waiting.
    pub open spec fn key_answer(event: Event) -> KeyWait {
        match event {
            Event::Quit => KeyWait::Quit,
            Event::KeyDown { key, lshift, rshift } => {
                if symbol_of(key) is Some {
                    KeyWait::Stored
                } else if key == Key::R && (lshift || rshift) {
                    KeyWait::Restarted
                } else {
                    KeyWait::Pending
                }
            },
            Event::Other => KeyWait::Pending,
        }
    }

    /// The machine after `event` has reached it while it waits for a key
    /// that is to go to `register`.
    pub open spec fn key_event(self, register: u8, event: Event) -> Machine {
        match event {
            Event::KeyDown { key, lshift, rshift } => {
                match symbol_of(key) {
                    Some(symbol) => self.with_v(register, symbol),
                    None => if key == Key::R && (lshift || rshift) {
                        self.restarted()
                    } else {
                        self
                    },
                }
            },
            _ => self,
        }
    }
}

/// What reaches the machine in the course of one frame.
pub struct FrameInput {
    /// The event polled at the start of the frame.
    pub event: Event,
    /// The keys that are down at the start of the frame.
    pub pressed: Seq<Key>,
    /// The byte that a random-number instruction draws.
    pub random: u8,
    /// The event that ends the wait, if the frame's instruction waits for a
    /// key.
    pub answer: Event,
}

impl Machine {
    /// The machine as it stands when the instruction of a frame is fetched:
    /// after the signal polled at the start of the frame.
    pub open spec fn at_fetch(self, input: FrameInput) -> Machine {
        self.polled(input.event, input.pressed)
    }

    /// Whether a frame with `input` runs to its end: the user does not ask
    /// to quit, the instruction can be carried out, and if it waits for a
    /// key, `input.answer` ends the wait.
    pub open spec fn completes(self, input: FrameInput) -> bool {
        &&& !(input.event is Quit)
        &&& self.at_fetch(input).fault() is None
        &&& self.at_fetch(input).ending() is AwaitKey ==> {
            ||| Machine::key_answer(input.answer) is Stored
            ||| Machine::key_answer(input.answer) is Restarted
        }
    }

    /// One frame: the polled signal, one instruction, the answer to its key
    /// wait if it waits, one tick of the timers, and the display shown.
    pub open spec fn frame(self, input: FrameInput) -> Machine {
        let fetched = self.at_fetch(input);
        let stepped = fetched.step(input.random, keypad_of(input.pressed));
        let answered = match fetched.ending() {
            Step::AwaitKey { register } => stepped.key_event(register, input.answer),
            Step::Done => stepped,
        };
        answered.tick().shown()
    }

    /// The machine after the frames with `inputs`, in order.
    pub open spec fn frames(self, inputs: Seq<FrameInput>) -> Machine
        decreases inputs.len(),
    {
        if inputs.len() == 0 {
            self
        } else {
            self.frames(inputs.drop_last()).frame(inputs.last())
        }
    }
}

/// The snapshot of the keypad when exactly the keys in `pressed` are down.
pub open spec fn keypad_of(pressed: Seq<Key>) -> Seq<bool> {
    Seq::new(16, |s: int| enters(pressed, s as u8))
}

/// A timer after one tick.
pub open spec fn ticked(timer: u8) -> u8 {
    if timer > 0 {
        (timer - 1) as u8
    } else {
        0
    }
}

/// A timer after `count` ticks.
pub open spec fn ticked_times(timer: u8, count: nat) -> u8
    decreases count,
{
    if count == 0 {
        timer
    } else {
        ticked(ticked_times(timer, (count - 1) as nat))
    }
}

} // verus!
