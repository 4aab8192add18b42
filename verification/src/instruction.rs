//! The instruction set: the fields of a 16-bit instruction word and the
//! instruction that a word stands for.

use vstd::prelude::*;

verus! {

/// The opcode class of a word: its top four bits.
pub open spec fn class_of(word: u16) -> u8 {
    (word / 0x1000) as u8
}

/// The `x` field of a word, bits 8 to 11: a register index.
pub open spec fn x_of(word: u16) -> u8 {
    ((word / 0x100) % 0x10) as u8
}

/// The `y` field of a word, bits 4 to 7: a register index.
pub open spec fn y_of(word: u16) -> u8 {
    ((word / 0x10) % 0x10) as u8
}

/// The `n` field of a word: its low four bits.
pub open spec fn n_of(word: u16) -> u8 {
    (word % 0x10) as u8
}

/// The `kk` field of a word: its low byte.
pub open spec fn kk_of(word: u16) -> u8 {
    (word % 0x100) as u8
}

/// The `nnn` field of a word: its low twelve bits, an address.
pub open spec fn nnn_of(word: u16) -> u16 {
    word % 0x1000
}

/// One instruction of the machine, with its operands. `x` and `y` name
/// general registers, `kk` is a byte, `n` a nibble and `addr` a 12-bit
/// address.
#[derive(Clone, Copy, Debug, PartialEq, Eq)]
pub enum Instruction {
    /// `00E0`: clear the display.
    ClearScreen,
    /// `00EE`: return from a subroutine.
    Return,
    /// `1nnn`: jump to `addr`.
    Jump { addr: u16 },
    /// `2nnn`: call the subroutine at `addr`.
    Call { addr: u16 },
    /// `3xkk`: skip the next instruction if `Vx == kk`.
    SkipEqualByte { x: u8, kk: u8 },
    /// `4xkk`: skip the next instruction if `Vx != kk`.
    SkipUnequalByte { x: u8, kk: u8 },
    /// `5xy0`: skip the next instruction if `Vx == Vy`.
    SkipEqual { x: u8, y: u8 },
    /// `6xkk`: `Vx = kk`.
    LoadByte { x: u8, kk: u8 },
    /// `7xkk`: `Vx = Vx + kk`, with the carry in `VF`.
    AddByte { x: u8, kk: u8 },
    /// `8xy0`: `Vx = Vy`.
    Move { x: u8, y: u8 },
    /// `8xy1`: `Vx = Vx | Vy`.
    Or { x: u8, y: u8 },
    /// `8xy2`: `Vx = Vx & Vy`.
    And { x: u8, y: u8 },
    /// `8xy3`: `Vx = Vx ^ Vy`.
    Xor { x: u8, y: u8 },
    /// `8xy4`: `Vx = Vx + Vy`, with the carry in `VF`.
    Add { x: u8, y: u8 },
    /// `8xy5`: `Vx = Vx - Vy`, clamped at zero, `VF` set if `Vx > Vy`.
    Subtract { x: u8, y: u8 },
    /// `8xy6`: `Vx = Vx >> 1`, with the bit shifted out in `VF`.
    ShiftRight { x: u8 },
    /// `8xy7`: `Vx = Vy - Vx`, clamped at zero, `VF` set if `Vy > Vx`.
    SubtractFrom { x: u8, y: u8 },
    /// `8xyE`: `Vx = Vx << 1`, with the bit shifted out in `VF`.
    ShiftLeft { x: u8 },
    /// `9xy0`: skip the next instruction if `Vx != Vy`.
    SkipUnequal { x: u8, y: u8 },
    /// `Annn`: `I = addr`.
    LoadIndex { addr: u16 },
    /// `Bnnn`: jump to `addr + V0`.
    JumpOffset { addr: u16 },
    /// `Cxkk`: `Vx = random byte & kk`.
    Random { x: u8, kk: u8 },
    /// `Dxyn`: blit the `n`-byte sprite at `I` to (`Vx`, `Vy`).
    Draw { x: u8, y: u8, n: u8 },
    /// `Ex9E`: skip the next instruction if key `Vx` is held.
    SkipKey { x: u8 },
    /// `ExA1`: skip the next instruction if key `Vx` is not held.
    SkipNoKey { x: u8 },
    /// `Fx07`: `Vx = delay timer`.
    ReadDelay { x: u8 },
    /// `Fx0A`: wait for a key press and store the key in `Vx`.
    WaitKey { x: u8 },
    /// `Fx15`: `delay timer = Vx`.
    SetDelay { x: u8 },
    /// `Fx18`: `sound timer = Vx`.
    SetSound { x: u8 },
    /// `Fx1E`: `I = I + Vx`.
    AddIndex { x: u8 },
    /// `Fx29`: `I = address of the font sprite for digit Vx`.
    FontAddress { x: u8 },
    /// `Fx33`: store the decimal digits of `Vx` at `I`, `I+1`, `I+2`.
    StoreDigits { x: u8 },
    /// `Fx55`: store `V0`..`Vx` at `I` onwards.
    StoreRegisters { x: u8 },
    /// `Fx65`: load `V0`..`Vx` from `I` onwards.
    LoadRegisters { x: u8 },
    /// Any word that is none of the above: nothing happens but the step to
    /// the next instruction.
    Nop,
}

impl Instruction {
    /// Every operand lies in the range of its field.
    pub open spec fn valid(self) -> bool {
        match self {
            Instruction::ClearScreen | Instruction::Return | Instruction::Nop => true,
            Instruction::Jump { addr }
            | Instruction::Call { addr }
            | Instruction::LoadIndex { addr }
            | Instruction::JumpOffset { addr } => addr < 0x1000,
            Instruction::SkipEqualByte { x, kk }
            | Instruction::SkipUnequalByte { x, kk }
            | Instruction::LoadByte { x, kk }
            | Instruction::AddByte { x, kk }
            | Instruction::Random { x, kk } => x < 16,
            Instruction::SkipEqual { x, y }
            | Instruction::Move { x, y }
            | Instruction::Or { x, y }
            | Instruction::And { x, y }
            | Instruction::Xor { x, y }
            | Instruction::Add { x, y }
            | Instruction::Subtract { x, y }
            | Instruction::SubtractFrom { x, y }
            | Instruction::SkipUnequal { x, y } => x < 16 && y < 16,
            Instruction::Draw { x, y, n } => x < 16 && y < 16 && n < 16,
            Instruction::ShiftRight { x }
            | Instruction::ShiftLeft { x }
            | Instruction::SkipKey { x }
            | Instruction::SkipNoKey { x }
            | Instruction::ReadDelay { x }
            | Instruction::WaitKey { x }
            | Instruction::SetDelay { x }
            | Instruction::SetSound { x }
            | Instruction::AddIndex { x }
            | Instruction::FontAddress { x }
            | Instruction::StoreDigits { x }
            | Instruction::StoreRegisters { x }
            | Instruction::LoadRegisters { x } => x < 16,
        }
    }
}

impl Instruction {
    /// Whether the instruction reports a carry, a borrow, the bit shifted
    /// out or a collision in the flags register.
    pub open spec fn defines_flag(self) -> bool {
        ||| self is AddByte
        ||| self is Add
        ||| self is Subtract
        ||| self is ShiftRight
        ||| self is SubtractFrom
        ||| self is ShiftLeft
        ||| self is Draw
    }

    /// Whether the instruction puts a result into general register `r`.
    pub open spec fn writes_register(self, r: u8) -> bool {
        match self {
            Instruction::LoadByte { x, kk }
            | Instruction::AddByte { x, kk }
            | Instruction::Random { x, kk } => x == r,
            Instruction::Move { x, y }
            | Instruction::Or { x, y }
            | Instruction::And { x, y }
            | Instruction::Xor { x, y }
            | Instruction::Add { x, y }
            | Instruction::Subtract { x, y }
            | Instruction::SubtractFrom { x, y } => x == r,
            Instruction::ShiftRight { x }
            | Instruction::ShiftLeft { x }
            | Instruction::ReadDelay { x } => x == r,
            Instruction::LoadRegisters { x } => r <= x,
            _ => false,
        }
    }
}

/// The register-to-register instruction of class 8 that a word stands for.
pub open spec fn decoded_alu(word: u16) -> Instruction {
    let x = x_of(word);
    let y = y_of(word);
    let n = n_of(word);
    if n == 0x0 {
        Instruction::Move { x, y }
    } else if n == 0x1 {
        Instruction::Or { x, y }
    } else if n == 0x2 {
        Instruction::And { x, y }
    } else if n == 0x3 {
        Instruction::Xor { x, y }
    } else if n == 0x4 {
        Instruction::Add { x, y }
    } else if n == 0x5 {
        Instruction::Subtract { x, y }
    } else if n == 0x6 {
        Instruction::ShiftRight { x }
    } else if n == 0x7 {
        Instruction::SubtractFrom { x, y }
    } else if n == 0xe {
        Instruction::ShiftLeft { x }
    } else {
        Instruction::Nop
    }
}

/// The instruction of class F that a word stands for.
pub open spec fn decoded_misc(word: u16) -> Instruction {
    let x = x_of(word);
    let kk = kk_of(word);
    if kk == 0x07 {
        Instruction::ReadDelay { x }
    } else if kk == 0x0a {
        Instruction::WaitKey { x }
    } else if kk == 0x15 {
        Instruction::SetDelay { x }
    } else if kk == 0x18 {
        Instruction::SetSound { x }
    } else if kk == 0x1e {
        Instruction::AddIndex { x }
    } else if kk == 0x29 {
        Instruction::FontAddress { x }
    } else if kk == 0x33 {
        Instruction::StoreDigits { x }
    } else if kk == 0x55 {
        Instruction::StoreRegisters { x }
    } else if kk == 0x65 {
        Instruction::LoadRegisters { x }
    } else {
        Instruction::Nop
    }
}

/// The instruction that a word stands for. A word whose class is known but
/// whose low nibble or low byte selects nothing is a `Nop`.
pub open spec fn decoded(word: u16) -> Instruction {
    let class = class_of(word);
    let x = x_of(word);
    let y = y_of(word);
    let n = n_of(word);
    let kk = kk_of(word);
    let addr = nnn_of(word);
    if class == 0x0 {
        if addr == 0x0e0 {
            Instruction::ClearScreen
        } else if addr == 0x0ee {
            Instruction::Return
        } else {
            Instruction::Nop
        }
    } else if class == 0x1 {
        Instruction::Jump { addr }
    } else if class == 0x2 {
        Instruction::Call { addr }
    } else if class == 0x3 {
        Instruction::SkipEqualByte { x, kk }
    } else if class == 0x4 {
        Instruction::SkipUnequalByte { x, kk }
    } else if class == 0x5 {
        if n == 0 {
            Instruction::SkipEqual { x, y }
        } else {
            Instruction::Nop
        }
    } else if class == 0x6 {
        Instruction::LoadByte { x, kk }
    } else if class == 0x7 {
        Instruction::AddByte { x, kk }
    } else if class == 0x8 {
        decoded_alu(word)
    } else if class == 0x9 {
        if n == 0 {
            Instruction::SkipUnequal { x, y }
        } else {
            Instruction::Nop
        }
    } else if class == 0xa {
        Instruction::LoadIndex { addr }
    } else if class == 0xb {
        Instruction::JumpOffset { addr }
    } else if class == 0xc {
        Instruction::Random { x, kk }
    } else if class == 0xd {
        Instruction::Draw { x, y, n }
    } else if class == 0xe {
        if kk == 0x9e {
            Instruction::SkipKey { x }
        } else if kk == 0xa1 {
            Instruction::SkipNoKey { x }
        } else {
            Instruction::Nop
        }
    } else {
        decoded_misc(word)
    }
}

/// Every word decodes to an instruction whose operands are in range.
pub proof fn lemma_decoded_valid(word: u16)
    ensures
        decoded(word).valid(),
{
}

/// The six fields of a word, cut out with shifts and masks.
struct Fields {
    class: u8,
    x: u8,
    y: u8,
    n: u8,
    kk: u8,
    addr: u16,
}

fn fields(word: u16) -> (f: Fields)
    ensures
        f.class == class_of(word),
        f.x == x_of(word),
        f.y == y_of(word),
        f.n == n_of(word),
        f.kk == kk_of(word),
        f.addr == nnn_of(word),
{
    assert(((word & 0xf000u16) >> 12) == word / 0x1000 && word / 0x1000 < 16) by (bit_vector);
    assert(((word >> 8u16) & 0x000fu16) == (word / 0x100) % 0x10) by (bit_vector);
    assert(((word >> 4u16) & 0x000fu16) == (word / 0x10) % 0x10) by (bit_vector);
    assert((word & 0x000fu16) == word % 0x10) by (bit_vector);
    assert((word & 0x00ffu16) == word % 0x100) by (bit_vector);
    assert((word & 0x0fffu16) == word % 0x1000) by (bit_vector);
    let class = ((word & 0xf000u16) >> 12) as u8;
    let x = ((word >> 8u16) & 0x000fu16) as u8;
    let y = ((word >> 4u16) & 0x000fu16) as u8;
    let n = (word & 0x000fu16) as u8;
    let kk = (word & 0x00ffu16) as u8;
    let addr = word & 0x0fffu16;
    Fields { class, x, y, n, kk, addr }
}

/// Decodes an instruction word.
pub fn decode(word: u16) -> (instruction: Instruction)
    ensures
        instruction == decoded(word),
        instruction.valid(),
{
    let f = fields(word);
    let x = f.x;
    let y = f.y;
    let n = f.n;
    let kk = f.kk;
    let addr = f.addr;
    match f.class {
        0x0 => {
            if addr == 0x00e0 {
                Instruction::ClearScreen
            } else if addr == 0x00ee {
                Instruction::Return
            } else {
                Instruction::Nop
            }
        },
        0x1 => Instruction::Jump { addr },
        0x2 => Instruction::Call { addr },
        0x3 => Instruction::SkipEqualByte { x, kk },
        0x4 => Instruction::SkipUnequalByte { x, kk },
        0x5 => {
            if n == 0 {
                Instruction::SkipEqual { x, y }
            } else {
                Instruction::Nop
            }
        },
        0x6 => Instruction::LoadByte { x, kk },
        0x7 => Instruction::AddByte { x, kk },
        0x8 => {
            match n {
                0x0 => Instruction::Move { x, y },
                0x1 => Instruction::Or { x, y },
                0x2 => Instruction::And { x, y },
                0x3 => Instruction::Xor { x, y },
                0x4 => Instruction::Add { x, y },
                0x5 => Instruction::Subtract { x, y },
                0x6 => Instruction::ShiftRight { x },
                0x7 => Instruction::SubtractFrom { x, y },
                0xe => Instruction::ShiftLeft { x },
                _ => Instruction::Nop,
            }
        },
        0x9 => {
            if n == 0 {
                Instruction::SkipUnequal { x, y }
            } else {
                Instruction::Nop
            }
        },
        0xa => Instruction::LoadIndex { addr },
        0xb => Instruction::JumpOffset { addr },
        0xc => Instruction::Random { x, kk },
        0xd => Instruction::Draw { x, y, n },
        0xe => {
            match kk {
                0x9e => Instruction::SkipKey { x },
                0xa1 => Instruction::SkipNoKey { x },
                _ => Instruction::Nop,
            }
        },
        _ => {
            match kk {
                0x07 => Instruction::ReadDelay { x },
                0x0a => Instruction::WaitKey { x },
                0x15 => Instruction::SetDelay { x },
                0x18 => Instruction::SetSound { x },
                0x1e => Instruction::AddIndex { x },
                0x29 => Instruction::FontAddress { x },
                0x33 => Instruction::StoreDigits { x },
                0x55 => Instruction::StoreRegisters { x },
                0x65 => Instruction::LoadRegisters { x },
                _ => Instruction::Nop,
            }
        },
    }
}

} // verus!
