//! The register file and the processor's source of random bytes.

use rand::Rng;
use rand::ThreadRng;
use vstd::prelude::*;

verus! {

/// Number of general-purpose registers.
pub const REGISTER_COUNT: u8 = 16;

/// Index of `VF`, the register that doubles as the flags register.
pub const FLAG_REGISTER: u8 = 0xf;

/// The register file: sixteen general 8-bit registers `V0`..`VF`, the address
/// register `I`, the program counter and the stack pointer.
pub struct Reg {
    pub v0: u8,
    pub v1: u8,
    pub v2: u8,
    pub v3: u8,
    pub v4: u8,
    pub v5: u8,
    pub v6: u8,
    pub v7: u8,
    pub v8: u8,
    pub v9: u8,
    pub va: u8,
    pub vb: u8,
    pub vc: u8,
    pub vd: u8,
    pub ve: u8,
    pub vf: u8,
    pub i: u16,
    pub pc: u16,
    pub sp: u8,
}

impl Reg {
    /// The general registers as a sequence: element `k` is `Vk`.
    pub open spec fn general(&self) -> Seq<u8> {
        seq![
            self.v0, self.v1, self.v2, self.v3,
            self.v4, self.v5, self.v6, self.v7,
            self.v8, self.v9, self.va, self.vb,
            self.vc, self.vd, self.ve, self.vf,
        ]
    }

    /// Reads general register `idx`; there is no register beyond `VF`.
    #[inline]
    pub fn get(&self, idx: u8) -> (value: Option<u8>)
        ensures
            idx < REGISTER_COUNT ==> value == Some(self.general()[idx as int]),
            idx >= REGISTER_COUNT ==> value is None,
    {
        match idx {
            0x0 => Some(self.v0),
            0x1 => Some(self.v1),
            0x2 => Some(self.v2),
            0x3 => Some(self.v3),
            0x4 => Some(self.v4),
            0x5 => Some(self.v5),
            0x6 => Some(self.v6),
            0x7 => Some(self.v7),
            0x8 => Some(self.v8),
            0x9 => Some(self.v9),
            0xa => Some(self.va),
            0xb => Some(self.vb),
            0xc => Some(self.vc),
            0xd => Some(self.vd),
            0xe => Some(self.ve),
            0xf => Some(self.vf),
            _ => None,
        }
    }

    /// Writes `value` to general register `idx` and touches nothing else; an
    /// index beyond `VF` leaves the register file as it was.
    #[inline]
    pub fn set(&mut self, idx: u8, value: u8)
        ensures
            idx < REGISTER_COUNT ==> final(self).general() == old(self).general().update(
                idx as int,
                value,
            ),
            idx >= REGISTER_COUNT ==> final(self).general() == old(self).general(),
            final(self).i == old(self).i,
            final(self).pc == old(self).pc,
            final(self).sp == old(self).sp,
    {
        match idx {
            0x0 => { self.v0 = value },
            0x1 => { self.v1 = value },
            0x2 => { self.v2 = value },
            0x3 => { self.v3 = value },
            0x4 => { self.v4 = value },
            0x5 => { self.v5 = value },
            0x6 => { self.v6 = value },
            0x7 => { self.v7 = value },
            0x8 => { self.v8 = value },
            0x9 => { self.v9 = value },
            0xa => { self.va = value },
            0xb => { self.vb = value },
            0xc => { self.vc = value },
            0xd => { self.vd = value },
            0xe => { self.ve = value },
            0xf => { self.vf = value },
            _ => {},
        }
    }
}

impl Default for Reg {
    /// Every register cleared.
    fn default() -> (reg: Reg)
        ensures
            reg.general() == Seq::new(16, |k: int| 0u8),
            reg.i == 0,
            reg.pc == 0,
            reg.sp == 0,
    {
        Reg {
            v0: 0, v1: 0, v2: 0, v3: 0,
            v4: 0, v5: 0, v6: 0, v7: 0,
            v8: 0, v9: 0, va: 0, vb: 0,
            vc: 0, vd: 0, ve: 0, vf: 0,
            i: 0, pc: 0, sp: 0,
        }
    }
}

/// `rand::ThreadRng`, the handle to a thread's random number generator.
/// Nothing inside it is visible here: it is only carried along and handed
/// back to `rand`.
#[verifier::external_type_specification]
#[verifier::external_body]
pub struct ExThreadRng(ThreadRng);

/// `rand::thread_rng`: hands out the calling thread's generator. Nothing is
/// claimed of the generator itself. `rand` gives up with a panic if the
/// system offers it no source of entropy at all.
pub assume_specification[ rand::thread_rng ]() -> (rng: ThreadRng);

/// `rand::Rng::gen_range` on bytes: the value drawn lies in `[low, high)`,
/// and nothing more is claimed of it. `rand` panics on an empty range, so
/// callers must pass `low < high`.
#[verifier::external_body]
fn gen_range_u8(rng: &mut ThreadRng, low: u8, high: u8) -> (byte: u8)
    requires
        low < high,
    ensures
        low <= byte < high,
{
    rng.gen_range(low, high)
}

/// The processor: its register file and its random number generator.
pub struct Cpu {
    /// The register file.
    pub registers: Reg,
    /// The generator that random bytes are drawn from.
    pub rng: ThreadRng,
}

impl Cpu {
    /// A processor with every register cleared.
    pub fn init() -> (cpu: Cpu)
        ensures
            cpu.registers.general() == Seq::new(16, |k: int| 0u8),
            cpu.registers.i == 0,
            cpu.registers.pc == 0,
            cpu.registers.sp == 0,
    {
        Cpu { registers: Reg::default(), rng: rand::thread_rng() }
    }

    /// Generates a random byte. The byte is drawn from `[0, 255)`, so `255`
    /// never comes out; the registers are left alone.
    pub fn random_byte(&mut self) -> (byte: u8)
        ensures
            byte < u8::MAX,
            final(self).registers == old(self).registers,
    {
        gen_range_u8(&mut self.rng, u8::MIN, u8::MAX)
    }
}

} // verus!
