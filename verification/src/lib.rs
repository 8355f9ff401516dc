//! Core of a 65816-family console emulator: the CPU execution engine, the
//! addressing-mode resolution layer, and the memory bus they run against.
//!
//! The bus (`memory`) owns all addressable storage and maps 24-bit
//! bank:offset addresses onto work RAM, cartridge ROM, save RAM and hardware
//! register windows. The resolvers (`modes`) translate an opcode's operand
//! bytes into an effective address or literal value. The CPU core (`cpu`)
//! holds the register and flag state machine and one handler per mnemonic.
//! Every detected fault halts emulation and is reported to the caller; no
//! function here panics.

use vstd::prelude::*;

pub mod apu;
pub mod cpu;
pub mod flags;
pub mod laws;
pub mod memory;
pub mod modes;
pub mod snes;

verus! {

/// Why emulation halted. Decode and mapping faults mean the core (or the
/// guest program) is wrong; the unimplemented kinds are development stubs
/// that mark a feature not yet modeled, kept distinct so the core can be
/// exercised in isolation.
#[derive(Clone, Copy, PartialEq, Eq, Structural, Debug)]
pub enum Fault {
    /// The address classifies to no defined region of the memory map.
    InvalidAddress { addr: u32 },
    /// A write reached a ROM-mapped address; ROM is read-only and a write
    /// there indicates a decode bug, never a silent no-op.
    RomWrite { addr: u32 },
    /// The address belongs to a hardware-register or save-RAM window that
    /// this core does not model.
    UnmappedRegion { addr: u32 },
    /// The opcode byte has no defined table entry.
    UnknownOpcode { opcode: u8 },
    /// The instruction's handler is a development stub.
    UnimplementedInstruction { which: Mnemonic },
    /// The addressing mode's resolver is a development stub.
    UnimplementedMode,
    /// The cartridge image has no recognizable name field or is too short
    /// for its header to be read.
    MalformedHeader,
    /// The cartridge's memory-map family is recognized but not supported.
    UnsupportedRomType,
}

/// Names the instructions whose handlers are development stubs, so that an
/// `UnimplementedInstruction` fault says which gap was hit.
#[derive(Clone, Copy, PartialEq, Eq, Structural, Debug)]
pub enum Mnemonic {
    Tsb,
    Asl,
    Trb,
    Tcs,
    And,
    Bit,
    Rol,
    Plp,
    Bmi,
    Sec,
    Dec,
    Tsc,
    Rti,
    Eor,
    Wdm,
    Mvp,
    Lsr,
    Bvc,
    Mvn,
    Cli,
    Per,
    Ror,
    Pla,
    Rtl,
    Bvs,
    Ply,
    Bra,
    Brl,
    Dey,
    Txa,
    Bcc,
    Tya,
    Txy,
    Tay,
    Bcs,
    Clv,
    Tsx,
    Tyx,
    Wai,
    Pei,
    Cld,
    Stp,
    Sbc,
    Inx,
    Nop,
    Beq,
    Pea,
    Sed,
    Plx,
}

} // verus!
