//! The CPU core: the register and flag state machine, the fetch-decode
//! loop, and one handler per mnemonic. Each handler asks its bound
//! addressing resolver to load or store and then updates registers and
//! flags; every step is a plain function call that returns only when the
//! instruction is fully retired or a fault is detected.

use vstd::prelude::*;

use crate::flags::Flags;
use crate::memory::{Memory, MemView, RomType, Vectors, spec_vector_word, spec_get_byte};
use crate::modes::{
    Absolute, AbsoluteIndexedIndirect, AbsoluteIndexedX, AbsoluteIndexedY, AbsoluteIndirect,
    AbsoluteIndirectLong, AbsoluteLong, AbsoluteLongIndexedX, Accumulator, BlockMove, DirectPage,
    DirectPageIndexedIndirectX, DirectPageIndexedX, DirectPageIndexedY, DirectPageIndirect,
    DirectPageIndirectIndexedY, DirectPageIndirectLong, DirectPageIndirectLongIndexedY, Immediate,
    Instruction, InstructionType, ProgramCounterRelative, ProgramCounterRelativeLong,
    StackAbsolute, StackDirectPageIndirect, StackProgramCounterRelative, StackPull, StackPush,
    StackRTI, StackRTL, StackRTS, StackRelative, StackRelativeIndirectIndexedY, spec_pc_addr,
    pc_addr, wrap16,
};
use crate::{Fault, Mnemonic};

verus! {

/// One of the eight stored processor-status flags.
#[derive(Clone, Copy, PartialEq, Eq, Structural, Debug)]
pub enum StatusFlags {
    Carry,
    Zero,
    IRQDisable,
    Decimal,
    IndexRegisterSize,
    AccumulatorRegisterSize,
    Overflow,
    Negative,
}

/// The eight status flags as named booleans, with a single authoritative
/// mapping to the bit positions of the 8-bit stack encoding.
#[derive(Clone, Copy, PartialEq, Eq, Structural, Debug, Default)]
pub struct ProcessorStatus {
    pub carry: bool,
    pub zero: bool,
    pub irq_disable: bool,
    pub decimal: bool,
    pub index_size: bool,
    pub acc_size: bool,
    pub overflow: bool,
    pub negative: bool,
}

/// The flag selected by `flag`.
pub open spec fn spec_get_flag(p: ProcessorStatus, flag: StatusFlags) -> bool {
    match flag {
        StatusFlags::Carry => p.carry,
        StatusFlags::Zero => p.zero,
        StatusFlags::IRQDisable => p.irq_disable,
        StatusFlags::Decimal => p.decimal,
        StatusFlags::IndexRegisterSize => p.index_size,
        StatusFlags::AccumulatorRegisterSize => p.acc_size,
        StatusFlags::Overflow => p.overflow,
        StatusFlags::Negative => p.negative,
    }
}

/// The status with the selected flag replaced by `val`.
pub open spec fn spec_set_flag(p: ProcessorStatus, flag: StatusFlags, val: bool) -> ProcessorStatus {
    match flag {
        StatusFlags::Carry => ProcessorStatus { carry: val, ..p },
        StatusFlags::Zero => ProcessorStatus { zero: val, ..p },
        StatusFlags::IRQDisable => ProcessorStatus { irq_disable: val, ..p },
        StatusFlags::Decimal => ProcessorStatus { decimal: val, ..p },
        StatusFlags::IndexRegisterSize => ProcessorStatus { index_size: val, ..p },
        StatusFlags::AccumulatorRegisterSize => ProcessorStatus { acc_size: val, ..p },
        StatusFlags::Overflow => ProcessorStatus { overflow: val, ..p },
        StatusFlags::Negative => ProcessorStatus { negative: val, ..p },
    }
}

/// The 8-bit encoding of the status used for stack push and pull: Carry is
/// bit 0 and Negative bit 7.
pub open spec fn spec_status_byte(p: ProcessorStatus) -> u8 {
    ((if p.carry {
        1int
    } else {
        0int
    }) + (if p.zero {
        2int
    } else {
        0int
    }) + (if p.irq_disable {
        4int
    } else {
        0int
    }) + (if p.decimal {
        8int
    } else {
        0int
    }) + (if p.index_size {
        16int
    } else {
        0int
    }) + (if p.acc_size {
        32int
    } else {
        0int
    }) + (if p.overflow {
        64int
    } else {
        0int
    }) + (if p.negative {
        128int
    } else {
        0int
    })) as u8
}

/// Whether bit `i` (by weight `w = 2^i`) of `byte` is set.
pub open spec fn spec_bit(byte: u8, w: int) -> bool {
    (byte as int / w) % 2 == 1
}

/// The status after writing `val` into every flag whose bit is set in
/// `byte`. In emulation mode the two register-size flags (bits 4 and 5)
/// cannot be changed this way.
pub open spec fn spec_set_by_byte(
    p: ProcessorStatus,
    emulation_mode: bool,
    byte: u8,
    val: bool,
) -> ProcessorStatus {
    ProcessorStatus {
        carry: if spec_bit(byte, 1) {
            val
        } else {
            p.carry
        },
        zero: if spec_bit(byte, 2) {
            val
        } else {
            p.zero
        },
        irq_disable: if spec_bit(byte, 4) {
            val
        } else {
            p.irq_disable
        },
        decimal: if spec_bit(byte, 8) {
            val
        } else {
            p.decimal
        },
        index_size: if spec_bit(byte, 16) && !emulation_mode {
            val
        } else {
            p.index_size
        },
        acc_size: if spec_bit(byte, 32) && !emulation_mode {
            val
        } else {
            p.acc_size
        },
        overflow: if spec_bit(byte, 64) {
            val
        } else {
            p.overflow
        },
        negative: if spec_bit(byte, 128) {
            val
        } else {
            p.negative
        },
    }
}

impl ProcessorStatus {
    /// Sets one flag.
    pub fn set_flag(&mut self, flag: StatusFlags, val: bool)
        ensures
            *final(self) == spec_set_flag(*old(self), flag, val),
    {
        match flag {
            StatusFlags::Carry => self.carry = val,
            StatusFlags::Zero => self.zero = val,
            StatusFlags::IRQDisable => self.irq_disable = val,
            StatusFlags::Decimal => self.decimal = val,
            StatusFlags::IndexRegisterSize => self.index_size = val,
            StatusFlags::AccumulatorRegisterSize => self.acc_size = val,
            StatusFlags::Overflow => self.overflow = val,
            StatusFlags::Negative => self.negative = val,
        }
    }

    /// Reads one flag.
    pub fn get_flag(&self, flag: StatusFlags) -> (r: bool)
        ensures
            r == spec_get_flag(*self, flag),
    {
        match flag {
            StatusFlags::Carry => self.carry,
            StatusFlags::Zero => self.zero,
            StatusFlags::IRQDisable => self.irq_disable,
            StatusFlags::Decimal => self.decimal,
            StatusFlags::IndexRegisterSize => self.index_size,
            StatusFlags::AccumulatorRegisterSize => self.acc_size,
            StatusFlags::Overflow => self.overflow,
            StatusFlags::Negative => self.negative,
        }
    }

    /// Writes `val` into every flag whose bit is set in `byte`, as the
    /// set/clear-status instructions do. In emulation mode the register-size
    /// flags are protected.
    #[verifier::rlimit(60)]
    pub fn set_by_byte(&mut self, emulation_mode: bool, byte: u8, val: bool)
        ensures
            *final(self) == spec_set_by_byte(*old(self), emulation_mode, byte, val),
    {
        if (byte / 1) % 2 == 1 {
            self.carry = val;
        }
        if (byte / 2) % 2 == 1 {
            self.zero = val;
        }
        if (byte / 4) % 2 == 1 {
            self.irq_disable = val;
        }
        if (byte / 8) % 2 == 1 {
            self.decimal = val;
        }
        if (byte / 16) % 2 == 1 && !emulation_mode {
            self.index_size = val;
        }
        if (byte / 32) % 2 == 1 && !emulation_mode {
            self.acc_size = val;
        }
        if (byte / 64) % 2 == 1 {
            self.overflow = val;
        }
        if (byte / 128) % 2 == 1 {
            self.negative = val;
        }
    }

    /// The 8-bit encoding used at the stack push/pull boundary.
    pub fn as_byte(&self) -> (r: u8)
        ensures
            r == spec_status_byte(*self),
    {
        let mut byte: u8 = 0;
        if self.carry {
            byte = byte + 1;
        }
        if self.zero {
            byte = byte + 2;
        }
        if self.irq_disable {
            byte = byte + 4;
        }
        if self.decimal {
            byte = byte + 8;
        }
        if self.index_size {
            byte = byte + 16;
        }
        if self.acc_size {
            byte = byte + 32;
        }
        if self.overflow {
            byte = byte + 64;
        }
        if self.negative {
            byte = byte + 128;
        }
        byte
    }
}

/// The register file. A single instance per emulation session, mutated only
/// by the instruction handlers.
#[derive(Clone, Copy, PartialEq, Eq, Structural, Debug)]
pub struct CPU {
    /// 16-bit storage; semantically 8- or 16-bit per the accumulator-size
    /// flag. Never resized: at 8-bit width the high byte is preserved.
    pub accumulator: u16,
    pub index_x: u16,
    pub index_y: u16,
    /// Offset within bank 0. In emulation mode only the low byte is
    /// significant: the stack resolvers force the page to 1 at the point
    /// of use, and the stored value is never clamped.
    pub stack_pointer: u16,
    pub data_bank: u8,
    pub program_bank: u8,
    /// Base offset for the direct-page addressing modes.
    pub direct_page: u16,
    pub processor_status: ProcessorStatus,
    /// Offset within `program_bank`.
    pub program_counter: u16,
    /// When set, the register-size flags are treated as 8-bit at the point
    /// of use, whatever their stored value.
    pub emulation_mode: bool,
}

/// The initial register file: emulation mode, the program counter taken
/// from the cartridge's reset vector, and the program bank fixed by the
/// memory-map family.
pub open spec fn spec_cpu_new(m: MemView) -> CPU {
    CPU {
        accumulator: 0,
        index_x: 0,
        index_y: 0,
        stack_pointer: 0,
        data_bank: 0,
        program_bank: if m.rom.rom_type == RomType::LoROM || m.rom.rom_type == RomType::FastLoROM {
            0x80
        } else {
            0xC0
        },
        direct_page: 0,
        processor_status: ProcessorStatus {
            carry: false,
            zero: false,
            irq_disable: false,
            decimal: false,
            index_size: false,
            acc_size: false,
            overflow: false,
            negative: false,
        },
        program_counter: m.rom.reset_vector,
        emulation_mode: true,
    }
}

impl CPU {
    /// Whether accumulator operations run at byte width: in emulation mode
    /// always, otherwise per the accumulator-size flag (the stored bit is
    /// ignored at the point of use, never clamped).
    pub open spec fn spec_acc_is_byte(self) -> bool {
        self.emulation_mode || self.processor_status.acc_size
    }

    /// Whether index-register operations run at byte width.
    pub open spec fn spec_idx_is_byte(self) -> bool {
        self.emulation_mode || self.processor_status.index_size
    }

    /// Reads the effective accumulator width.
    pub fn acc_is_byte(&self) -> (r: bool)
        ensures
            r == self.spec_acc_is_byte(),
    {
        self.emulation_mode || self.processor_status.acc_size
    }

    /// Reads the effective index-register width.
    pub fn idx_is_byte(&self) -> (r: bool)
        ensures
            r == self.spec_idx_is_byte(),
    {
        self.emulation_mode || self.processor_status.index_size
    }

    /// Builds the register file at reset.
    pub fn new(memory: &Memory) -> (c: CPU)
        requires
            memory.wf(),
        ensures
            c == spec_cpu_new(memory@),
    {
        let pb: u8 = if matches!(memory.rom.rom_type, RomType::LoROM | RomType::FastLoROM) {
            0x80
        } else {
            0xC0
        };
        CPU {
            accumulator: 0,
            index_x: 0,
            index_y: 0,
            stack_pointer: 0,
            data_bank: 0,
            program_bank: pb,
            direct_page: 0,
            processor_status: ProcessorStatus {
                carry: false,
                zero: false,
                irq_disable: false,
                decimal: false,
                index_size: false,
                acc_size: false,
                overflow: false,
                negative: false,
            },
            program_counter: memory.rom.reset_vector,
            emulation_mode: true,
        }
    }

    /// Places the program counter and bank at a 24-bit address, for test
    /// harnesses and hosts.
    pub fn set_origin(&mut self, addr: u32)
        requires
            addr < 0x1000000,
        ensures
            *final(self) == (CPU {
                program_bank: (addr / 0x10000) as u8,
                program_counter: (addr % 0x10000) as u16,
                ..*old(self)
            }),
    {
        self.program_bank = (addr / 0x10000) as u8;
        self.program_counter = (addr % 0x10000) as u16;
    }

    /// Presets the accumulator, for test harnesses and hosts.
    pub fn set_acc(&mut self, v: u16)
        ensures
            *final(self) == (CPU { accumulator: v, ..*old(self) }),
    {
        self.accumulator = v;
    }

    /// Reads the accumulator, for test harnesses and hosts.
    pub fn check_acc(&self) -> (r: u16)
        ensures
            r == self.accumulator,
    {
        self.accumulator
    }

    /// Leaves or re-enters emulation mode directly, for test harnesses and
    /// hosts; guest code switches modes through the exchange-carry
    /// instruction instead.
    pub fn set_emulation_mode(&mut self, emu: bool)
        ensures
            *final(self) == (CPU { emulation_mode: emu, ..*old(self) }),
    {
        self.emulation_mode = emu;
    }

    /// Sets one stored status flag directly, for test harnesses and hosts.
    pub fn set_flag(&mut self, flag: StatusFlags, val: bool)
        ensures
            *final(self) == (CPU {
                processor_status: spec_set_flag(old(self).processor_status, flag, val),
                ..*old(self)
            }),
    {
        self.processor_status.set_flag(flag, val);
    }

    /// Reads one flag under its host-facing name. The two register-size
    /// flags answer with the effective width: outside native mode they read
    /// as set (8-bit) whatever their stored bits, which stay untouched. The
    /// native-mode flag is the inverse of emulation mode, and the break
    /// flag shares storage with the index-size flag while in emulation
    /// mode.
    pub fn check_flag(&self, flag: Flags) -> (r: bool)
        ensures
            r == spec_check_flag(*self, flag),
    {
        match flag {
            Flags::CarryFlag => self.processor_status.carry,
            Flags::ZeroFlag => self.processor_status.zero,
            Flags::IRQDisableFlag => self.processor_status.irq_disable,
            Flags::DecimalFlag => self.processor_status.decimal,
            Flags::IndexRegisterSizeFlag => self.emulation_mode
                || self.processor_status.index_size,
            Flags::AccumulatorRegisterSizeFlag => self.emulation_mode
                || self.processor_status.acc_size,
            Flags::OverflowFlag => self.processor_status.overflow,
            Flags::NegativeFlag => self.processor_status.negative,
            Flags::NativeModeFlag => !self.emulation_mode,
            Flags::ProgramBreakInterruptFlag => self.emulation_mode
                && self.processor_status.index_size,
        }
    }
}

/// The flag `check_flag` answers with, under its host-facing name: the
/// size flags read as the effective width (forced 8-bit outside native
/// mode), the rest as stored.
pub open spec fn spec_check_flag(c: CPU, flag: Flags) -> bool {
    match flag {
        Flags::CarryFlag => c.processor_status.carry,
        Flags::ZeroFlag => c.processor_status.zero,
        Flags::IRQDisableFlag => c.processor_status.irq_disable,
        Flags::DecimalFlag => c.processor_status.decimal,
        Flags::IndexRegisterSizeFlag => c.spec_idx_is_byte(),
        Flags::AccumulatorRegisterSizeFlag => c.spec_acc_is_byte(),
        Flags::OverflowFlag => c.processor_status.overflow,
        Flags::NegativeFlag => c.processor_status.negative,
        Flags::NativeModeFlag => !c.emulation_mode,
        Flags::ProgramBreakInterruptFlag => c.emulation_mode && c.processor_status.index_size,
    }
}


/// The status after an operation at byte width produced the low-byte result
/// `r`: Negative is bit 7 and Zero is the whole 8-bit result being zero.
pub open spec fn spec_nz8(p: ProcessorStatus, r: int) -> ProcessorStatus {
    ProcessorStatus { negative: r % 0x100 >= 0x80, zero: r % 0x100 == 0, ..p }
}

/// The status after an operation at word width produced the result `r`:
/// Negative is bit 15 and Zero is the whole 16-bit result being zero.
pub open spec fn spec_nz16(p: ProcessorStatus, r: int) -> ProcessorStatus {
    ProcessorStatus { negative: r % 0x10000 >= 0x8000, zero: r % 0x10000 == 0, ..p }
}

/// What a development-stub handler does: nothing, reporting which mnemonic
/// is missing.
pub open spec fn spec_stub(c: CPU, m: MemView, which: Mnemonic) -> (
    Result<(), Fault>,
    CPU,
    MemView,
) {
    (Err(Fault::UnimplementedInstruction { which }), c, m)
}

/// Add-with-carry at word width: the sum of the accumulator, the operand
/// and the carry-in, computed in a wider intermediate. Carry-out is the
/// unsigned overflow of the width; Overflow is set exactly when both
/// operands share a sign and the truncated result's sign diverges from it;
/// Negative is the result's top bit and Zero the truncated result being
/// zero.
pub open spec fn spec_adc16(acc: u16, data: u16, carry: bool, p: ProcessorStatus) -> (
    u16,
    ProcessorStatus,
) {
    let a = acc as int;
    let d = data as int;
    let total = a + d + (if carry {
        1int
    } else {
        0int
    });
    let r = total % 0x10000;
    (
        r as u16,
        ProcessorStatus {
            carry: total >= 0x10000,
            zero: r == 0,
            negative: r >= 0x8000,
            overflow: ((a >= 0x8000) == (d >= 0x8000)) && ((r >= 0x8000) != (a >= 0x8000)),
            ..p
        },
    )
}

/// Add-with-carry at byte width: the same rule over the low bytes, with
/// the accumulator's high byte preserved.
pub open spec fn spec_adc8(acc: u16, data: u8, carry: bool, p: ProcessorStatus) -> (
    u16,
    ProcessorStatus,
) {
    let a = acc as int % 0x100;
    let d = data as int;
    let total = a + d + (if carry {
        1int
    } else {
        0int
    });
    let r = total % 0x100;
    (
        (acc as int - a + r) as u16,
        ProcessorStatus {
            carry: total >= 0x100,
            zero: r == 0,
            negative: r >= 0x80,
            overflow: ((a >= 0x80) == (d >= 0x80)) && ((r >= 0x80) != (a >= 0x80)),
            ..p
        },
    )
}

/// OR at byte width: the accumulator's high byte is preserved and the
/// flags reflect the 8-bit result.
pub open spec fn spec_ora8(acc: u16, data: u8, p: ProcessorStatus) -> (u16, ProcessorStatus) {
    let lo = ((acc as int % 0x100) as u8) | data;
    (
        (acc as int - acc as int % 0x100 + lo as int % 0x100) as u16,
        spec_nz8(p, lo as int),
    )
}

/// OR at word width.
pub open spec fn spec_ora16(acc: u16, data: u16, p: ProcessorStatus) -> (u16, ProcessorStatus) {
    let r = acc | data;
    (r, spec_nz16(p, r as int))
}

/// Load into the accumulator at byte width: only the low byte is replaced.
pub open spec fn spec_lda8(acc: u16, data: u8, p: ProcessorStatus) -> (u16, ProcessorStatus) {
    (
        (acc as int - acc as int % 0x100 + data as int) as u16,
        spec_nz8(p, data as int),
    )
}

/// Load into the accumulator at word width.
pub open spec fn spec_lda16(data: u16, p: ProcessorStatus) -> (u16, ProcessorStatus) {
    (data, spec_nz16(p, data as int))
}

/// What ADC does: load the operand at the accumulator's width, add it and
/// the carry-in to the accumulator in a wider intermediate, and derive
/// Carry, Overflow, Zero and Negative from the unmasked sum and the
/// truncated result. At byte width the accumulator's high byte is
/// preserved.
pub open spec fn spec_adc_apply<T: Instruction>(mode: T, c: CPU, m: MemView) -> (
    Result<(), Fault>,
    CPU,
    MemView,
) {
    let is_byte = c.spec_acc_is_byte();
    let (lr, c1) = mode.load_spec(c, m, is_byte);
    match lr {
        Err(f) => (Err(f), c1, m),
        Ok(v) => if is_byte {
            let (na, ps) = spec_adc8(
                c1.accumulator,
                (v as int % 0x100) as u8,
                c1.processor_status.carry,
                c1.processor_status,
            );
            (Ok(()), CPU { accumulator: na, processor_status: ps, ..c1 }, m)
        } else {
            let (na, ps) = spec_adc16(
                c1.accumulator,
                (v as int % 0x10000) as u16,
                c1.processor_status.carry,
                c1.processor_status,
            );
            (Ok(()), CPU { accumulator: na, processor_status: ps, ..c1 }, m)
        },
    }
}

/// What ORA does: OR the operand into the accumulator at the accumulator's
/// width, setting Negative and Zero from the result at that width.
pub open spec fn spec_ora_apply<T: Instruction>(mode: T, c: CPU, m: MemView) -> (
    Result<(), Fault>,
    CPU,
    MemView,
) {
    let is_byte = c.spec_acc_is_byte();
    let (lr, c1) = mode.load_spec(c, m, is_byte);
    match lr {
        Err(f) => (Err(f), c1, m),
        Ok(v) => if is_byte {
            let (na, ps) = spec_ora8(c1.accumulator, (v as int % 0x100) as u8, c1.processor_status);
            (Ok(()), CPU { accumulator: na, processor_status: ps, ..c1 }, m)
        } else {
            let (na, ps) = spec_ora16(
                c1.accumulator,
                (v as int % 0x10000) as u16,
                c1.processor_status,
            );
            (Ok(()), CPU { accumulator: na, processor_status: ps, ..c1 }, m)
        },
    }
}

/// What INC does: load through the resolver at the accumulator's width, add
/// one wrapping at that width, store the result back through the same
/// resolution (the counter is restored between the two resolutions so the
/// operand bytes are consumed exactly once), and set Negative and Zero from
/// the result.
pub open spec fn spec_inc_apply<T: Instruction>(mode: T, c: CPU, m: MemView) -> (
    Result<(), Fault>,
    CPU,
    MemView,
) {
    let is_byte = c.spec_acc_is_byte();
    let (lr, c1) = mode.load_spec(c, m, is_byte);
    match lr {
        Err(f) => (Err(f), c1, m),
        Ok(v) => {
            let nv = if is_byte {
                (v as int % 0x100 + 1) % 0x100
            } else {
                (v as int % 0x10000 + 1) % 0x10000
            };
            let c2 = CPU { program_counter: c.program_counter, ..c1 };
            let (sr, c3, m1) = mode.store_spec(c2, m, is_byte, nv as u32);
            match sr {
                Err(f) => (Err(f), c3, m1),
                Ok(_) => (
                    Ok(()),
                    CPU {
                        processor_status: if is_byte {
                            spec_nz8(c3.processor_status, nv)
                        } else {
                            spec_nz16(c3.processor_status, nv)
                        },
                        ..c3
                    },
                    m1,
                ),
            }
        },
    }
}

/// What BRK does in emulation mode: read the handler address out of the
/// emulation-mode break-vector table entry, force the break bit (which
/// shares storage with the index-size flag), push the counter past the
/// signature byte and the status byte, set IRQ-disable, clear Decimal, and
/// continue at the handler address.
pub open spec fn spec_brk_emulation<T: Instruction>(mode: T, c: CPU, m: MemView) -> (
    Result<(), Fault>,
    CPU,
    MemView,
) {
    match spec_vector_word(m, true, Vectors::BRK) {
        Err(f) => (Err(f), c, m),
        Ok(vector) => spec_brk_emulation_entered(mode, c, m, vector),
    }
}

/// The emulation-mode BRK pushes and flag changes, once the handler
/// address `vector` has been read from the cartridge's table.
pub open spec fn spec_brk_emulation_entered<T: Instruction>(
    mode: T,
    c: CPU,
    m: MemView,
    vector: u16,
) -> (Result<(), Fault>, CPU, MemView) {
    let pc_ret = wrap16(c.program_counter + 1);
    let c1 = CPU {
        processor_status: ProcessorStatus { index_size: true, ..c.processor_status },
        ..c
    };
    let ps = spec_status_byte(c1.processor_status);
    let (r1, c2, m1) = mode.store_spec(c1, m, false, pc_ret as u32);
    match r1 {
        Err(f) => (Err(f), c2, m1),
        Ok(_) => {
            let (r2, c3, m2) = mode.store_spec(c2, m1, true, ps as u32);
            match r2 {
                Err(f) => (Err(f), c3, m2),
                Ok(_) => (
                    Ok(()),
                    CPU {
                        processor_status: ProcessorStatus {
                            irq_disable: true,
                            decimal: false,
                            ..c3.processor_status
                        },
                        program_counter: vector,
                        ..c3
                    },
                    m2,
                ),
            }
        },
    }
}

/// What BRK does in native mode: read the handler address out of the
/// native-mode break-vector table entry, push the program bank, the
/// counter past the signature byte and the status byte, clear the program
/// bank, set IRQ-disable, clear Decimal, and continue at the handler
/// address.
pub open spec fn spec_brk_native<T: Instruction>(mode: T, c: CPU, m: MemView) -> (
    Result<(), Fault>,
    CPU,
    MemView,
) {
    match spec_vector_word(m, false, Vectors::BRK) {
        Err(f) => (Err(f), c, m),
        Ok(vector) => spec_brk_native_entered(mode, c, m, vector),
    }
}

/// The native-mode BRK pushes and flag changes, once the handler address
/// `vector` has been read from the cartridge's table.
pub open spec fn spec_brk_native_entered<T: Instruction>(
    mode: T,
    c: CPU,
    m: MemView,
    vector: u16,
) -> (Result<(), Fault>, CPU, MemView) {
    let pc_ret = wrap16(c.program_counter + 1);
    let ps = spec_status_byte(c.processor_status);
    let (r0, c1, m1) = mode.store_spec(c, m, true, c.program_bank as u32);
    match r0 {
        Err(f) => (Err(f), c1, m1),
        Ok(_) => {
            let (r1, c2, m2) = mode.store_spec(c1, m1, false, pc_ret as u32);
            match r1 {
                Err(f) => (Err(f), c2, m2),
                Ok(_) => {
                    let (r2, c3, m3) = mode.store_spec(c2, m2, true, ps as u32);
                    match r2 {
                        Err(f) => (Err(f), c3, m3),
                        Ok(_) => (
                            Ok(()),
                            CPU {
                                program_bank: 0,
                                processor_status: ProcessorStatus {
                                    irq_disable: true,
                                    decimal: false,
                                    ..c3.processor_status
                                },
                                program_counter: vector,
                                ..c3
                            },
                            m3,
                        ),
                    }
                },
            }
        },
    }
}

/// What BRK does: interrupt entry, shaped by the processor mode.
pub open spec fn spec_brk_apply<T: Instruction>(mode: T, c: CPU, m: MemView) -> (
    Result<(), Fault>,
    CPU,
    MemView,
) {
    if c.emulation_mode {
        spec_brk_emulation(mode, c, m)
    } else {
        spec_brk_native(mode, c, m)
    }
}

/// What JSR and JSL do: push the return address adjusted to the last byte
/// of the operand (JSL pushes the program bank first), then jump to the
/// target read from the instruction stream; the target is never
/// dereferenced a second time.
pub open spec fn spec_jsr_apply<T: Instruction>(mode: T, c: CPU, m: MemView, is_long: bool) -> (
    Result<(), Fault>,
    CPU,
    MemView,
) {
    let pc_ret = wrap16(
        c.program_counter + (if is_long {
            2int
        } else {
            1int
        }),
    );
    let (r0, c0, m0) = if is_long {
        StackPush.store_spec(c, m, true, c.program_bank as u32)
    } else {
        (Ok(()), c, m)
    };
    match r0 {
        Err(f) => (Err(f), c0, m0),
        Ok(_) => {
            let (r1, c1, m1) = StackPush.store_spec(c0, m0, false, pc_ret as u32);
            match r1 {
                Err(f) => (Err(f), c1, m1),
                Ok(_) => {
                    let (lr, c2) = mode.load_spec(c1, m1, false);
                    match lr {
                        Err(f) => (Err(f), c2, m1),
                        Ok(t) => (
                            Ok(()),
                            CPU {
                                program_counter: (t as int % 0x10000) as u16,
                                program_bank: if is_long {
                                    ((t as int / 0x10000) % 0x100) as u8
                                } else {
                                    c2.program_bank
                                },
                                ..c2
                            },
                            m1,
                        ),
                    }
                },
            }
        },
    }
}

/// What JMP does: load the effective address through a control-transfer
/// resolver and continue there, bank included.
pub open spec fn spec_jmp_apply<T: Instruction>(mode: T, c: CPU, m: MemView) -> (
    Result<(), Fault>,
    CPU,
    MemView,
) {
    let (lr, c1) = mode.load_spec(c, m, false);
    match lr {
        Err(f) => (Err(f), c1, m),
        Ok(t) => (
            Ok(()),
            CPU {
                program_counter: (t as int % 0x10000) as u16,
                program_bank: ((t as int / 0x10000) % 0x100) as u8,
                ..c1
            },
            m,
        ),
    }
}

/// What RTS does: pull the word pushed by the call and continue one byte
/// past it.
pub open spec fn spec_rts_apply<T: Instruction>(mode: T, c: CPU, m: MemView) -> (
    Result<(), Fault>,
    CPU,
    MemView,
) {
    let (lr, c1) = mode.load_spec(c, m, false);
    match lr {
        Err(f) => (Err(f), c1, m),
        Ok(w) => (Ok(()), CPU { program_counter: wrap16(w as int % 0x10000 + 1), ..c1 }, m),
    }
}

/// The signed value of a displacement byte.
pub open spec fn spec_signed8(b: int) -> int {
    if b % 0x100 >= 0x80 {
        b % 0x100 - 0x100
    } else {
        b % 0x100
    }
}

/// What a conditional branch does when its flag test holds: add the signed
/// displacement to the counter, then advance one more for the operand byte
/// already consumed, in that order, so the displacement is relative to the
/// byte after the operand. When the test fails only the operand byte is
/// skipped.
pub open spec fn spec_branch_apply<T: Instruction>(mode: T, c: CPU, m: MemView, taken: bool) -> (
    Result<(), Fault>,
    CPU,
    MemView,
) {
    if taken {
        let (lr, c1) = mode.load_spec(c, m, true);
        match lr {
            Err(f) => (Err(f), c1, m),
            Ok(d) => {
                let c2 = CPU {
                    program_counter: wrap16(c1.program_counter + spec_signed8(d as int)),
                    ..c1
                };
                (Ok(()), CPU { program_counter: wrap16(c2.program_counter + 1), ..c2 }, m)
            },
        }
    } else {
        (Ok(()), CPU { program_counter: wrap16(c.program_counter + 1), ..c }, m)
    }
}

/// What a push of a value through a stack resolver does.
pub open spec fn spec_push_apply<T: Instruction>(
    mode: T,
    c: CPU,
    m: MemView,
    is_byte: bool,
    data: u32,
) -> (Result<(), Fault>, CPU, MemView) {
    mode.store_spec(c, m, is_byte, data)
}

/// What PLD does: pull a word into the direct-page register, setting
/// Negative and Zero from it.
pub open spec fn spec_pld_apply<T: Instruction>(mode: T, c: CPU, m: MemView) -> (
    Result<(), Fault>,
    CPU,
    MemView,
) {
    let (lr, c1) = mode.load_spec(c, m, false);
    match lr {
        Err(f) => (Err(f), c1, m),
        Ok(w) => {
            let dp = (w as int % 0x10000) as u16;
            (
                Ok(()),
                CPU {
                    direct_page: dp,
                    processor_status: spec_nz16(c1.processor_status, dp as int),
                    ..c1
                },
                m,
            )
        },
    }
}

/// What PLB does: pull a byte into the data-bank register, setting Negative
/// and Zero from it.
pub open spec fn spec_plb_apply<T: Instruction>(mode: T, c: CPU, m: MemView) -> (
    Result<(), Fault>,
    CPU,
    MemView,
) {
    let (lr, c1) = mode.load_spec(c, m, true);
    match lr {
        Err(f) => (Err(f), c1, m),
        Ok(b) => {
            let db = (b as int % 0x100) as u8;
            (
                Ok(()),
                CPU {
                    data_bank: db,
                    processor_status: spec_nz8(c1.processor_status, db as int),
                    ..c1
                },
                m,
            )
        },
    }
}

/// What a load into the accumulator does at the accumulator's width: at
/// byte width only the low byte is replaced and the flags reflect the 8-bit
/// result.
pub open spec fn spec_lda_apply<T: Instruction>(mode: T, c: CPU, m: MemView) -> (
    Result<(), Fault>,
    CPU,
    MemView,
) {
    let is_byte = c.spec_acc_is_byte();
    let (lr, c1) = mode.load_spec(c, m, is_byte);
    match lr {
        Err(f) => (Err(f), c1, m),
        Ok(v) => if is_byte {
            let (na, ps) = spec_lda8(c1.accumulator, (v as int % 0x100) as u8, c1.processor_status);
            (Ok(()), CPU { accumulator: na, processor_status: ps, ..c1 }, m)
        } else {
            let (na, ps) = spec_lda16((v as int % 0x10000) as u16, c1.processor_status);
            (Ok(()), CPU { accumulator: na, processor_status: ps, ..c1 }, m)
        },
    }
}

/// What a load into an index register does at the index width: at byte
/// width the register holds only the low byte.
pub open spec fn spec_ldidx(c1: CPU, is_byte: bool, v: u32) -> (u16, ProcessorStatus) {
    if is_byte {
        let lo = v as int % 0x100;
        (lo as u16, spec_nz8(c1.processor_status, lo))
    } else {
        let r = (v as int % 0x10000) as u16;
        (r, spec_nz16(c1.processor_status, r as int))
    }
}

/// What LDX does.
pub open spec fn spec_ldx_apply<T: Instruction>(mode: T, c: CPU, m: MemView) -> (
    Result<(), Fault>,
    CPU,
    MemView,
) {
    let is_byte = c.spec_idx_is_byte();
    let (lr, c1) = mode.load_spec(c, m, is_byte);
    match lr {
        Err(f) => (Err(f), c1, m),
        Ok(v) => {
            let (r, ps) = spec_ldidx(c1, is_byte, v);
            (Ok(()), CPU { index_x: r, processor_status: ps, ..c1 }, m)
        },
    }
}

/// What LDY does.
pub open spec fn spec_ldy_apply<T: Instruction>(mode: T, c: CPU, m: MemView) -> (
    Result<(), Fault>,
    CPU,
    MemView,
) {
    let is_byte = c.spec_idx_is_byte();
    let (lr, c1) = mode.load_spec(c, m, is_byte);
    match lr {
        Err(f) => (Err(f), c1, m),
        Ok(v) => {
            let (r, ps) = spec_ldidx(c1, is_byte, v);
            (Ok(()), CPU { index_y: r, processor_status: ps, ..c1 }, m)
        },
    }
}

/// The flags a compare of `reg` against `data` sets at the given width:
/// Negative and Zero from the wrapped difference, Carry when the register
/// is at least the operand.
pub open spec fn spec_compare(p: ProcessorStatus, is_byte: bool, reg: u16, data: u32) -> ProcessorStatus {
    if is_byte {
        let a = reg as int % 0x100;
        let d = data as int % 0x100;
        let r = (a - d) % 0x100;
        ProcessorStatus { negative: r >= 0x80, zero: r == 0, carry: a >= d, ..p }
    } else {
        let a = reg as int;
        let d = data as int % 0x10000;
        let r = (a - d) % 0x10000;
        ProcessorStatus { negative: r >= 0x8000, zero: r == 0, carry: a >= d, ..p }
    }
}

/// What CMP does: compare the accumulator with the operand at the
/// accumulator's width.
pub open spec fn spec_cmp_apply<T: Instruction>(mode: T, c: CPU, m: MemView) -> (
    Result<(), Fault>,
    CPU,
    MemView,
) {
    let is_byte = c.spec_acc_is_byte();
    let (lr, c1) = mode.load_spec(c, m, is_byte);
    match lr {
        Err(f) => (Err(f), c1, m),
        Ok(v) => (
            Ok(()),
            CPU {
                processor_status: spec_compare(c1.processor_status, is_byte, c1.accumulator, v),
                ..c1
            },
            m,
        ),
    }
}

/// What CPX does: compare the X index with the operand at the index width.
pub open spec fn spec_cpx_apply<T: Instruction>(mode: T, c: CPU, m: MemView) -> (
    Result<(), Fault>,
    CPU,
    MemView,
) {
    let is_byte = c.spec_idx_is_byte();
    let (lr, c1) = mode.load_spec(c, m, is_byte);
    match lr {
        Err(f) => (Err(f), c1, m),
        Ok(v) => (
            Ok(()),
            CPU {
                processor_status: spec_compare(c1.processor_status, is_byte, c1.index_x, v),
                ..c1
            },
            m,
        ),
    }
}

/// What CPY does: compare the Y index with the operand at the index width.
pub open spec fn spec_cpy_apply<T: Instruction>(mode: T, c: CPU, m: MemView) -> (
    Result<(), Fault>,
    CPU,
    MemView,
) {
    let is_byte = c.spec_idx_is_byte();
    let (lr, c1) = mode.load_spec(c, m, is_byte);
    match lr {
        Err(f) => (Err(f), c1, m),
        Ok(v) => (
            Ok(()),
            CPU {
                processor_status: spec_compare(c1.processor_status, is_byte, c1.index_y, v),
                ..c1
            },
            m,
        ),
    }
}

/// What REP and SEP do: load the immediate mask and clear (REP) or set
/// (SEP) every flag whose bit is in it; in emulation mode the register-size
/// flags are protected.
pub open spec fn spec_repsep_apply<T: Instruction>(mode: T, c: CPU, m: MemView, val: bool) -> (
    Result<(), Fault>,
    CPU,
    MemView,
) {
    let (lr, c1) = mode.load_spec(c, m, true);
    match lr {
        Err(f) => (Err(f), c1, m),
        Ok(v) => (
            Ok(()),
            CPU {
                processor_status: spec_set_by_byte(
                    c1.processor_status,
                    c1.emulation_mode,
                    (v as int % 0x100) as u8,
                    val,
                ),
                ..c1
            },
            m,
        ),
    }
}

/// What a store through a resolver does: STZ writes zero, STA the
/// accumulator at its width, STX and STY the index registers at theirs.
pub open spec fn spec_store_apply<T: Instruction>(
    mode: T,
    c: CPU,
    m: MemView,
    is_byte: bool,
    data: u32,
) -> (Result<(), Fault>, CPU, MemView) {
    mode.store_spec(c, m, is_byte, data)
}

/// What CLC does: clear Carry.
pub open spec fn spec_clc(c: CPU) -> CPU {
    CPU { processor_status: ProcessorStatus { carry: false, ..c.processor_status }, ..c }
}

/// What SEI does: set IRQ-disable.
pub open spec fn spec_sei(c: CPU) -> CPU {
    CPU { processor_status: ProcessorStatus { irq_disable: true, ..c.processor_status }, ..c }
}

/// What TCD does: copy the accumulator into the direct-page register,
/// setting Negative and Zero from the 16-bit value.
pub open spec fn spec_tcd(c: CPU) -> CPU {
    CPU {
        direct_page: c.accumulator,
        processor_status: spec_nz16(c.processor_status, c.accumulator as int),
        ..c
    }
}

/// What TDC does: copy the direct-page register into the accumulator,
/// setting Negative and Zero from the 16-bit value.
pub open spec fn spec_tdc(c: CPU) -> CPU {
    CPU {
        accumulator: c.direct_page,
        processor_status: spec_nz16(c.processor_status, c.direct_page as int),
        ..c
    }
}

/// What TXS does: copy the X index into the stack pointer, restricted to
/// the low byte at byte-wide index semantics. The emulation-mode page-1
/// rule lives in the stack resolvers, which force the page at the point of
/// use, so only the low byte of the stored pointer matters there.
pub open spec fn spec_txs(c: CPU) -> CPU {
    CPU {
        stack_pointer: if c.spec_idx_is_byte() {
            (c.index_x as int % 0x100) as u16
        } else {
            c.index_x
        },
        ..c
    }
}

/// What TAX does: copy the accumulator into the X index at the index
/// width, setting Negative and Zero at that width.
pub open spec fn spec_tax(c: CPU) -> CPU {
    if c.spec_idx_is_byte() {
        let lo = c.accumulator as int % 0x100;
        CPU { index_x: lo as u16, processor_status: spec_nz8(c.processor_status, lo), ..c }
    } else {
        CPU {
            index_x: c.accumulator,
            processor_status: spec_nz16(c.processor_status, c.accumulator as int),
            ..c
        }
    }
}

/// What INY does: increment the Y index wrapping at the index width,
/// setting Negative and Zero at that width; at byte width the register
/// holds only its low byte.
pub open spec fn spec_iny(c: CPU) -> CPU {
    if c.spec_idx_is_byte() {
        let r = (c.index_y as int % 0x100 + 1) % 0x100;
        CPU { index_y: r as u16, processor_status: spec_nz8(c.processor_status, r), ..c }
    } else {
        let r = wrap16(c.index_y + 1);
        CPU { index_y: r, processor_status: spec_nz16(c.processor_status, r as int), ..c }
    }
}

/// What DEX does: decrement the X index wrapping at the index width.
pub open spec fn spec_dex(c: CPU) -> CPU {
    if c.spec_idx_is_byte() {
        let r = (c.index_x as int % 0x100 - 1) % 0x100;
        CPU { index_x: r as u16, processor_status: spec_nz8(c.processor_status, r), ..c }
    } else {
        let r = wrap16(c.index_x - 1);
        CPU { index_x: r, processor_status: spec_nz16(c.processor_status, r as int), ..c }
    }
}

/// What XBA does: swap the accumulator's bytes, setting Negative and Zero
/// from the new low byte.
pub open spec fn spec_xba(c: CPU) -> CPU {
    let lo = c.accumulator as int % 0x100;
    let hi = c.accumulator as int / 0x100;
    CPU {
        accumulator: (lo * 0x100 + hi) as u16,
        processor_status: spec_nz8(c.processor_status, hi),
        ..c
    }
}

/// What XCE does: exchange the Carry flag with the emulation-mode bit; the
/// only way guest code switches modes.
pub open spec fn spec_xce(c: CPU) -> CPU {
    CPU {
        emulation_mode: c.processor_status.carry,
        processor_status: ProcessorStatus { carry: c.emulation_mode, ..c.processor_status },
        ..c
    }
}


impl CPU {

    /// Software break: interrupt entry through the stack resolver, with
    /// the handler address read from the cartridge's break-vector table
    /// entry for the current processor mode.
    fn brk<T: Instruction>(&mut self, mode: &T, memory: &mut Memory) -> (r: Result<(), Fault>)
        requires
            old(memory).wf(),
        ensures
            final(memory).wf(),
            (r, *final(self), final(memory)@) == spec_brk_apply(*mode, *old(self), old(memory)@),
    {
        if self.emulation_mode {
            self.brk_emulation(mode, memory)
        } else {
            self.brk_native(mode, memory)
        }
    }

    /// The emulation-mode side of BRK.
    fn brk_emulation<T: Instruction>(&mut self, mode: &T, memory: &mut Memory) -> (r: Result<
        (),
        Fault,
    >)
        requires
            old(memory).wf(),
            old(self).emulation_mode,
        ensures
            final(memory).wf(),
            (r, *final(self), final(memory)@) == spec_brk_emulation(
                *mode,
                *old(self),
                old(memory)@,
            ),
    {
        let vector = match memory.read_vector_word(true, Vectors::BRK) {
            Ok(v) => v,
            Err(f) => {
                return Err(f);
            },
        };
        let pc_ret = self.program_counter.wrapping_add(1);
        self.processor_status.index_size = true;
        let ps = self.processor_status.as_byte();
        match mode.store(self, memory, false, pc_ret as u32) {
            Ok(_) => {},
            Err(f) => {
                return Err(f);
            },
        }
        match mode.store(self, memory, true, ps as u32) {
            Ok(_) => {},
            Err(f) => {
                return Err(f);
            },
        }
        self.processor_status.irq_disable = true;
        self.processor_status.decimal = false;
        self.program_counter = vector;
        Ok(())
    }

    /// The native-mode side of BRK.
    fn brk_native<T: Instruction>(&mut self, mode: &T, memory: &mut Memory) -> (r: Result<
        (),
        Fault,
    >)
        requires
            old(memory).wf(),
            !old(self).emulation_mode,
        ensures
            final(memory).wf(),
            (r, *final(self), final(memory)@) == spec_brk_native(*mode, *old(self), old(memory)@),
    {
        let vector = match memory.read_vector_word(false, Vectors::BRK) {
            Ok(v) => v,
            Err(f) => {
                return Err(f);
            },
        };
        let pc_ret = self.program_counter.wrapping_add(1);
        let pb = self.program_bank;
        let ps = self.processor_status.as_byte();
        match mode.store(self, memory, true, pb as u32) {
            Ok(_) => {},
            Err(f) => {
                return Err(f);
            },
        }
        match mode.store(self, memory, false, pc_ret as u32) {
            Ok(_) => {},
            Err(f) => {
                return Err(f);
            },
        }
        match mode.store(self, memory, true, ps as u32) {
            Ok(_) => {},
            Err(f) => {
                return Err(f);
            },
        }
        self.program_bank = 0;
        self.processor_status.irq_disable = true;
        self.processor_status.decimal = false;
        self.program_counter = vector;
        Ok(())
    }

    /// OR the operand into the accumulator at the accumulator's width.
    fn ora<T: Instruction>(&mut self, mode: &T, memory: &mut Memory) -> (r: Result<(), Fault>)
        requires
            old(memory).wf(),
        ensures
            final(memory).wf(),
            (r, *final(self), final(memory)@) == spec_ora_apply(*mode, *old(self), old(memory)@),
    {
        let is_byte = self.acc_is_byte();
        let data = match mode.load(self, memory, is_byte) {
            Ok(v) => v,
            Err(f) => {
                return Err(f);
            },
        };
        if is_byte {
            let lo: u8 = ((self.accumulator % 0x100) as u8) | ((data % 0x100) as u8);
            self.accumulator = self.accumulator / 0x100 * 0x100 + lo as u16;
            self.processor_status.negative = lo >= 0x80;
            self.processor_status.zero = lo == 0;
        } else {
            let r16: u16 = self.accumulator | (data % 0x10000) as u16;
            self.accumulator = r16;
            self.processor_status.negative = r16 >= 0x8000;
            self.processor_status.zero = r16 == 0;
        }
        Ok(())
    }

    /// Push the status byte.
    fn php<T: Instruction>(&mut self, mode: &T, memory: &mut Memory) -> (r: Result<(), Fault>)
        requires
            old(memory).wf(),
        ensures
            final(memory).wf(),
            (r, *final(self), final(memory)@) == spec_push_apply(
                *mode,
                *old(self),
                old(memory)@,
                true,
                spec_status_byte(old(self).processor_status) as u32,
            ),
    {
        let ps = self.processor_status.as_byte();
        mode.store(self, memory, true, ps as u32)
    }

    /// Push the direct-page register.
    fn phd<T: Instruction>(&mut self, mode: &T, memory: &mut Memory) -> (r: Result<(), Fault>)
        requires
            old(memory).wf(),
        ensures
            final(memory).wf(),
            (r, *final(self), final(memory)@) == spec_push_apply(
                *mode,
                *old(self),
                old(memory)@,
                false,
                old(self).direct_page as u32,
            ),
    {
        let dp = self.direct_page;
        mode.store(self, memory, false, dp as u32)
    }

    /// Push the accumulator at its width.
    fn pha<T: Instruction>(&mut self, mode: &T, memory: &mut Memory) -> (r: Result<(), Fault>)
        requires
            old(memory).wf(),
        ensures
            final(memory).wf(),
            (r, *final(self), final(memory)@) == spec_push_apply(
                *mode,
                *old(self),
                old(memory)@,
                old(self).spec_acc_is_byte(),
                old(self).accumulator as u32,
            ),
    {
        let is_byte = self.acc_is_byte();
        let a = self.accumulator;
        mode.store(self, memory, is_byte, a as u32)
    }

    /// Push the program-bank byte.
    fn phk<T: Instruction>(&mut self, mode: &T, memory: &mut Memory) -> (r: Result<(), Fault>)
        requires
            old(memory).wf(),
        ensures
            final(memory).wf(),
            (r, *final(self), final(memory)@) == spec_push_apply(
                *mode,
                *old(self),
                old(memory)@,
                true,
                old(self).program_bank as u32,
            ),
    {
        let pb = self.program_bank;
        mode.store(self, memory, true, pb as u32)
    }

    /// Push the data-bank byte.
    fn phb<T: Instruction>(&mut self, mode: &T, memory: &mut Memory) -> (r: Result<(), Fault>)
        requires
            old(memory).wf(),
        ensures
            final(memory).wf(),
            (r, *final(self), final(memory)@) == spec_push_apply(
                *mode,
                *old(self),
                old(memory)@,
                true,
                old(self).data_bank as u32,
            ),
    {
        let db = self.data_bank;
        mode.store(self, memory, true, db as u32)
    }

    /// Push the X index at the index width.
    fn phx<T: Instruction>(&mut self, mode: &T, memory: &mut Memory) -> (r: Result<(), Fault>)
        requires
            old(memory).wf(),
        ensures
            final(memory).wf(),
            (r, *final(self), final(memory)@) == spec_push_apply(
                *mode,
                *old(self),
                old(memory)@,
                old(self).spec_idx_is_byte(),
                old(self).index_x as u32,
            ),
    {
        let is_byte = self.idx_is_byte();
        let x = self.index_x;
        mode.store(self, memory, is_byte, x as u32)
    }

    /// Push the Y index at the index width.
    fn phy<T: Instruction>(&mut self, mode: &T, memory: &mut Memory) -> (r: Result<(), Fault>)
        requires
            old(memory).wf(),
        ensures
            final(memory).wf(),
            (r, *final(self), final(memory)@) == spec_push_apply(
                *mode,
                *old(self),
                old(memory)@,
                old(self).spec_idx_is_byte(),
                old(self).index_y as u32,
            ),
    {
        let is_byte = self.idx_is_byte();
        let y = self.index_y;
        mode.store(self, memory, is_byte, y as u32)
    }

    /// Branch when Negative is clear.
    fn bpl<T: Instruction>(&mut self, mode: &T, memory: &mut Memory) -> (r: Result<(), Fault>)
        requires
            old(memory).wf(),
        ensures
            final(memory).wf(),
            (r, *final(self), final(memory)@) == spec_branch_apply(
                *mode,
                *old(self),
                old(memory)@,
                !old(self).processor_status.negative,
            ),
    {
        if !self.processor_status.negative {
            let d = match mode.load(self, memory, true) {
                Ok(v) => v,
                Err(f) => {
                    return Err(f);
                },
            };
            let lo: u16 = (d % 0x100) as u16;
            if lo >= 0x80 {
                self.program_counter = self.program_counter.wrapping_sub(0x100 - lo);
            } else {
                self.program_counter = self.program_counter.wrapping_add(lo);
            }
        }
        self.program_counter = self.program_counter.wrapping_add(1);
        Ok(())
    }

    /// Branch when Zero is clear.
    fn bne<T: Instruction>(&mut self, mode: &T, memory: &mut Memory) -> (r: Result<(), Fault>)
        requires
            old(memory).wf(),
        ensures
            final(memory).wf(),
            (r, *final(self), final(memory)@) == spec_branch_apply(
                *mode,
                *old(self),
                old(memory)@,
                !old(self).processor_status.zero,
            ),
    {
        if !self.processor_status.zero {
            let d = match mode.load(self, memory, true) {
                Ok(v) => v,
                Err(f) => {
                    return Err(f);
                },
            };
            let lo: u16 = (d % 0x100) as u16;
            if lo >= 0x80 {
                self.program_counter = self.program_counter.wrapping_sub(0x100 - lo);
            } else {
                self.program_counter = self.program_counter.wrapping_add(lo);
            }
        }
        self.program_counter = self.program_counter.wrapping_add(1);
        Ok(())
    }

    /// Increment through the resolver at the accumulator's width.
    fn inc<T: Instruction>(&mut self, mode: &T, memory: &mut Memory) -> (r: Result<(), Fault>)
        requires
            old(memory).wf(),
        ensures
            final(memory).wf(),
            (r, *final(self), final(memory)@) == spec_inc_apply(*mode, *old(self), old(memory)@),
    {
        let is_byte = self.acc_is_byte();
        let pc_before = self.program_counter;
        let data = match mode.load(self, memory, is_byte) {
            Ok(v) => v,
            Err(f) => {
                return Err(f);
            },
        };
        let nv: u32 = if is_byte {
            (data % 0x100 + 1) % 0x100
        } else {
            (data % 0x10000 + 1) % 0x10000
        };
        self.program_counter = pc_before;
        match mode.store(self, memory, is_byte, nv) {
            Ok(_) => {},
            Err(f) => {
                return Err(f);
            },
        }
        if is_byte {
            self.processor_status.negative = nv >= 0x80;
            self.processor_status.zero = nv == 0;
        } else {
            self.processor_status.negative = nv >= 0x8000;
            self.processor_status.zero = nv == 0;
        }
        Ok(())
    }

    /// Subroutine call: push the return address (JSL also the program
    /// bank), then jump to the target read from the instruction stream.
    fn jsr<T: Instruction>(&mut self, mode: &T, memory: &mut Memory, is_long: bool) -> (r: Result<
        (),
        Fault,
    >)
        requires
            old(memory).wf(),
        ensures
            final(memory).wf(),
            (r, *final(self), final(memory)@) == spec_jsr_apply(
                *mode,
                *old(self),
                old(memory)@,
                is_long,
            ),
    {
        let pc_ret: u16 = if is_long {
            self.program_counter.wrapping_add(2)
        } else {
            self.program_counter.wrapping_add(1)
        };
        let push = StackPush;
        if is_long {
            let pb = self.program_bank;
            match push.store(self, memory, true, pb as u32) {
                Ok(_) => {},
                Err(f) => {
                    return Err(f);
                },
            }
        }
        match push.store(self, memory, false, pc_ret as u32) {
            Ok(_) => {},
            Err(f) => {
                return Err(f);
            },
        }
        let t = match mode.load(self, memory, false) {
            Ok(v) => v,
            Err(f) => {
                return Err(f);
            },
        };
        self.program_counter = (t % 0x10000) as u16;
        if is_long {
            self.program_bank = ((t / 0x10000) % 0x100) as u8;
        }
        Ok(())
    }

    /// Jump to the resolved effective address, bank included.
    fn jmp<T: Instruction>(&mut self, mode: &T, memory: &mut Memory) -> (r: Result<(), Fault>)
        requires
            old(memory).wf(),
        ensures
            final(memory).wf(),
            (r, *final(self), final(memory)@) == spec_jmp_apply(*mode, *old(self), old(memory)@),
    {
        let t = match mode.load(self, memory, false) {
            Ok(v) => v,
            Err(f) => {
                return Err(f);
            },
        };
        self.program_counter = (t % 0x10000) as u16;
        self.program_bank = ((t / 0x10000) % 0x100) as u8;
        Ok(())
    }

    /// Return from subroutine: continue one byte past the pulled address.
    fn rts<T: Instruction>(&mut self, mode: &T, memory: &mut Memory) -> (r: Result<(), Fault>)
        requires
            old(memory).wf(),
        ensures
            final(memory).wf(),
            (r, *final(self), final(memory)@) == spec_rts_apply(*mode, *old(self), old(memory)@),
    {
        let w = match mode.load(self, memory, false) {
            Ok(v) => v,
            Err(f) => {
                return Err(f);
            },
        };
        self.program_counter = ((w % 0x10000) as u16).wrapping_add(1);
        Ok(())
    }

    /// Add with carry at the accumulator's width.
    fn adc<T: Instruction>(&mut self, mode: &T, memory: &mut Memory) -> (r: Result<(), Fault>)
        requires
            old(memory).wf(),
        ensures
            final(memory).wf(),
            (r, *final(self), final(memory)@) == spec_adc_apply(*mode, *old(self), old(memory)@),
    {
        let is_byte = self.acc_is_byte();
        let data = match mode.load(self, memory, is_byte) {
            Ok(v) => v,
            Err(f) => {
                return Err(f);
            },
        };
        let carry_in: u32 = if self.processor_status.carry {
            1
        } else {
            0
        };
        if is_byte {
            let a: u32 = self.accumulator as u32 % 0x100;
            let d: u32 = data % 0x100;
            let total: u32 = a + d + carry_in;
            let res: u32 = total % 0x100;
            self.accumulator = (self.accumulator as u32 - a + res) as u16;
            self.processor_status.carry = total >= 0x100;
            self.processor_status.zero = res == 0;
            self.processor_status.negative = res >= 0x80;
            self.processor_status.overflow = ((a >= 0x80) == (d >= 0x80)) && ((res >= 0x80) != (a
                >= 0x80));
        } else {
            let a: u32 = self.accumulator as u32;
            let d: u32 = data % 0x10000;
            let total: u32 = a + d + carry_in;
            let res: u32 = total % 0x10000;
            self.accumulator = res as u16;
            self.processor_status.carry = total >= 0x10000;
            self.processor_status.zero = res == 0;
            self.processor_status.negative = res >= 0x8000;
            self.processor_status.overflow = ((a >= 0x8000) == (d >= 0x8000)) && ((res >= 0x8000)
                != (a >= 0x8000));
        }
        Ok(())
    }

    /// Pull the direct-page register.
    fn pld<T: Instruction>(&mut self, mode: &T, memory: &mut Memory) -> (r: Result<(), Fault>)
        requires
            old(memory).wf(),
        ensures
            final(memory).wf(),
            (r, *final(self), final(memory)@) == spec_pld_apply(*mode, *old(self), old(memory)@),
    {
        let w = match mode.load(self, memory, false) {
            Ok(v) => v,
            Err(f) => {
                return Err(f);
            },
        };
        let dp = (w % 0x10000) as u16;
        self.direct_page = dp;
        self.processor_status.negative = dp >= 0x8000;
        self.processor_status.zero = dp == 0;
        Ok(())
    }

    /// Pull the data-bank register.
    fn plb<T: Instruction>(&mut self, mode: &T, memory: &mut Memory) -> (r: Result<(), Fault>)
        requires
            old(memory).wf(),
        ensures
            final(memory).wf(),
            (r, *final(self), final(memory)@) == spec_plb_apply(*mode, *old(self), old(memory)@),
    {
        let b = match mode.load(self, memory, true) {
            Ok(v) => v,
            Err(f) => {
                return Err(f);
            },
        };
        let db = (b % 0x100) as u8;
        self.data_bank = db;
        self.processor_status.negative = db >= 0x80;
        self.processor_status.zero = db == 0;
        Ok(())
    }

    /// Store a zero at the accumulator's width.
    fn stz<T: Instruction>(&mut self, mode: &T, memory: &mut Memory) -> (r: Result<(), Fault>)
        requires
            old(memory).wf(),
        ensures
            final(memory).wf(),
            (r, *final(self), final(memory)@) == spec_store_apply(
                *mode,
                *old(self),
                old(memory)@,
                old(self).spec_acc_is_byte(),
                0,
            ),
    {
        let is_byte = self.acc_is_byte();
        mode.store(self, memory, is_byte, 0)
    }

    /// Store the accumulator at its width.
    fn sta<T: Instruction>(&mut self, mode: &T, memory: &mut Memory) -> (r: Result<(), Fault>)
        requires
            old(memory).wf(),
        ensures
            final(memory).wf(),
            (r, *final(self), final(memory)@) == spec_store_apply(
                *mode,
                *old(self),
                old(memory)@,
                old(self).spec_acc_is_byte(),
                old(self).accumulator as u32,
            ),
    {
        let is_byte = self.acc_is_byte();
        let a = self.accumulator;
        mode.store(self, memory, is_byte, a as u32)
    }

    /// Store the X index at the index width.
    fn stx<T: Instruction>(&mut self, mode: &T, memory: &mut Memory) -> (r: Result<(), Fault>)
        requires
            old(memory).wf(),
        ensures
            final(memory).wf(),
            (r, *final(self), final(memory)@) == spec_store_apply(
                *mode,
                *old(self),
                old(memory)@,
                old(self).spec_idx_is_byte(),
                old(self).index_x as u32,
            ),
    {
        let is_byte = self.idx_is_byte();
        let x = self.index_x;
        mode.store(self, memory, is_byte, x as u32)
    }

    /// Store the Y index at the index width.
    fn sty<T: Instruction>(&mut self, mode: &T, memory: &mut Memory) -> (r: Result<(), Fault>)
        requires
            old(memory).wf(),
        ensures
            final(memory).wf(),
            (r, *final(self), final(memory)@) == spec_store_apply(
                *mode,
                *old(self),
                old(memory)@,
                old(self).spec_idx_is_byte(),
                old(self).index_y as u32,
            ),
    {
        let is_byte = self.idx_is_byte();
        let y = self.index_y;
        mode.store(self, memory, is_byte, y as u32)
    }

    /// Load the accumulator at its width.
    fn lda<T: Instruction>(&mut self, mode: &T, memory: &mut Memory) -> (r: Result<(), Fault>)
        requires
            old(memory).wf(),
        ensures
            final(memory).wf(),
            (r, *final(self), final(memory)@) == spec_lda_apply(*mode, *old(self), old(memory)@),
    {
        let is_byte = self.acc_is_byte();
        let data = match mode.load(self, memory, is_byte) {
            Ok(v) => v,
            Err(f) => {
                return Err(f);
            },
        };
        if is_byte {
            let lo: u16 = (data % 0x100) as u16;
            self.accumulator = self.accumulator / 0x100 * 0x100 + lo;
            self.processor_status.negative = lo >= 0x80;
            self.processor_status.zero = lo == 0;
        } else {
            let r16 = (data % 0x10000) as u16;
            self.accumulator = r16;
            self.processor_status.negative = r16 >= 0x8000;
            self.processor_status.zero = r16 == 0;
        }
        Ok(())
    }

    /// Load the X index at the index width.
    fn ldx<T: Instruction>(&mut self, mode: &T, memory: &mut Memory) -> (r: Result<(), Fault>)
        requires
            old(memory).wf(),
        ensures
            final(memory).wf(),
            (r, *final(self), final(memory)@) == spec_ldx_apply(*mode, *old(self), old(memory)@),
    {
        let is_byte = self.idx_is_byte();
        let data = match mode.load(self, memory, is_byte) {
            Ok(v) => v,
            Err(f) => {
                return Err(f);
            },
        };
        if is_byte {
            let lo: u16 = (data % 0x100) as u16;
            self.index_x = lo;
            self.processor_status.negative = lo >= 0x80;
            self.processor_status.zero = lo == 0;
        } else {
            let r16 = (data % 0x10000) as u16;
            self.index_x = r16;
            self.processor_status.negative = r16 >= 0x8000;
            self.processor_status.zero = r16 == 0;
        }
        Ok(())
    }

    /// Load the Y index at the index width.
    fn ldy<T: Instruction>(&mut self, mode: &T, memory: &mut Memory) -> (r: Result<(), Fault>)
        requires
            old(memory).wf(),
        ensures
            final(memory).wf(),
            (r, *final(self), final(memory)@) == spec_ldy_apply(*mode, *old(self), old(memory)@),
    {
        let is_byte = self.idx_is_byte();
        let data = match mode.load(self, memory, is_byte) {
            Ok(v) => v,
            Err(f) => {
                return Err(f);
            },
        };
        if is_byte {
            let lo: u16 = (data % 0x100) as u16;
            self.index_y = lo;
            self.processor_status.negative = lo >= 0x80;
            self.processor_status.zero = lo == 0;
        } else {
            let r16 = (data % 0x10000) as u16;
            self.index_y = r16;
            self.processor_status.negative = r16 >= 0x8000;
            self.processor_status.zero = r16 == 0;
        }
        Ok(())
    }

    /// Compare the accumulator with the operand at the accumulator's width.
    fn cmp<T: Instruction>(&mut self, mode: &T, memory: &mut Memory) -> (r: Result<(), Fault>)
        requires
            old(memory).wf(),
        ensures
            final(memory).wf(),
            (r, *final(self), final(memory)@) == spec_cmp_apply(*mode, *old(self), old(memory)@),
    {
        let is_byte = self.acc_is_byte();
        let data = match mode.load(self, memory, is_byte) {
            Ok(v) => v,
            Err(f) => {
                return Err(f);
            },
        };
        let a = self.accumulator;
        self.compare_flags(is_byte, a, data);
        Ok(())
    }

    /// Compare the X index with the operand at the index width.
    fn cpx<T: Instruction>(&mut self, mode: &T, memory: &mut Memory) -> (r: Result<(), Fault>)
        requires
            old(memory).wf(),
        ensures
            final(memory).wf(),
            (r, *final(self), final(memory)@) == spec_cpx_apply(*mode, *old(self), old(memory)@),
    {
        let is_byte = self.idx_is_byte();
        let data = match mode.load(self, memory, is_byte) {
            Ok(v) => v,
            Err(f) => {
                return Err(f);
            },
        };
        let x = self.index_x;
        self.compare_flags(is_byte, x, data);
        Ok(())
    }

    /// Compare the Y index with the operand at the index width.
    fn cpy<T: Instruction>(&mut self, mode: &T, memory: &mut Memory) -> (r: Result<(), Fault>)
        requires
            old(memory).wf(),
        ensures
            final(memory).wf(),
            (r, *final(self), final(memory)@) == spec_cpy_apply(*mode, *old(self), old(memory)@),
    {
        let is_byte = self.idx_is_byte();
        let data = match mode.load(self, memory, is_byte) {
            Ok(v) => v,
            Err(f) => {
                return Err(f);
            },
        };
        let y = self.index_y;
        self.compare_flags(is_byte, y, data);
        Ok(())
    }

    /// Sets Negative, Zero and Carry as a compare of `reg` against `data`
    /// at the given width does.
    fn compare_flags(&mut self, is_byte: bool, reg: u16, data: u32)
        ensures
            *final(self) == (CPU {
                processor_status: spec_compare(
                    old(self).processor_status,
                    is_byte,
                    reg,
                    data,
                ),
                ..*old(self)
            }),
    {
        if is_byte {
            let a: u32 = reg as u32 % 0x100;
            let d: u32 = data % 0x100;
            let res: u32 = (a + 0x100 - d) % 0x100;
            self.processor_status.negative = res >= 0x80;
            self.processor_status.zero = res == 0;
            self.processor_status.carry = a >= d;
            proof {
                assert((a + 0x100 - d) % 0x100 == (a - d) % 0x100);
            }
        } else {
            let a: u32 = reg as u32;
            let d: u32 = data % 0x10000;
            let res: u32 = (a + 0x10000 - d) % 0x10000;
            self.processor_status.negative = res >= 0x8000;
            self.processor_status.zero = res == 0;
            self.processor_status.carry = a >= d;
            proof {
                assert((a + 0x10000 - d) % 0x10000 == (a - d) % 0x10000);
            }
        }
    }

    /// Clear (REP) status bits per the immediate mask.
    fn rep<T: Instruction>(&mut self, mode: &T, memory: &mut Memory) -> (r: Result<(), Fault>)
        requires
            old(memory).wf(),
        ensures
            final(memory).wf(),
            (r, *final(self), final(memory)@) == spec_repsep_apply(
                *mode,
                *old(self),
                old(memory)@,
                false,
            ),
    {
        let v = match mode.load(self, memory, true) {
            Ok(v) => v,
            Err(f) => {
                return Err(f);
            },
        };
        let emu = self.emulation_mode;
        self.processor_status.set_by_byte(emu, (v % 0x100) as u8, false);
        Ok(())
    }

    /// Set (SEP) status bits per the immediate mask.
    fn sep<T: Instruction>(&mut self, mode: &T, memory: &mut Memory) -> (r: Result<(), Fault>)
        requires
            old(memory).wf(),
        ensures
            final(memory).wf(),
            (r, *final(self), final(memory)@) == spec_repsep_apply(
                *mode,
                *old(self),
                old(memory)@,
                true,
            ),
    {
        let v = match mode.load(self, memory, true) {
            Ok(v) => v,
            Err(f) => {
                return Err(f);
            },
        };
        let emu = self.emulation_mode;
        self.processor_status.set_by_byte(emu, (v % 0x100) as u8, true);
        Ok(())
    }

    /// Clear Carry.
    fn clc(&mut self)
        ensures
            *final(self) == spec_clc(*old(self)),
    {
        self.processor_status.carry = false;
    }

    /// Set IRQ-disable.
    fn sei(&mut self)
        ensures
            *final(self) == spec_sei(*old(self)),
    {
        self.processor_status.irq_disable = true;
    }

    /// Copy the accumulator into the direct-page register.
    fn tcd(&mut self)
        ensures
            *final(self) == spec_tcd(*old(self)),
    {
        let a = self.accumulator;
        self.direct_page = a;
        self.processor_status.negative = a >= 0x8000;
        self.processor_status.zero = a == 0;
    }

    /// Copy the direct-page register into the accumulator.
    fn tdc(&mut self)
        ensures
            *final(self) == spec_tdc(*old(self)),
    {
        let dp = self.direct_page;
        self.accumulator = dp;
        self.processor_status.negative = dp >= 0x8000;
        self.processor_status.zero = dp == 0;
    }

    /// Copy the X index into the stack pointer.
    fn txs(&mut self)
        ensures
            *final(self) == spec_txs(*old(self)),
    {
        if self.idx_is_byte() {
            self.stack_pointer = self.index_x % 0x100;
        } else {
            self.stack_pointer = self.index_x;
        }
    }

    /// Copy the accumulator into the X index at the index width.
    fn tax(&mut self)
        ensures
            *final(self) == spec_tax(*old(self)),
    {
        if self.idx_is_byte() {
            let lo = self.accumulator % 0x100;
            self.index_x = lo;
            self.processor_status.negative = lo >= 0x80;
            self.processor_status.zero = lo == 0;
        } else {
            let a = self.accumulator;
            self.index_x = a;
            self.processor_status.negative = a >= 0x8000;
            self.processor_status.zero = a == 0;
        }
    }

    /// Increment the Y index at the index width.
    fn iny(&mut self)
        ensures
            *final(self) == spec_iny(*old(self)),
    {
        if self.idx_is_byte() {
            let lo: u16 = (self.index_y % 0x100 + 1) % 0x100;
            self.index_y = lo;
            self.processor_status.negative = lo >= 0x80;
            self.processor_status.zero = lo == 0;
        } else {
            let r16 = self.index_y.wrapping_add(1);
            self.index_y = r16;
            self.processor_status.negative = r16 >= 0x8000;
            self.processor_status.zero = r16 == 0;
        }
    }

    /// Decrement the X index at the index width.
    fn dex(&mut self)
        ensures
            *final(self) == spec_dex(*old(self)),
    {
        if self.idx_is_byte() {
            let lo: u16 = (self.index_x % 0x100 + 0xFF) % 0x100;
            self.index_x = lo;
            self.processor_status.negative = lo >= 0x80;
            self.processor_status.zero = lo == 0;
            proof {
                assert((old(self).index_x as int % 0x100 + 0xFF) % 0x100 == (old(
                    self,
                ).index_x as int % 0x100 - 1) % 0x100);
            }
        } else {
            let r16 = self.index_x.wrapping_sub(1);
            self.index_x = r16;
            self.processor_status.negative = r16 >= 0x8000;
            self.processor_status.zero = r16 == 0;
        }
    }

    /// Swap the accumulator's bytes.
    fn xba(&mut self)
        ensures
            *final(self) == spec_xba(*old(self)),
    {
        let lo = self.accumulator % 0x100;
        let hi = self.accumulator / 0x100;
        self.accumulator = lo * 0x100 + hi;
        self.processor_status.negative = hi >= 0x80;
        self.processor_status.zero = hi == 0;
    }

    /// Exchange Carry with the emulation-mode bit.
    fn xce(&mut self)
        ensures
            *final(self) == spec_xce(*old(self)),
    {
        let was_emulation = self.emulation_mode;
        self.emulation_mode = self.processor_status.carry;
        self.processor_status.carry = was_emulation;
    }

    /// Handler not yet implemented: a development-stub fault naming the
    /// gap, with the machine left unchanged.
    fn tsb<T: Instruction>(&mut self, mode: &T, memory: &mut Memory) -> (r: Result<(), Fault>)
        requires
            old(memory).wf(),
        ensures
            final(memory).wf(),
            (r, *final(self), final(memory)@) == spec_stub(*old(self), old(memory)@, Mnemonic::Tsb),
    {
        Err(Fault::UnimplementedInstruction { which: Mnemonic::Tsb })
    }

    /// Handler not yet implemented: a development-stub fault naming the
    /// gap, with the machine left unchanged.
    fn asl<T: Instruction>(&mut self, mode: &T, memory: &mut Memory) -> (r: Result<(), Fault>)
        requires
            old(memory).wf(),
        ensures
            final(memory).wf(),
            (r, *final(self), final(memory)@) == spec_stub(*old(self), old(memory)@, Mnemonic::Asl),
    {
        Err(Fault::UnimplementedInstruction { which: Mnemonic::Asl })
    }

    /// Handler not yet implemented: a development-stub fault naming the
    /// gap, with the machine left unchanged.
    fn trb<T: Instruction>(&mut self, mode: &T, memory: &mut Memory) -> (r: Result<(), Fault>)
        requires
            old(memory).wf(),
        ensures
            final(memory).wf(),
            (r, *final(self), final(memory)@) == spec_stub(*old(self), old(memory)@, Mnemonic::Trb),
    {
        Err(Fault::UnimplementedInstruction { which: Mnemonic::Trb })
    }

    /// Handler not yet implemented: a development-stub fault naming the
    /// gap, with the machine left unchanged.
    fn and<T: Instruction>(&mut self, mode: &T, memory: &mut Memory) -> (r: Result<(), Fault>)
        requires
            old(memory).wf(),
        ensures
            final(memory).wf(),
            (r, *final(self), final(memory)@) == spec_stub(*old(self), old(memory)@, Mnemonic::And),
    {
        Err(Fault::UnimplementedInstruction { which: Mnemonic::And })
    }

    /// Handler not yet implemented: a development-stub fault naming the
    /// gap, with the machine left unchanged.
    fn bit<T: Instruction>(&mut self, mode: &T, memory: &mut Memory) -> (r: Result<(), Fault>)
        requires
            old(memory).wf(),
        ensures
            final(memory).wf(),
            (r, *final(self), final(memory)@) == spec_stub(*old(self), old(memory)@, Mnemonic::Bit),
    {
        Err(Fault::UnimplementedInstruction { which: Mnemonic::Bit })
    }

    /// Handler not yet implemented: a development-stub fault naming the
    /// gap, with the machine left unchanged.
    fn rol<T: Instruction>(&mut self, mode: &T, memory: &mut Memory) -> (r: Result<(), Fault>)
        requires
            old(memory).wf(),
        ensures
            final(memory).wf(),
            (r, *final(self), final(memory)@) == spec_stub(*old(self), old(memory)@, Mnemonic::Rol),
    {
        Err(Fault::UnimplementedInstruction { which: Mnemonic::Rol })
    }

    /// Handler not yet implemented: a development-stub fault naming the
    /// gap, with the machine left unchanged.
    fn plp<T: Instruction>(&mut self, mode: &T, memory: &mut Memory) -> (r: Result<(), Fault>)
        requires
            old(memory).wf(),
        ensures
            final(memory).wf(),
            (r, *final(self), final(memory)@) == spec_stub(*old(self), old(memory)@, Mnemonic::Plp),
    {
        Err(Fault::UnimplementedInstruction { which: Mnemonic::Plp })
    }

    /// Handler not yet implemented: a development-stub fault naming the
    /// gap, with the machine left unchanged.
    fn bmi<T: Instruction>(&mut self, mode: &T, memory: &mut Memory) -> (r: Result<(), Fault>)
        requires
            old(memory).wf(),
        ensures
            final(memory).wf(),
            (r, *final(self), final(memory)@) == spec_stub(*old(self), old(memory)@, Mnemonic::Bmi),
    {
        Err(Fault::UnimplementedInstruction { which: Mnemonic::Bmi })
    }

    /// Handler not yet implemented: a development-stub fault naming the
    /// gap, with the machine left unchanged.
    fn dec<T: Instruction>(&mut self, mode: &T, memory: &mut Memory) -> (r: Result<(), Fault>)
        requires
            old(memory).wf(),
        ensures
            final(memory).wf(),
            (r, *final(self), final(memory)@) == spec_stub(*old(self), old(memory)@, Mnemonic::Dec),
    {
        Err(Fault::UnimplementedInstruction { which: Mnemonic::Dec })
    }

    /// Handler not yet implemented: a development-stub fault naming the
    /// gap, with the machine left unchanged.
    fn rti<T: Instruction>(&mut self, mode: &T, memory: &mut Memory) -> (r: Result<(), Fault>)
        requires
            old(memory).wf(),
        ensures
            final(memory).wf(),
            (r, *final(self), final(memory)@) == spec_stub(*old(self), old(memory)@, Mnemonic::Rti),
    {
        Err(Fault::UnimplementedInstruction { which: Mnemonic::Rti })
    }

    /// Handler not yet implemented: a development-stub fault naming the
    /// gap, with the machine left unchanged.
    fn eor<T: Instruction>(&mut self, mode: &T, memory: &mut Memory) -> (r: Result<(), Fault>)
        requires
            old(memory).wf(),
        ensures
            final(memory).wf(),
            (r, *final(self), final(memory)@) == spec_stub(*old(self), old(memory)@, Mnemonic::Eor),
    {
        Err(Fault::UnimplementedInstruction { which: Mnemonic::Eor })
    }

    /// Handler not yet implemented: a development-stub fault naming the
    /// gap, with the machine left unchanged.
    fn mvp<T: Instruction>(&mut self, mode: &T, memory: &mut Memory) -> (r: Result<(), Fault>)
        requires
            old(memory).wf(),
        ensures
            final(memory).wf(),
            (r, *final(self), final(memory)@) == spec_stub(*old(self), old(memory)@, Mnemonic::Mvp),
    {
        Err(Fault::UnimplementedInstruction { which: Mnemonic::Mvp })
    }

    /// Handler not yet implemented: a development-stub fault naming the
    /// gap, with the machine left unchanged.
    fn lsr<T: Instruction>(&mut self, mode: &T, memory: &mut Memory) -> (r: Result<(), Fault>)
        requires
            old(memory).wf(),
        ensures
            final(memory).wf(),
            (r, *final(self), final(memory)@) == spec_stub(*old(self), old(memory)@, Mnemonic::Lsr),
    {
        Err(Fault::UnimplementedInstruction { which: Mnemonic::Lsr })
    }

    /// Handler not yet implemented: a development-stub fault naming the
    /// gap, with the machine left unchanged.
    fn bvc<T: Instruction>(&mut self, mode: &T, memory: &mut Memory) -> (r: Result<(), Fault>)
        requires
            old(memory).wf(),
        ensures
            final(memory).wf(),
            (r, *final(self), final(memory)@) == spec_stub(*old(self), old(memory)@, Mnemonic::Bvc),
    {
        Err(Fault::UnimplementedInstruction { which: Mnemonic::Bvc })
    }

    /// Handler not yet implemented: a development-stub fault naming the
    /// gap, with the machine left unchanged.
    fn mvn<T: Instruction>(&mut self, mode: &T, memory: &mut Memory) -> (r: Result<(), Fault>)
        requires
            old(memory).wf(),
        ensures
            final(memory).wf(),
            (r, *final(self), final(memory)@) == spec_stub(*old(self), old(memory)@, Mnemonic::Mvn),
    {
        Err(Fault::UnimplementedInstruction { which: Mnemonic::Mvn })
    }

    /// Handler not yet implemented: a development-stub fault naming the
    /// gap, with the machine left unchanged.
    fn per<T: Instruction>(&mut self, mode: &T, memory: &mut Memory) -> (r: Result<(), Fault>)
        requires
            old(memory).wf(),
        ensures
            final(memory).wf(),
            (r, *final(self), final(memory)@) == spec_stub(*old(self), old(memory)@, Mnemonic::Per),
    {
        Err(Fault::UnimplementedInstruction { which: Mnemonic::Per })
    }

    /// Handler not yet implemented: a development-stub fault naming the
    /// gap, with the machine left unchanged.
    fn ror<T: Instruction>(&mut self, mode: &T, memory: &mut Memory) -> (r: Result<(), Fault>)
        requires
            old(memory).wf(),
        ensures
            final(memory).wf(),
            (r, *final(self), final(memory)@) == spec_stub(*old(self), old(memory)@, Mnemonic::Ror),
    {
        Err(Fault::UnimplementedInstruction { which: Mnemonic::Ror })
    }

    /// Handler not yet implemented: a development-stub fault naming the
    /// gap, with the machine left unchanged.
    fn pla<T: Instruction>(&mut self, mode: &T, memory: &mut Memory) -> (r: Result<(), Fault>)
        requires
            old(memory).wf(),
        ensures
            final(memory).wf(),
            (r, *final(self), final(memory)@) == spec_stub(*old(self), old(memory)@, Mnemonic::Pla),
    {
        Err(Fault::UnimplementedInstruction { which: Mnemonic::Pla })
    }

    /// Handler not yet implemented: a development-stub fault naming the
    /// gap, with the machine left unchanged.
    fn rtl<T: Instruction>(&mut self, mode: &T, memory: &mut Memory) -> (r: Result<(), Fault>)
        requires
            old(memory).wf(),
        ensures
            final(memory).wf(),
            (r, *final(self), final(memory)@) == spec_stub(*old(self), old(memory)@, Mnemonic::Rtl),
    {
        Err(Fault::UnimplementedInstruction { which: Mnemonic::Rtl })
    }

    /// Handler not yet implemented: a development-stub fault naming the
    /// gap, with the machine left unchanged.
    fn bvs<T: Instruction>(&mut self, mode: &T, memory: &mut Memory) -> (r: Result<(), Fault>)
        requires
            old(memory).wf(),
        ensures
            final(memory).wf(),
            (r, *final(self), final(memory)@) == spec_stub(*old(self), old(memory)@, Mnemonic::Bvs),
    {
        Err(Fault::UnimplementedInstruction { which: Mnemonic::Bvs })
    }

    /// Handler not yet implemented: a development-stub fault naming the
    /// gap, with the machine left unchanged.
    fn ply<T: Instruction>(&mut self, mode: &T, memory: &mut Memory) -> (r: Result<(), Fault>)
        requires
            old(memory).wf(),
        ensures
            final(memory).wf(),
            (r, *final(self), final(memory)@) == spec_stub(*old(self), old(memory)@, Mnemonic::Ply),
    {
        Err(Fault::UnimplementedInstruction { which: Mnemonic::Ply })
    }

    /// Handler not yet implemented: a development-stub fault naming the
    /// gap, with the machine left unchanged.
    fn bra<T: Instruction>(&mut self, mode: &T, memory: &mut Memory) -> (r: Result<(), Fault>)
        requires
            old(memory).wf(),
        ensures
            final(memory).wf(),
            (r, *final(self), final(memory)@) == spec_stub(*old(self), old(memory)@, Mnemonic::Bra),
    {
        Err(Fault::UnimplementedInstruction { which: Mnemonic::Bra })
    }

    /// Handler not yet implemented: a development-stub fault naming the
    /// gap, with the machine left unchanged.
    fn brl<T: Instruction>(&mut self, mode: &T, memory: &mut Memory) -> (r: Result<(), Fault>)
        requires
            old(memory).wf(),
        ensures
            final(memory).wf(),
            (r, *final(self), final(memory)@) == spec_stub(*old(self), old(memory)@, Mnemonic::Brl),
    {
        Err(Fault::UnimplementedInstruction { which: Mnemonic::Brl })
    }

    /// Handler not yet implemented: a development-stub fault naming the
    /// gap, with the machine left unchanged.
    fn bcc<T: Instruction>(&mut self, mode: &T, memory: &mut Memory) -> (r: Result<(), Fault>)
        requires
            old(memory).wf(),
        ensures
            final(memory).wf(),
            (r, *final(self), final(memory)@) == spec_stub(*old(self), old(memory)@, Mnemonic::Bcc),
    {
        Err(Fault::UnimplementedInstruction { which: Mnemonic::Bcc })
    }

    /// Handler not yet implemented: a development-stub fault naming the
    /// gap, with the machine left unchanged.
    fn bcs<T: Instruction>(&mut self, mode: &T, memory: &mut Memory) -> (r: Result<(), Fault>)
        requires
            old(memory).wf(),
        ensures
            final(memory).wf(),
            (r, *final(self), final(memory)@) == spec_stub(*old(self), old(memory)@, Mnemonic::Bcs),
    {
        Err(Fault::UnimplementedInstruction { which: Mnemonic::Bcs })
    }

    /// Handler not yet implemented: a development-stub fault naming the
    /// gap, with the machine left unchanged.
    fn pei<T: Instruction>(&mut self, mode: &T, memory: &mut Memory) -> (r: Result<(), Fault>)
        requires
            old(memory).wf(),
        ensures
            final(memory).wf(),
            (r, *final(self), final(memory)@) == spec_stub(*old(self), old(memory)@, Mnemonic::Pei),
    {
        Err(Fault::UnimplementedInstruction { which: Mnemonic::Pei })
    }

    /// Handler not yet implemented: a development-stub fault naming the
    /// gap, with the machine left unchanged.
    fn sbc<T: Instruction>(&mut self, mode: &T, memory: &mut Memory) -> (r: Result<(), Fault>)
        requires
            old(memory).wf(),
        ensures
            final(memory).wf(),
            (r, *final(self), final(memory)@) == spec_stub(*old(self), old(memory)@, Mnemonic::Sbc),
    {
        Err(Fault::UnimplementedInstruction { which: Mnemonic::Sbc })
    }

    /// Handler not yet implemented: a development-stub fault naming the
    /// gap, with the machine left unchanged.
    fn beq<T: Instruction>(&mut self, mode: &T, memory: &mut Memory) -> (r: Result<(), Fault>)
        requires
            old(memory).wf(),
        ensures
            final(memory).wf(),
            (r, *final(self), final(memory)@) == spec_stub(*old(self), old(memory)@, Mnemonic::Beq),
    {
        Err(Fault::UnimplementedInstruction { which: Mnemonic::Beq })
    }

    /// Handler not yet implemented: a development-stub fault naming the
    /// gap, with the machine left unchanged.
    fn pea<T: Instruction>(&mut self, mode: &T, memory: &mut Memory) -> (r: Result<(), Fault>)
        requires
            old(memory).wf(),
        ensures
            final(memory).wf(),
            (r, *final(self), final(memory)@) == spec_stub(*old(self), old(memory)@, Mnemonic::Pea),
    {
        Err(Fault::UnimplementedInstruction { which: Mnemonic::Pea })
    }

    /// Handler not yet implemented: a development-stub fault naming the
    /// gap, with the machine left unchanged.
    fn plx<T: Instruction>(&mut self, mode: &T, memory: &mut Memory) -> (r: Result<(), Fault>)
        requires
            old(memory).wf(),
        ensures
            final(memory).wf(),
            (r, *final(self), final(memory)@) == spec_stub(*old(self), old(memory)@, Mnemonic::Plx),
    {
        Err(Fault::UnimplementedInstruction { which: Mnemonic::Plx })
    }

    /// Handler not yet implemented: a development-stub fault naming the
    /// gap, with the machine left unchanged.
    fn tcs(&mut self) -> (r: Result<(), Fault>)
        ensures
            *final(self) == *old(self),
            r == Err::<(), Fault>(Fault::UnimplementedInstruction { which: Mnemonic::Tcs }),
    {
        Err(Fault::UnimplementedInstruction { which: Mnemonic::Tcs })
    }

    /// Handler not yet implemented: a development-stub fault naming the
    /// gap, with the machine left unchanged.
    fn sec(&mut self) -> (r: Result<(), Fault>)
        ensures
            *final(self) == *old(self),
            r == Err::<(), Fault>(Fault::UnimplementedInstruction { which: Mnemonic::Sec }),
    {
        Err(Fault::UnimplementedInstruction { which: Mnemonic::Sec })
    }

    /// Handler not yet implemented: a development-stub fault naming the
    /// gap, with the machine left unchanged.
    fn tsc(&mut self) -> (r: Result<(), Fault>)
        ensures
            *final(self) == *old(self),
            r == Err::<(), Fault>(Fault::UnimplementedInstruction { which: Mnemonic::Tsc }),
    {
        Err(Fault::UnimplementedInstruction { which: Mnemonic::Tsc })
    }

    /// Handler not yet implemented: a development-stub fault naming the
    /// gap, with the machine left unchanged.
    fn wdm(&mut self) -> (r: Result<(), Fault>)
        ensures
            *final(self) == *old(self),
            r == Err::<(), Fault>(Fault::UnimplementedInstruction { which: Mnemonic::Wdm }),
    {
        Err(Fault::UnimplementedInstruction { which: Mnemonic::Wdm })
    }

    /// Handler not yet implemented: a development-stub fault naming the
    /// gap, with the machine left unchanged.
    fn cli(&mut self) -> (r: Result<(), Fault>)
        ensures
            *final(self) == *old(self),
            r == Err::<(), Fault>(Fault::UnimplementedInstruction { which: Mnemonic::Cli }),
    {
        Err(Fault::UnimplementedInstruction { which: Mnemonic::Cli })
    }

    /// Handler not yet implemented: a development-stub fault naming the
    /// gap, with the machine left unchanged.
    fn dey(&mut self) -> (r: Result<(), Fault>)
        ensures
            *final(self) == *old(self),
            r == Err::<(), Fault>(Fault::UnimplementedInstruction { which: Mnemonic::Dey }),
    {
        Err(Fault::UnimplementedInstruction { which: Mnemonic::Dey })
    }

    /// Handler not yet implemented: a development-stub fault naming the
    /// gap, with the machine left unchanged.
    fn txa(&mut self) -> (r: Result<(), Fault>)
        ensures
            *final(self) == *old(self),
            r == Err::<(), Fault>(Fault::UnimplementedInstruction { which: Mnemonic::Txa }),
    {
        Err(Fault::UnimplementedInstruction { which: Mnemonic::Txa })
    }

    /// Handler not yet implemented: a development-stub fault naming the
    /// gap, with the machine left unchanged.
    fn tya(&mut self) -> (r: Result<(), Fault>)
        ensures
            *final(self) == *old(self),
            r == Err::<(), Fault>(Fault::UnimplementedInstruction { which: Mnemonic::Tya }),
    {
        Err(Fault::UnimplementedInstruction { which: Mnemonic::Tya })
    }

    /// Handler not yet implemented: a development-stub fault naming the
    /// gap, with the machine left unchanged.
    fn txy(&mut self) -> (r: Result<(), Fault>)
        ensures
            *final(self) == *old(self),
            r == Err::<(), Fault>(Fault::UnimplementedInstruction { which: Mnemonic::Txy }),
    {
        Err(Fault::UnimplementedInstruction { which: Mnemonic::Txy })
    }

    /// Handler not yet implemented: a development-stub fault naming the
    /// gap, with the machine left unchanged.
    fn tay(&mut self) -> (r: Result<(), Fault>)
        ensures
            *final(self) == *old(self),
            r == Err::<(), Fault>(Fault::UnimplementedInstruction { which: Mnemonic::Tay }),
    {
        Err(Fault::UnimplementedInstruction { which: Mnemonic::Tay })
    }

    /// Handler not yet implemented: a development-stub fault naming the
    /// gap, with the machine left unchanged.
    fn clv(&mut self) -> (r: Result<(), Fault>)
        ensures
            *final(self) == *old(self),
            r == Err::<(), Fault>(Fault::UnimplementedInstruction { which: Mnemonic::Clv }),
    {
        Err(Fault::UnimplementedInstruction { which: Mnemonic::Clv })
    }

    /// Handler not yet implemented: a development-stub fault naming the
    /// gap, with the machine left unchanged.
    fn tsx(&mut self) -> (r: Result<(), Fault>)
        ensures
            *final(self) == *old(self),
            r == Err::<(), Fault>(Fault::UnimplementedInstruction { which: Mnemonic::Tsx }),
    {
        Err(Fault::UnimplementedInstruction { which: Mnemonic::Tsx })
    }

    /// Handler not yet implemented: a development-stub fault naming the
    /// gap, with the machine left unchanged.
    fn tyx(&mut self) -> (r: Result<(), Fault>)
        ensures
            *final(self) == *old(self),
            r == Err::<(), Fault>(Fault::UnimplementedInstruction { which: Mnemonic::Tyx }),
    {
        Err(Fault::UnimplementedInstruction { which: Mnemonic::Tyx })
    }

    /// Handler not yet implemented: a development-stub fault naming the
    /// gap, with the machine left unchanged.
    fn wai(&mut self) -> (r: Result<(), Fault>)
        ensures
            *final(self) == *old(self),
            r == Err::<(), Fault>(Fault::UnimplementedInstruction { which: Mnemonic::Wai }),
    {
        Err(Fault::UnimplementedInstruction { which: Mnemonic::Wai })
    }

    /// Handler not yet implemented: a development-stub fault naming the
    /// gap, with the machine left unchanged.
    fn cld(&mut self) -> (r: Result<(), Fault>)
        ensures
            *final(self) == *old(self),
            r == Err::<(), Fault>(Fault::UnimplementedInstruction { which: Mnemonic::Cld }),
    {
        Err(Fault::UnimplementedInstruction { which: Mnemonic::Cld })
    }

    /// Handler not yet implemented: a development-stub fault naming the
    /// gap, with the machine left unchanged.
    fn stp(&mut self) -> (r: Result<(), Fault>)
        ensures
            *final(self) == *old(self),
            r == Err::<(), Fault>(Fault::UnimplementedInstruction { which: Mnemonic::Stp }),
    {
        Err(Fault::UnimplementedInstruction { which: Mnemonic::Stp })
    }

    /// Handler not yet implemented: a development-stub fault naming the
    /// gap, with the machine left unchanged.
    fn inx(&mut self) -> (r: Result<(), Fault>)
        ensures
            *final(self) == *old(self),
            r == Err::<(), Fault>(Fault::UnimplementedInstruction { which: Mnemonic::Inx }),
    {
        Err(Fault::UnimplementedInstruction { which: Mnemonic::Inx })
    }

    /// Handler not yet implemented: a development-stub fault naming the
    /// gap, with the machine left unchanged.
    fn nop(&mut self) -> (r: Result<(), Fault>)
        ensures
            *final(self) == *old(self),
            r == Err::<(), Fault>(Fault::UnimplementedInstruction { which: Mnemonic::Nop }),
    {
        Err(Fault::UnimplementedInstruction { which: Mnemonic::Nop })
    }

    /// Handler not yet implemented: a development-stub fault naming the
    /// gap, with the machine left unchanged.
    fn sed(&mut self) -> (r: Result<(), Fault>)
        ensures
            *final(self) == *old(self),
            r == Err::<(), Fault>(Fault::UnimplementedInstruction { which: Mnemonic::Sed }),
    {
        Err(Fault::UnimplementedInstruction { which: Mnemonic::Sed })
    }

    /// Dispatches the opcodes 0x00..=0x3F of the fixed 256-entry table.
    fn dispatch_q0(&mut self, opcode: u8, memory: &mut Memory) -> (r: Result<(), Fault>)
        requires
            old(memory).wf(),
            opcode < 0x40,
        ensures
            final(memory).wf(),
            (r, *final(self), final(memory)@) == spec_dispatch(opcode, *old(self), old(memory)@),
    {
        proof {
            reveal(spec_dispatch);
        }
        match opcode {
            0x00 => {
                let mode = StackPush;
                self.brk(&mode, memory)
            },
            0x01 => {
                let mode = DirectPageIndexedIndirectX;
                self.ora(&mode, memory)
            },
            0x02 => Err(Fault::UnknownOpcode { opcode }),
            0x03 => {
                let mode = StackRelative;
                self.ora(&mode, memory)
            },
            0x04 => {
                let mode = DirectPage;
                self.tsb(&mode, memory)
            },
            0x05 => {
                let mode = DirectPage;
                self.ora(&mode, memory)
            },
            0x06 => {
                let mode = DirectPage;
                self.asl(&mode, memory)
            },
            0x07 => {
                let mode = DirectPageIndirectLong;
                self.ora(&mode, memory)
            },
            0x08 => {
                let mode = StackPush;
                self.php(&mode, memory)
            },
            0x09 => {
                let mode = Immediate;
                self.ora(&mode, memory)
            },
            0x0A => {
                let mode = Accumulator;
                self.asl(&mode, memory)
            },
            0x0B => {
                let mode = StackPush;
                self.phd(&mode, memory)
            },
            0x0C => {
                let mode = Absolute { instruction_type: InstructionType::LocatingData };
                self.tsb(&mode, memory)
            },
            0x0D => {
                let mode = Absolute { instruction_type: InstructionType::LocatingData };
                self.ora(&mode, memory)
            },
            0x0E => {
                let mode = Absolute { instruction_type: InstructionType::LocatingData };
                self.asl(&mode, memory)
            },
            0x0F => {
                let mode = AbsoluteLong { instruction_type: InstructionType::LocatingData };
                self.ora(&mode, memory)
            },
            0x10 => {
                let mode = ProgramCounterRelative;
                self.bpl(&mode, memory)
            },
            0x11 => {
                let mode = DirectPageIndirectIndexedY;
                self.ora(&mode, memory)
            },
            0x12 => {
                let mode = DirectPageIndirect;
                self.ora(&mode, memory)
            },
            0x13 => {
                let mode = StackRelativeIndirectIndexedY;
                self.ora(&mode, memory)
            },
            0x14 => {
                let mode = DirectPage;
                self.trb(&mode, memory)
            },
            0x15 => {
                let mode = DirectPageIndexedX;
                self.ora(&mode, memory)
            },
            0x16 => {
                let mode = DirectPageIndexedX;
                self.asl(&mode, memory)
            },
            0x17 => {
                let mode = DirectPageIndirectLongIndexedY;
                self.ora(&mode, memory)
            },
            0x18 => {
                self.clc();
                Ok(())
            },
            0x19 => {
                let mode = AbsoluteIndexedY;
                self.ora(&mode, memory)
            },
            0x1A => {
                let mode = Accumulator;
                self.inc(&mode, memory)
            },
            0x1B => self.tcs(),
            0x1C => {
                let mode = Absolute { instruction_type: InstructionType::LocatingData };
                self.trb(&mode, memory)
            },
            0x1D => {
                let mode = AbsoluteIndexedX;
                self.ora(&mode, memory)
            },
            0x1E => {
                let mode = AbsoluteIndexedX;
                self.asl(&mode, memory)
            },
            0x1F => {
                let mode = AbsoluteLongIndexedX;
                self.ora(&mode, memory)
            },
            0x20 => {
                let mode = Absolute { instruction_type: InstructionType::ControlTransfer };
                self.jsr(&mode, memory, false)
            },
            0x21 => {
                let mode = DirectPageIndexedIndirectX;
                self.and(&mode, memory)
            },
            0x22 => {
                let mode = AbsoluteLong { instruction_type: InstructionType::ControlTransfer };
                self.jsr(&mode, memory, true)
            },
            0x23 => {
                let mode = StackRelative;
                self.and(&mode, memory)
            },
            0x24 => {
                let mode = DirectPage;
                self.bit(&mode, memory)
            },
            0x25 => {
                let mode = DirectPage;
                self.and(&mode, memory)
            },
            0x26 => {
                let mode = DirectPage;
                self.rol(&mode, memory)
            },
            0x27 => {
                let mode = DirectPageIndirectLong;
                self.and(&mode, memory)
            },
            0x28 => {
                let mode = StackPull;
                self.plp(&mode, memory)
            },
            0x29 => {
                let mode = Immediate;
                self.and(&mode, memory)
            },
            0x2A => {
                let mode = Accumulator;
                self.rol(&mode, memory)
            },
            0x2B => {
                let mode = StackPull;
                self.pld(&mode, memory)
            },
            0x2C => {
                let mode = Absolute { instruction_type: InstructionType::LocatingData };
                self.bit(&mode, memory)
            },
            0x2D => {
                let mode = Absolute { instruction_type: InstructionType::LocatingData };
                self.and(&mode, memory)
            },
            0x2E => {
                let mode = Absolute { instruction_type: InstructionType::LocatingData };
                self.rol(&mode, memory)
            },
            0x2F => {
                let mode = AbsoluteLong { instruction_type: InstructionType::LocatingData };
                self.and(&mode, memory)
            },
            0x30 => {
                let mode = ProgramCounterRelative;
                self.bmi(&mode, memory)
            },
            0x31 => {
                let mode = DirectPageIndirectIndexedY;
                self.and(&mode, memory)
            },
            0x32 => {
                let mode = DirectPageIndirect;
                self.and(&mode, memory)
            },
            0x33 => {
                let mode = StackRelativeIndirectIndexedY;
                self.and(&mode, memory)
            },
            0x34 => {
                let mode = DirectPageIndexedX;
                self.bit(&mode, memory)
            },
            0x35 => {
                let mode = DirectPageIndexedX;
                self.and(&mode, memory)
            },
            0x36 => {
                let mode = DirectPageIndexedX;
                self.rol(&mode, memory)
            },
            0x37 => {
                let mode = DirectPageIndirectLongIndexedY;
                self.and(&mode, memory)
            },
            0x38 => self.sec(),
            0x39 => {
                let mode = AbsoluteIndexedY;
                self.and(&mode, memory)
            },
            0x3A => {
                let mode = Accumulator;
                self.dec(&mode, memory)
            },
            0x3B => self.tsc(),
            0x3C => {
                let mode = AbsoluteIndexedX;
                self.bit(&mode, memory)
            },
            0x3D => {
                let mode = AbsoluteIndexedX;
                self.and(&mode, memory)
            },
            0x3E => {
                let mode = AbsoluteIndexedX;
                self.rol(&mode, memory)
            },
            0x3F => {
                let mode = AbsoluteLongIndexedX;
                self.and(&mode, memory)
            },
            _ => Err(Fault::UnknownOpcode { opcode }),
        }
    }
    /// Dispatches the opcodes 0x40..=0x7F of the fixed 256-entry table.
    fn dispatch_q1(&mut self, opcode: u8, memory: &mut Memory) -> (r: Result<(), Fault>)
        requires
            old(memory).wf(),
            0x40 <= opcode < 0x80,
        ensures
            final(memory).wf(),
            (r, *final(self), final(memory)@) == spec_dispatch(opcode, *old(self), old(memory)@),
    {
        proof {
            reveal(spec_dispatch);
        }
        match opcode {
            0x40 => {
                let mode = StackRTI;
                self.rti(&mode, memory)
            },
            0x41 => {
                let mode = DirectPageIndexedIndirectX;
                self.eor(&mode, memory)
            },
            0x42 => self.wdm(),
            0x43 => {
                let mode = StackRelative;
                self.eor(&mode, memory)
            },
            0x44 => {
                let mode = BlockMove;
                self.mvp(&mode, memory)
            },
            0x45 => {
                let mode = DirectPage;
                self.eor(&mode, memory)
            },
            0x46 => {
                let mode = DirectPage;
                self.lsr(&mode, memory)
            },
            0x47 => {
                let mode = DirectPageIndirectLong;
                self.eor(&mode, memory)
            },
            0x48 => {
                let mode = StackPush;
                self.pha(&mode, memory)
            },
            0x49 => {
                let mode = Immediate;
                self.eor(&mode, memory)
            },
            0x4A => {
                let mode = Accumulator;
                self.lsr(&mode, memory)
            },
            0x4B => {
                let mode = StackPush;
                self.phk(&mode, memory)
            },
            0x4C => {
                let mode = Absolute { instruction_type: InstructionType::ControlTransfer };
                self.jmp(&mode, memory)
            },
            0x4D => {
                let mode = Absolute { instruction_type: InstructionType::LocatingData };
                self.eor(&mode, memory)
            },
            0x4E => {
                let mode = Absolute { instruction_type: InstructionType::LocatingData };
                self.lsr(&mode, memory)
            },
            0x4F => {
                let mode = AbsoluteLong { instruction_type: InstructionType::LocatingData };
                self.eor(&mode, memory)
            },
            0x50 => {
                let mode = ProgramCounterRelative;
                self.bvc(&mode, memory)
            },
            0x51 => {
                let mode = DirectPageIndirectIndexedY;
                self.eor(&mode, memory)
            },
            0x52 => {
                let mode = DirectPageIndirect;
                self.eor(&mode, memory)
            },
            0x53 => {
                let mode = StackRelativeIndirectIndexedY;
                self.eor(&mode, memory)
            },
            0x54 => {
                let mode = BlockMove;
                self.mvn(&mode, memory)
            },
            0x55 => {
                let mode = DirectPageIndexedX;
                self.eor(&mode, memory)
            },
            0x56 => {
                let mode = DirectPageIndexedX;
                self.lsr(&mode, memory)
            },
            0x57 => {
                let mode = DirectPageIndirectLongIndexedY;
                self.eor(&mode, memory)
            },
            0x58 => self.cli(),
            0x59 => {
                let mode = AbsoluteIndexedY;
                self.eor(&mode, memory)
            },
            0x5A => {
                let mode = StackPush;
                self.phy(&mode, memory)
            },
            0x5B => {
                self.tcd();
                Ok(())
            },
            0x5C => {
                let mode = AbsoluteLong { instruction_type: InstructionType::ControlTransfer };
                self.jmp(&mode, memory)
            },
            0x5D => {
                let mode = AbsoluteIndexedX;
                self.eor(&mode, memory)
            },
            0x5E => {
                let mode = AbsoluteIndexedX;
                self.lsr(&mode, memory)
            },
            0x5F => {
                let mode = AbsoluteLongIndexedX;
                self.eor(&mode, memory)
            },
            0x60 => {
                let mode = StackRTS;
                self.rts(&mode, memory)
            },
            0x61 => {
                let mode = DirectPageIndexedIndirectX;
                self.adc(&mode, memory)
            },
            0x62 => {
                let mode = StackProgramCounterRelative;
                self.per(&mode, memory)
            },
            0x63 => {
                let mode = StackRelative;
                self.adc(&mode, memory)
            },
            0x64 => {
                let mode = DirectPage;
                self.stz(&mode, memory)
            },
            0x65 => {
                let mode = DirectPage;
                self.adc(&mode, memory)
            },
            0x66 => {
                let mode = DirectPage;
                self.ror(&mode, memory)
            },
            0x67 => {
                let mode = DirectPageIndirectLong;
                self.adc(&mode, memory)
            },
            0x68 => {
                let mode = StackPull;
                self.pla(&mode, memory)
            },
            0x69 => {
                let mode = Immediate;
                self.adc(&mode, memory)
            },
            0x6A => {
                let mode = Accumulator;
                self.ror(&mode, memory)
            },
            0x6B => {
                let mode = StackRTL;
                self.rtl(&mode, memory)
            },
            0x6C => {
                let mode = AbsoluteIndirect;
                self.jmp(&mode, memory)
            },
            0x6D => {
                let mode = Absolute { instruction_type: InstructionType::LocatingData };
                self.adc(&mode, memory)
            },
            0x6E => {
                let mode = Absolute { instruction_type: InstructionType::LocatingData };
                self.ror(&mode, memory)
            },
            0x6F => {
                let mode = AbsoluteLong { instruction_type: InstructionType::LocatingData };
                self.adc(&mode, memory)
            },
            0x70 => {
                let mode = ProgramCounterRelative;
                self.bvs(&mode, memory)
            },
            0x71 => {
                let mode = DirectPageIndirectIndexedY;
                self.adc(&mode, memory)
            },
            0x72 => {
                let mode = DirectPageIndirect;
                self.adc(&mode, memory)
            },
            0x73 => {
                let mode = StackRelativeIndirectIndexedY;
                self.adc(&mode, memory)
            },
            0x74 => {
                let mode = StackRelativeIndirectIndexedY;
                self.stz(&mode, memory)
            },
            0x75 => {
                let mode = DirectPageIndexedX;
                self.adc(&mode, memory)
            },
            0x76 => {
                let mode = DirectPageIndexedX;
                self.ror(&mode, memory)
            },
            0x77 => {
                let mode = DirectPageIndirectLongIndexedY;
                self.adc(&mode, memory)
            },
            0x78 => {
                self.sei();
                Ok(())
            },
            0x79 => {
                let mode = AbsoluteIndexedY;
                self.adc(&mode, memory)
            },
            0x7A => {
                let mode = StackPull;
                self.ply(&mode, memory)
            },
            0x7B => {
                self.tdc();
                Ok(())
            },
            0x7C => {
                let mode = AbsoluteIndexedIndirect;
                self.jmp(&mode, memory)
            },
            0x7D => {
                let mode = AbsoluteIndexedX;
                self.adc(&mode, memory)
            },
            0x7E => {
                let mode = AbsoluteIndexedX;
                self.ror(&mode, memory)
            },
            0x7F => {
                let mode = AbsoluteLongIndexedX;
                self.adc(&mode, memory)
            },
            _ => Err(Fault::UnknownOpcode { opcode }),
        }
    }
    /// Dispatches the opcodes 0x80..=0xBF of the fixed 256-entry table.
    fn dispatch_q2(&mut self, opcode: u8, memory: &mut Memory) -> (r: Result<(), Fault>)
        requires
            old(memory).wf(),
            0x80 <= opcode < 0xC0,
        ensures
            final(memory).wf(),
            (r, *final(self), final(memory)@) == spec_dispatch(opcode, *old(self), old(memory)@),
    {
        proof {
            reveal(spec_dispatch);
        }
        match opcode {
            0x80 => {
                let mode = ProgramCounterRelative;
                self.bra(&mode, memory)
            },
            0x81 => {
                let mode = DirectPageIndexedIndirectX;
                self.sta(&mode, memory)
            },
            0x82 => {
                let mode = ProgramCounterRelativeLong;
                self.brl(&mode, memory)
            },
            0x83 => {
                let mode = StackRelative;
                self.sta(&mode, memory)
            },
            0x84 => {
                let mode = DirectPage;
                self.sty(&mode, memory)
            },
            0x85 => {
                let mode = DirectPage;
                self.sta(&mode, memory)
            },
            0x86 => {
                let mode = DirectPage;
                self.stx(&mode, memory)
            },
            0x87 => {
                let mode = DirectPageIndirectLong;
                self.sta(&mode, memory)
            },
            0x88 => self.dey(),
            0x89 => {
                let mode = Immediate;
                self.bit(&mode, memory)
            },
            0x8A => self.txa(),
            0x8B => {
                let mode = StackPush;
                self.phb(&mode, memory)
            },
            0x8C => {
                let mode = Absolute { instruction_type: InstructionType::LocatingData };
                self.sty(&mode, memory)
            },
            0x8D => {
                let mode = Absolute { instruction_type: InstructionType::LocatingData };
                self.sta(&mode, memory)
            },
            0x8E => {
                let mode = Absolute { instruction_type: InstructionType::LocatingData };
                self.stx(&mode, memory)
            },
            0x8F => {
                let mode = AbsoluteLong { instruction_type: InstructionType::LocatingData };
                self.sta(&mode, memory)
            },
            0x90 => {
                let mode = ProgramCounterRelative;
                self.bcc(&mode, memory)
            },
            0x91 => {
                let mode = DirectPageIndirectIndexedY;
                self.sta(&mode, memory)
            },
            0x92 => {
                let mode = DirectPageIndirect;
                self.sta(&mode, memory)
            },
            0x93 => {
                let mode = StackRelativeIndirectIndexedY;
                self.sta(&mode, memory)
            },
            0x94 => {
                let mode = DirectPageIndexedX;
                self.sty(&mode, memory)
            },
            0x95 => {
                let mode = DirectPageIndexedX;
                self.sta(&mode, memory)
            },
            0x96 => {
                let mode = DirectPageIndexedY;
                self.stx(&mode, memory)
            },
            0x97 => {
                let mode = DirectPageIndirectLongIndexedY;
                self.sta(&mode, memory)
            },
            0x98 => self.tya(),
            0x99 => {
                let mode = AbsoluteIndexedY;
                self.sta(&mode, memory)
            },
            0x9A => {
                self.txs();
                Ok(())
            },
            0x9B => self.txy(),
            0x9C => {
                let mode = Absolute { instruction_type: InstructionType::LocatingData };
                self.stz(&mode, memory)
            },
            0x9D => {
                let mode = AbsoluteIndexedX;
                self.sta(&mode, memory)
            },
            0x9E => {
                let mode = AbsoluteIndexedX;
                self.stz(&mode, memory)
            },
            0x9F => {
                let mode = AbsoluteLongIndexedX;
                self.sta(&mode, memory)
            },
            0xA0 => {
                let mode = Immediate;
                self.ldy(&mode, memory)
            },
            0xA1 => {
                let mode = DirectPageIndexedIndirectX;
                self.lda(&mode, memory)
            },
            0xA2 => {
                let mode = Immediate;
                self.ldx(&mode, memory)
            },
            0xA3 => {
                let mode = StackRelative;
                self.lda(&mode, memory)
            },
            0xA4 => {
                let mode = DirectPage;
                self.ldy(&mode, memory)
            },
            0xA5 => {
                let mode = DirectPage;
                self.lda(&mode, memory)
            },
            0xA6 => {
                let mode = DirectPage;
                self.ldx(&mode, memory)
            },
            0xA7 => {
                let mode = DirectPageIndirectLong;
                self.lda(&mode, memory)
            },
            0xA8 => self.tay(),
            0xA9 => {
                let mode = Immediate;
                self.lda(&mode, memory)
            },
            0xAA => {
                self.tax();
                Ok(())
            },
            0xAB => {
                let mode = StackPull;
                self.plb(&mode, memory)
            },
            0xAC => {
                let mode = Absolute { instruction_type: InstructionType::LocatingData };
                self.ldy(&mode, memory)
            },
            0xAD => {
                let mode = Absolute { instruction_type: InstructionType::LocatingData };
                self.lda(&mode, memory)
            },
            0xAE => {
                let mode = Absolute { instruction_type: InstructionType::LocatingData };
                self.ldx(&mode, memory)
            },
            0xAF => {
                let mode = AbsoluteLong { instruction_type: InstructionType::LocatingData };
                self.lda(&mode, memory)
            },
            0xB0 => {
                let mode = ProgramCounterRelative;
                self.bcs(&mode, memory)
            },
            0xB1 => {
                let mode = DirectPageIndirectIndexedY;
                self.lda(&mode, memory)
            },
            0xB2 => {
                let mode = DirectPageIndirect;
                self.lda(&mode, memory)
            },
            0xB3 => {
                let mode = StackRelativeIndirectIndexedY;
                self.lda(&mode, memory)
            },
            0xB4 => {
                let mode = DirectPageIndexedX;
                self.ldy(&mode, memory)
            },
            0xB5 => {
                let mode = DirectPageIndexedX;
                self.lda(&mode, memory)
            },
            0xB6 => {
                let mode = DirectPageIndexedY;
                self.ldx(&mode, memory)
            },
            0xB7 => {
                let mode = DirectPageIndirectLongIndexedY;
                self.lda(&mode, memory)
            },
            0xB8 => self.clv(),
            0xB9 => {
                let mode = AbsoluteIndexedY;
                self.lda(&mode, memory)
            },
            0xBA => self.tsx(),
            0xBB => self.tyx(),
            0xBC => {
                let mode = AbsoluteIndexedX;
                self.ldy(&mode, memory)
            },
            0xBD => {
                let mode = AbsoluteIndexedX;
                self.lda(&mode, memory)
            },
            0xBE => {
                let mode = AbsoluteIndexedY;
                self.ldx(&mode, memory)
            },
            0xBF => {
                let mode = AbsoluteLongIndexedX;
                self.lda(&mode, memory)
            },
            _ => Err(Fault::UnknownOpcode { opcode }),
        }
    }
    /// Dispatches the opcodes 0xC0..=0xFF of the fixed 256-entry table.
    fn dispatch_q3(&mut self, opcode: u8, memory: &mut Memory) -> (r: Result<(), Fault>)
        requires
            old(memory).wf(),
            0xC0 <= opcode,
        ensures
            final(memory).wf(),
            (r, *final(self), final(memory)@) == spec_dispatch(opcode, *old(self), old(memory)@),
    {
        proof {
            reveal(spec_dispatch);
        }
        match opcode {
            0xC0 => {
                let mode = Immediate;
                self.cpy(&mode, memory)
            },
            0xC1 => {
                let mode = DirectPageIndexedIndirectX;
                self.cmp(&mode, memory)
            },
            0xC2 => {
                let mode = Immediate;
                self.rep(&mode, memory)
            },
            0xC3 => {
                let mode = StackRelative;
                self.cmp(&mode, memory)
            },
            0xC4 => {
                let mode = DirectPage;
                self.cpy(&mode, memory)
            },
            0xC5 => {
                let mode = DirectPage;
                self.cmp(&mode, memory)
            },
            0xC6 => {
                let mode = DirectPage;
                self.dec(&mode, memory)
            },
            0xC7 => {
                let mode = DirectPageIndirectLong;
                self.cmp(&mode, memory)
            },
            0xC8 => {
                self.iny();
                Ok(())
            },
            0xC9 => {
                let mode = Immediate;
                self.cmp(&mode, memory)
            },
            0xCA => {
                self.dex();
                Ok(())
            },
            0xCB => self.wai(),
            0xCC => {
                let mode = Absolute { instruction_type: InstructionType::LocatingData };
                self.cpy(&mode, memory)
            },
            0xCD => {
                let mode = Absolute { instruction_type: InstructionType::LocatingData };
                self.cmp(&mode, memory)
            },
            0xCE => {
                let mode = Absolute { instruction_type: InstructionType::LocatingData };
                self.dec(&mode, memory)
            },
            0xCF => {
                let mode = AbsoluteLong { instruction_type: InstructionType::LocatingData };
                self.cmp(&mode, memory)
            },
            0xD0 => {
                let mode = ProgramCounterRelative;
                self.bne(&mode, memory)
            },
            0xD1 => {
                let mode = DirectPageIndirectIndexedY;
                self.cmp(&mode, memory)
            },
            0xD2 => {
                let mode = DirectPageIndirect;
                self.cmp(&mode, memory)
            },
            0xD3 => {
                let mode = StackRelativeIndirectIndexedY;
                self.cmp(&mode, memory)
            },
            0xD4 => {
                let mode = StackDirectPageIndirect;
                self.pei(&mode, memory)
            },
            0xD5 => {
                let mode = DirectPageIndexedX;
                self.cmp(&mode, memory)
            },
            0xD6 => {
                let mode = DirectPageIndexedX;
                self.dec(&mode, memory)
            },
            0xD7 => {
                let mode = DirectPageIndirectLongIndexedY;
                self.cmp(&mode, memory)
            },
            0xD8 => self.cld(),
            0xD9 => {
                let mode = AbsoluteIndexedY;
                self.cmp(&mode, memory)
            },
            0xDA => {
                let mode = StackPush;
                self.phx(&mode, memory)
            },
            0xDB => self.stp(),
            0xDC => {
                let mode = AbsoluteIndirectLong;
                self.jmp(&mode, memory)
            },
            0xDD => {
                let mode = AbsoluteIndexedX;
                self.cmp(&mode, memory)
            },
            0xDE => {
                let mode = AbsoluteIndexedX;
                self.dec(&mode, memory)
            },
            0xDF => {
                let mode = AbsoluteLongIndexedX;
                self.cmp(&mode, memory)
            },
            0xE0 => {
                let mode = Immediate;
                self.cpx(&mode, memory)
            },
            0xE1 => {
                let mode = DirectPageIndexedIndirectX;
                self.sbc(&mode, memory)
            },
            0xE2 => {
                let mode = Immediate;
                self.sep(&mode, memory)
            },
            0xE3 => {
                let mode = DirectPage;
                self.sbc(&mode, memory)
            },
            0xE4 => {
                let mode = DirectPage;
                self.cpx(&mode, memory)
            },
            0xE5 => {
                let mode = DirectPage;
                self.sbc(&mode, memory)
            },
            0xE6 => {
                let mode = DirectPage;
                self.inc(&mode, memory)
            },
            0xE7 => {
                let mode = DirectPageIndirectLong;
                self.sbc(&mode, memory)
            },
            0xE8 => self.inx(),
            0xE9 => {
                let mode = Immediate;
                self.sbc(&mode, memory)
            },
            0xEA => self.nop(),
            0xEB => {
                self.xba();
                Ok(())
            },
            0xEC => {
                let mode = Absolute { instruction_type: InstructionType::LocatingData };
                self.cpx(&mode, memory)
            },
            0xED => {
                let mode = Absolute { instruction_type: InstructionType::LocatingData };
                self.sbc(&mode, memory)
            },
            0xEE => {
                let mode = Absolute { instruction_type: InstructionType::LocatingData };
                self.inc(&mode, memory)
            },
            0xEF => {
                let mode = AbsoluteLong { instruction_type: InstructionType::LocatingData };
                self.sbc(&mode, memory)
            },
            0xF0 => {
                let mode = ProgramCounterRelative;
                self.beq(&mode, memory)
            },
            0xF1 => {
                let mode = DirectPageIndirectIndexedY;
                self.sbc(&mode, memory)
            },
            0xF2 => {
                let mode = DirectPageIndirect;
                self.sbc(&mode, memory)
            },
            0xF3 => {
                let mode = StackRelativeIndirectIndexedY;
                self.sbc(&mode, memory)
            },
            0xF4 => {
                let mode = StackAbsolute;
                self.pea(&mode, memory)
            },
            0xF5 => {
                let mode = DirectPageIndexedX;
                self.sbc(&mode, memory)
            },
            0xF6 => {
                let mode = DirectPageIndexedX;
                self.inc(&mode, memory)
            },
            0xF7 => {
                let mode = DirectPageIndirectLongIndexedY;
                self.sbc(&mode, memory)
            },
            0xF8 => self.sed(),
            0xF9 => {
                let mode = AbsoluteIndexedY;
                self.sbc(&mode, memory)
            },
            0xFA => {
                let mode = StackPull;
                self.plx(&mode, memory)
            },
            0xFB => {
                self.xce();
                Ok(())
            },
            0xFC => {
                let mode = AbsoluteIndexedIndirect;
                self.jsr(&mode, memory, false)
            },
            0xFD => {
                let mode = AbsoluteIndexedX;
                self.sbc(&mode, memory)
            },
            0xFE => {
                let mode = AbsoluteIndexedX;
                self.inc(&mode, memory)
            },
            0xFF => {
                let mode = AbsoluteLongIndexedX;
                self.sbc(&mode, memory)
            },
            _ => Err(Fault::UnknownOpcode { opcode }),
        }
    }

    /// Dispatches one opcode byte through the fixed 256-entry table to its
    /// (addressing mode, handler) pair.
    fn dispatch(&mut self, opcode: u8, memory: &mut Memory) -> (r: Result<(), Fault>)
        requires
            old(memory).wf(),
        ensures
            final(memory).wf(),
            (r, *final(self), final(memory)@) == spec_dispatch(opcode, *old(self), old(memory)@),
    {
        if opcode < 0x40 {
            self.dispatch_q0(opcode, memory)
        } else if opcode < 0x80 {
            self.dispatch_q1(opcode, memory)
        } else if opcode < 0xC0 {
            self.dispatch_q2(opcode, memory)
        } else {
            self.dispatch_q3(opcode, memory)
        }
    }

    /// Fetches, decodes and retires exactly one instruction, or reports the
    /// fault that stopped it.
    fn run_instruction(&mut self, memory: &mut Memory) -> (r: Result<(), Fault>)
        requires
            old(memory).wf(),
        ensures
            final(memory).wf(),
            (r, *final(self), final(memory)@) == spec_step(*old(self), old(memory)@),
    {
        let opcode = match memory.get_byte(pc_addr(self)) {
            Ok(b) => b,
            Err(f) => {
                return Err(f);
            },
        };
        self.program_counter = self.program_counter.wrapping_add(1);
        self.dispatch(opcode, memory)
    }

    /// Executes exactly one instruction against the borrowed bus; the bus
    /// is yielded back when the call returns.
    pub fn run(&mut self, memory: &mut Memory) -> (r: Result<(), Fault>)
        requires
            old(memory).wf(),
        ensures
            final(memory).wf(),
            (r, *final(self), final(memory)@) == spec_step(*old(self), old(memory)@),
    {
        self.run_instruction(memory)
    }

    /// Executes `n` instructions in sequence, stopping at the first fault;
    /// for test harnesses and hosts.
    pub fn execute(&mut self, n: usize, memory: &mut Memory) -> (r: Result<(), Fault>)
        requires
            old(memory).wf(),
        ensures
            final(memory).wf(),
            (r, *final(self), final(memory)@) == spec_execute(n as nat, *old(self), old(memory)@),
    {
        let mut i: usize = 0;
        while i < n
            invariant
                memory.wf(),
                i <= n,
                spec_execute(n as nat, *old(self), old(memory)@) == spec_execute(
                    (n - i) as nat,
                    *self,
                    memory@,
                ),
            decreases n - i,
        {
            let ghost pre = (*self, memory@);
            match self.run_instruction(memory) {
                Ok(_) => {},
                Err(f) => {
                    proof {
                        assert(spec_execute((n - i) as nat, pre.0, pre.1) == (
                            Err::<(), Fault>(f),
                            *self,
                            memory@,
                        ));
                    }
                    return Err(f);
                },
            }
            i = i + 1;
        }
        Ok(())
    }
}

/// What the decoded instruction at opcode `op` does to the machine: one
/// arm per table entry, each the corresponding handler's specification
/// bound to its addressing mode.
#[verifier::opaque]
pub open spec fn spec_dispatch(op: u8, c: CPU, m: MemView) -> (Result<(), Fault>, CPU, MemView) {
    match op {
        0x00 => spec_brk_apply(StackPush, c, m),
        0x01 => spec_ora_apply(DirectPageIndexedIndirectX, c, m),
        0x02 => (Err(Fault::UnknownOpcode { opcode: op }), c, m),
        0x03 => spec_ora_apply(StackRelative, c, m),
        0x04 => spec_stub(c, m, Mnemonic::Tsb),
        0x05 => spec_ora_apply(DirectPage, c, m),
        0x06 => spec_stub(c, m, Mnemonic::Asl),
        0x07 => spec_ora_apply(DirectPageIndirectLong, c, m),
        0x08 => spec_push_apply(StackPush, c, m, true, spec_status_byte(c.processor_status) as u32),
        0x09 => spec_ora_apply(Immediate, c, m),
        0x0A => spec_stub(c, m, Mnemonic::Asl),
        0x0B => spec_push_apply(StackPush, c, m, false, c.direct_page as u32),
        0x0C => spec_stub(c, m, Mnemonic::Tsb),
        0x0D => spec_ora_apply(Absolute { instruction_type: InstructionType::LocatingData }, c, m),
        0x0E => spec_stub(c, m, Mnemonic::Asl),
        0x0F => spec_ora_apply(AbsoluteLong { instruction_type: InstructionType::LocatingData }, c, m),
        0x10 => spec_branch_apply(ProgramCounterRelative, c, m, !c.processor_status.negative),
        0x11 => spec_ora_apply(DirectPageIndirectIndexedY, c, m),
        0x12 => spec_ora_apply(DirectPageIndirect, c, m),
        0x13 => spec_ora_apply(StackRelativeIndirectIndexedY, c, m),
        0x14 => spec_stub(c, m, Mnemonic::Trb),
        0x15 => spec_ora_apply(DirectPageIndexedX, c, m),
        0x16 => spec_stub(c, m, Mnemonic::Asl),
        0x17 => spec_ora_apply(DirectPageIndirectLongIndexedY, c, m),
        0x18 => (Ok(()), spec_clc(c), m),
        0x19 => spec_ora_apply(AbsoluteIndexedY, c, m),
        0x1A => spec_inc_apply(Accumulator, c, m),
        0x1B => (Err(Fault::UnimplementedInstruction { which: Mnemonic::Tcs }), c, m),
        0x1C => spec_stub(c, m, Mnemonic::Trb),
        0x1D => spec_ora_apply(AbsoluteIndexedX, c, m),
        0x1E => spec_stub(c, m, Mnemonic::Asl),
        0x1F => spec_ora_apply(AbsoluteLongIndexedX, c, m),
        0x20 => spec_jsr_apply(Absolute { instruction_type: InstructionType::ControlTransfer }, c, m, false),
        0x21 => spec_stub(c, m, Mnemonic::And),
        0x22 => spec_jsr_apply(AbsoluteLong { instruction_type: InstructionType::ControlTransfer }, c, m, true),
        0x23 => spec_stub(c, m, Mnemonic::And),
        0x24 => spec_stub(c, m, Mnemonic::Bit),
        0x25 => spec_stub(c, m, Mnemonic::And),
        0x26 => spec_stub(c, m, Mnemonic::Rol),
        0x27 => spec_stub(c, m, Mnemonic::And),
        0x28 => spec_stub(c, m, Mnemonic::Plp),
        0x29 => spec_stub(c, m, Mnemonic::And),
        0x2A => spec_stub(c, m, Mnemonic::Rol),
        0x2B => spec_pld_apply(StackPull, c, m),
        0x2C => spec_stub(c, m, Mnemonic::Bit),
        0x2D => spec_stub(c, m, Mnemonic::And),
        0x2E => spec_stub(c, m, Mnemonic::Rol),
        0x2F => spec_stub(c, m, Mnemonic::And),
        0x30 => spec_stub(c, m, Mnemonic::Bmi),
        0x31 => spec_stub(c, m, Mnemonic::And),
        0x32 => spec_stub(c, m, Mnemonic::And),
        0x33 => spec_stub(c, m, Mnemonic::And),
        0x34 => spec_stub(c, m, Mnemonic::Bit),
        0x35 => spec_stub(c, m, Mnemonic::And),
        0x36 => spec_stub(c, m, Mnemonic::Rol),
        0x37 => spec_stub(c, m, Mnemonic::And),
        0x38 => (Err(Fault::UnimplementedInstruction { which: Mnemonic::Sec }), c, m),
        0x39 => spec_stub(c, m, Mnemonic::And),
        0x3A => spec_stub(c, m, Mnemonic::Dec),
        0x3B => (Err(Fault::UnimplementedInstruction { which: Mnemonic::Tsc }), c, m),
        0x3C => spec_stub(c, m, Mnemonic::Bit),
        0x3D => spec_stub(c, m, Mnemonic::And),
        0x3E => spec_stub(c, m, Mnemonic::Rol),
        0x3F => spec_stub(c, m, Mnemonic::And),
        0x40 => spec_stub(c, m, Mnemonic::Rti),
        0x41 => spec_stub(c, m, Mnemonic::Eor),
        0x42 => (Err(Fault::UnimplementedInstruction { which: Mnemonic::Wdm }), c, m),
        0x43 => spec_stub(c, m, Mnemonic::Eor),
        0x44 => spec_stub(c, m, Mnemonic::Mvp),
        0x45 => spec_stub(c, m, Mnemonic::Eor),
        0x46 => spec_stub(c, m, Mnemonic::Lsr),
        0x47 => spec_stub(c, m, Mnemonic::Eor),
        0x48 => spec_push_apply(StackPush, c, m, c.spec_acc_is_byte(), c.accumulator as u32),
        0x49 => spec_stub(c, m, Mnemonic::Eor),
        0x4A => spec_stub(c, m, Mnemonic::Lsr),
        0x4B => spec_push_apply(StackPush, c, m, true, c.program_bank as u32),
        0x4C => spec_jmp_apply(Absolute { instruction_type: InstructionType::ControlTransfer }, c, m),
        0x4D => spec_stub(c, m, Mnemonic::Eor),
        0x4E => spec_stub(c, m, Mnemonic::Lsr),
        0x4F => spec_stub(c, m, Mnemonic::Eor),
        0x50 => spec_stub(c, m, Mnemonic::Bvc),
        0x51 => spec_stub(c, m, Mnemonic::Eor),
        0x52 => spec_stub(c, m, Mnemonic::Eor),
        0x53 => spec_stub(c, m, Mnemonic::Eor),
        0x54 => spec_stub(c, m, Mnemonic::Mvn),
        0x55 => spec_stub(c, m, Mnemonic::Eor),
        0x56 => spec_stub(c, m, Mnemonic::Lsr),
        0x57 => spec_stub(c, m, Mnemonic::Eor),
        0x58 => (Err(Fault::UnimplementedInstruction { which: Mnemonic::Cli }), c, m),
        0x59 => spec_stub(c, m, Mnemonic::Eor),
        0x5A => spec_push_apply(StackPush, c, m, c.spec_idx_is_byte(), c.index_y as u32),
        0x5B => (Ok(()), spec_tcd(c), m),
        0x5C => spec_jmp_apply(AbsoluteLong { instruction_type: InstructionType::ControlTransfer }, c, m),
        0x5D => spec_stub(c, m, Mnemonic::Eor),
        0x5E => spec_stub(c, m, Mnemonic::Lsr),
        0x5F => spec_stub(c, m, Mnemonic::Eor),
        0x60 => spec_rts_apply(StackRTS, c, m),
        0x61 => spec_adc_apply(DirectPageIndexedIndirectX, c, m),
        0x62 => spec_stub(c, m, Mnemonic::Per),
        0x63 => spec_adc_apply(StackRelative, c, m),
        0x64 => spec_store_apply(DirectPage, c, m, c.spec_acc_is_byte(), 0),
        0x65 => spec_adc_apply(DirectPage, c, m),
        0x66 => spec_stub(c, m, Mnemonic::Ror),
        0x67 => spec_adc_apply(DirectPageIndirectLong, c, m),
        0x68 => spec_stub(c, m, Mnemonic::Pla),
        0x69 => spec_adc_apply(Immediate, c, m),
        0x6A => spec_stub(c, m, Mnemonic::Ror),
        0x6B => spec_stub(c, m, Mnemonic::Rtl),
        0x6C => spec_jmp_apply(AbsoluteIndirect, c, m),
        0x6D => spec_adc_apply(Absolute { instruction_type: InstructionType::LocatingData }, c, m),
        0x6E => spec_stub(c, m, Mnemonic::Ror),
        0x6F => spec_adc_apply(AbsoluteLong { instruction_type: InstructionType::LocatingData }, c, m),
        0x70 => spec_stub(c, m, Mnemonic::Bvs),
        0x71 => spec_adc_apply(DirectPageIndirectIndexedY, c, m),
        0x72 => spec_adc_apply(DirectPageIndirect, c, m),
        0x73 => spec_adc_apply(StackRelativeIndirectIndexedY, c, m),
        0x74 => spec_store_apply(StackRelativeIndirectIndexedY, c, m, c.spec_acc_is_byte(), 0),
        0x75 => spec_adc_apply(DirectPageIndexedX, c, m),
        0x76 => spec_stub(c, m, Mnemonic::Ror),
        0x77 => spec_adc_apply(DirectPageIndirectLongIndexedY, c, m),
        0x78 => (Ok(()), spec_sei(c), m),
        0x79 => spec_adc_apply(AbsoluteIndexedY, c, m),
        0x7A => spec_stub(c, m, Mnemonic::Ply),
        0x7B => (Ok(()), spec_tdc(c), m),
        0x7C => spec_jmp_apply(AbsoluteIndexedIndirect, c, m),
        0x7D => spec_adc_apply(AbsoluteIndexedX, c, m),
        0x7E => spec_stub(c, m, Mnemonic::Ror),
        0x7F => spec_adc_apply(AbsoluteLongIndexedX, c, m),
        0x80 => spec_stub(c, m, Mnemonic::Bra),
        0x81 => spec_store_apply(DirectPageIndexedIndirectX, c, m, c.spec_acc_is_byte(), c.accumulator as u32),
        0x82 => spec_stub(c, m, Mnemonic::Brl),
        0x83 => spec_store_apply(StackRelative, c, m, c.spec_acc_is_byte(), c.accumulator as u32),
        0x84 => spec_store_apply(DirectPage, c, m, c.spec_idx_is_byte(), c.index_y as u32),
        0x85 => spec_store_apply(DirectPage, c, m, c.spec_acc_is_byte(), c.accumulator as u32),
        0x86 => spec_store_apply(DirectPage, c, m, c.spec_idx_is_byte(), c.index_x as u32),
        0x87 => spec_store_apply(DirectPageIndirectLong, c, m, c.spec_acc_is_byte(), c.accumulator as u32),
        0x88 => (Err(Fault::UnimplementedInstruction { which: Mnemonic::Dey }), c, m),
        0x89 => spec_stub(c, m, Mnemonic::Bit),
        0x8A => (Err(Fault::UnimplementedInstruction { which: Mnemonic::Txa }), c, m),
        0x8B => spec_push_apply(StackPush, c, m, true, c.data_bank as u32),
        0x8C => spec_store_apply(Absolute { instruction_type: InstructionType::LocatingData }, c, m, c.spec_idx_is_byte(), c.index_y as u32),
        0x8D => spec_store_apply(Absolute { instruction_type: InstructionType::LocatingData }, c, m, c.spec_acc_is_byte(), c.accumulator as u32),
        0x8E => spec_store_apply(Absolute { instruction_type: InstructionType::LocatingData }, c, m, c.spec_idx_is_byte(), c.index_x as u32),
        0x8F => spec_store_apply(AbsoluteLong { instruction_type: InstructionType::LocatingData }, c, m, c.spec_acc_is_byte(), c.accumulator as u32),
        0x90 => spec_stub(c, m, Mnemonic::Bcc),
        0x91 => spec_store_apply(DirectPageIndirectIndexedY, c, m, c.spec_acc_is_byte(), c.accumulator as u32),
        0x92 => spec_store_apply(DirectPageIndirect, c, m, c.spec_acc_is_byte(), c.accumulator as u32),
        0x93 => spec_store_apply(StackRelativeIndirectIndexedY, c, m, c.spec_acc_is_byte(), c.accumulator as u32),
        0x94 => spec_store_apply(DirectPageIndexedX, c, m, c.spec_idx_is_byte(), c.index_y as u32),
        0x95 => spec_store_apply(DirectPageIndexedX, c, m, c.spec_acc_is_byte(), c.accumulator as u32),
        0x96 => spec_store_apply(DirectPageIndexedY, c, m, c.spec_idx_is_byte(), c.index_x as u32),
        0x97 => spec_store_apply(DirectPageIndirectLongIndexedY, c, m, c.spec_acc_is_byte(), c.accumulator as u32),
        0x98 => (Err(Fault::UnimplementedInstruction { which: Mnemonic::Tya }), c, m),
        0x99 => spec_store_apply(AbsoluteIndexedY, c, m, c.spec_acc_is_byte(), c.accumulator as u32),
        0x9A => (Ok(()), spec_txs(c), m),
        0x9B => (Err(Fault::UnimplementedInstruction { which: Mnemonic::Txy }), c, m),
        0x9C => spec_store_apply(Absolute { instruction_type: InstructionType::LocatingData }, c, m, c.spec_acc_is_byte(), 0),
        0x9D => spec_store_apply(AbsoluteIndexedX, c, m, c.spec_acc_is_byte(), c.accumulator as u32),
        0x9E => spec_store_apply(AbsoluteIndexedX, c, m, c.spec_acc_is_byte(), 0),
        0x9F => spec_store_apply(AbsoluteLongIndexedX, c, m, c.spec_acc_is_byte(), c.accumulator as u32),
        0xA0 => spec_ldy_apply(Immediate, c, m),
        0xA1 => spec_lda_apply(DirectPageIndexedIndirectX, c, m),
        0xA2 => spec_ldx_apply(Immediate, c, m),
        0xA3 => spec_lda_apply(StackRelative, c, m),
        0xA4 => spec_ldy_apply(DirectPage, c, m),
        0xA5 => spec_lda_apply(DirectPage, c, m),
        0xA6 => spec_ldx_apply(DirectPage, c, m),
        0xA7 => spec_lda_apply(DirectPageIndirectLong, c, m),
        0xA8 => (Err(Fault::UnimplementedInstruction { which: Mnemonic::Tay }), c, m),
        0xA9 => spec_lda_apply(Immediate, c, m),
        0xAA => (Ok(()), spec_tax(c), m),
        0xAB => spec_plb_apply(StackPull, c, m),
        0xAC => spec_ldy_apply(Absolute { instruction_type: InstructionType::LocatingData }, c, m),
        0xAD => spec_lda_apply(Absolute { instruction_type: InstructionType::LocatingData }, c, m),
        0xAE => spec_ldx_apply(Absolute { instruction_type: InstructionType::LocatingData }, c, m),
        0xAF => spec_lda_apply(AbsoluteLong { instruction_type: InstructionType::LocatingData }, c, m),
        0xB0 => spec_stub(c, m, Mnemonic::Bcs),
        0xB1 => spec_lda_apply(DirectPageIndirectIndexedY, c, m),
        0xB2 => spec_lda_apply(DirectPageIndirect, c, m),
        0xB3 => spec_lda_apply(StackRelativeIndirectIndexedY, c, m),
        0xB4 => spec_ldy_apply(DirectPageIndexedX, c, m),
        0xB5 => spec_lda_apply(DirectPageIndexedX, c, m),
        0xB6 => spec_ldx_apply(DirectPageIndexedY, c, m),
        0xB7 => spec_lda_apply(DirectPageIndirectLongIndexedY, c, m),
        0xB8 => (Err(Fault::UnimplementedInstruction { which: Mnemonic::Clv }), c, m),
        0xB9 => spec_lda_apply(AbsoluteIndexedY, c, m),
        0xBA => (Err(Fault::UnimplementedInstruction { which: Mnemonic::Tsx }), c, m),
        0xBB => (Err(Fault::UnimplementedInstruction { which: Mnemonic::Tyx }), c, m),
        0xBC => spec_ldy_apply(AbsoluteIndexedX, c, m),
        0xBD => spec_lda_apply(AbsoluteIndexedX, c, m),
        0xBE => spec_ldx_apply(AbsoluteIndexedY, c, m),
        0xBF => spec_lda_apply(AbsoluteLongIndexedX, c, m),
        0xC0 => spec_cpy_apply(Immediate, c, m),
        0xC1 => spec_cmp_apply(DirectPageIndexedIndirectX, c, m),
        0xC2 => spec_repsep_apply(Immediate, c, m, false),
        0xC3 => spec_cmp_apply(StackRelative, c, m),
        0xC4 => spec_cpy_apply(DirectPage, c, m),
        0xC5 => spec_cmp_apply(DirectPage, c, m),
        0xC6 => spec_stub(c, m, Mnemonic::Dec),
        0xC7 => spec_cmp_apply(DirectPageIndirectLong, c, m),
        0xC8 => (Ok(()), spec_iny(c), m),
        0xC9 => spec_cmp_apply(Immediate, c, m),
        0xCA => (Ok(()), spec_dex(c), m),
        0xCB => (Err(Fault::UnimplementedInstruction { which: Mnemonic::Wai }), c, m),
        0xCC => spec_cpy_apply(Absolute { instruction_type: InstructionType::LocatingData }, c, m),
        0xCD => spec_cmp_apply(Absolute { instruction_type: InstructionType::LocatingData }, c, m),
        0xCE => spec_stub(c, m, Mnemonic::Dec),
        0xCF => spec_cmp_apply(AbsoluteLong { instruction_type: InstructionType::LocatingData }, c, m),
        0xD0 => spec_branch_apply(ProgramCounterRelative, c, m, !c.processor_status.zero),
        0xD1 => spec_cmp_apply(DirectPageIndirectIndexedY, c, m),
        0xD2 => spec_cmp_apply(DirectPageIndirect, c, m),
        0xD3 => spec_cmp_apply(StackRelativeIndirectIndexedY, c, m),
        0xD4 => spec_stub(c, m, Mnemonic::Pei),
        0xD5 => spec_cmp_apply(DirectPageIndexedX, c, m),
        0xD6 => spec_stub(c, m, Mnemonic::Dec),
        0xD7 => spec_cmp_apply(DirectPageIndirectLongIndexedY, c, m),
        0xD8 => (Err(Fault::UnimplementedInstruction { which: Mnemonic::Cld }), c, m),
        0xD9 => spec_cmp_apply(AbsoluteIndexedY, c, m),
        0xDA => spec_push_apply(StackPush, c, m, c.spec_idx_is_byte(), c.index_x as u32),
        0xDB => (Err(Fault::UnimplementedInstruction { which: Mnemonic::Stp }), c, m),
        0xDC => spec_jmp_apply(AbsoluteIndirectLong, c, m),
        0xDD => spec_cmp_apply(AbsoluteIndexedX, c, m),
        0xDE => spec_stub(c, m, Mnemonic::Dec),
        0xDF => spec_cmp_apply(AbsoluteLongIndexedX, c, m),
        0xE0 => spec_cpx_apply(Immediate, c, m),
        0xE1 => spec_stub(c, m, Mnemonic::Sbc),
        0xE2 => spec_repsep_apply(Immediate, c, m, true),
        0xE3 => spec_stub(c, m, Mnemonic::Sbc),
        0xE4 => spec_cpx_apply(DirectPage, c, m),
        0xE5 => spec_stub(c, m, Mnemonic::Sbc),
        0xE6 => spec_inc_apply(DirectPage, c, m),
        0xE7 => spec_stub(c, m, Mnemonic::Sbc),
        0xE8 => (Err(Fault::UnimplementedInstruction { which: Mnemonic::Inx }), c, m),
        0xE9 => spec_stub(c, m, Mnemonic::Sbc),
        0xEA => (Err(Fault::UnimplementedInstruction { which: Mnemonic::Nop }), c, m),
        0xEB => (Ok(()), spec_xba(c), m),
        0xEC => spec_cpx_apply(Absolute { instruction_type: InstructionType::LocatingData }, c, m),
        0xED => spec_stub(c, m, Mnemonic::Sbc),
        0xEE => spec_inc_apply(Absolute { instruction_type: InstructionType::LocatingData }, c, m),
        0xEF => spec_stub(c, m, Mnemonic::Sbc),
        0xF0 => spec_stub(c, m, Mnemonic::Beq),
        0xF1 => spec_stub(c, m, Mnemonic::Sbc),
        0xF2 => spec_stub(c, m, Mnemonic::Sbc),
        0xF3 => spec_stub(c, m, Mnemonic::Sbc),
        0xF4 => spec_stub(c, m, Mnemonic::Pea),
        0xF5 => spec_stub(c, m, Mnemonic::Sbc),
        0xF6 => spec_inc_apply(DirectPageIndexedX, c, m),
        0xF7 => spec_stub(c, m, Mnemonic::Sbc),
        0xF8 => (Err(Fault::UnimplementedInstruction { which: Mnemonic::Sed }), c, m),
        0xF9 => spec_stub(c, m, Mnemonic::Sbc),
        0xFA => spec_stub(c, m, Mnemonic::Plx),
        0xFB => (Ok(()), spec_xce(c), m),
        0xFC => spec_jsr_apply(AbsoluteIndexedIndirect, c, m, false),
        0xFD => spec_stub(c, m, Mnemonic::Sbc),
        0xFE => spec_inc_apply(AbsoluteIndexedX, c, m),
        0xFF => spec_stub(c, m, Mnemonic::Sbc),
    }
}

/// One full step: fetch the opcode byte at program_bank:program_counter,
/// advance the counter past it, and apply the decoded instruction.
pub open spec fn spec_step(c: CPU, m: MemView) -> (Result<(), Fault>, CPU, MemView) {
    match spec_get_byte(m, spec_pc_addr(c)) {
        Err(f) => (Err(f), c, m),
        Ok(op) => spec_dispatch(op, CPU { program_counter: wrap16(c.program_counter + 1), ..c }, m),
    }
}

/// What executing `n` instructions in sequence does, stopping at the
/// first fault.
pub open spec fn spec_execute(n: nat, c: CPU, m: MemView) -> (Result<(), Fault>, CPU, MemView)
    decreases n,
{
    if n == 0 {
        (Ok(()), c, m)
    } else {
        let (r, c1, m1) = spec_step(c, m);
        match r {
            Err(f) => (Err(f), c1, m1),
            Ok(_) => spec_execute((n - 1) as nat, c1, m1),
        }
    }
}

} // verus!
