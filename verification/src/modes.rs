//! The addressing resolvers: one variant per addressing mode. Each resolves
//! an instruction's operand location against the current register file and
//! the bus, under a uniform load/store contract, and advances the program
//! counter for exactly the operand bytes it consumes. Multi-byte bus
//! accesses are little-endian compositions of byte accesses, never atomic.

use vstd::prelude::*;
use vstd::wrapping::u32_specs;

use crate::cpu::CPU;
use crate::memory::{Memory, MemView, spec_get_byte, spec_set_byte};
use crate::Fault;

verus! {

/// The 24-bit address of the next opcode-stream byte.
pub open spec fn spec_pc_addr(c: CPU) -> u32 {
    (c.program_bank as int * 0x10000 + c.program_counter as int) as u32
}

/// 16-bit wrapping truncation.
pub open spec fn wrap16(x: int) -> u16 {
    (x % 0x10000) as u16
}

/// The registers with the program counter advanced by `n`, wrapping at 16
/// bits.
pub open spec fn spec_advance_pc(c: CPU, n: int) -> CPU {
    CPU { program_counter: wrap16(c.program_counter + n), ..c }
}

/// A little-endian word read: the byte at `addr` then the byte at
/// `addr + 1`, with the first fault winning.
pub open spec fn spec_read2(m: MemView, addr: u32) -> Result<u16, Fault> {
    match spec_get_byte(m, addr) {
        Err(f) => Err(f),
        Ok(low) => match spec_get_byte(m, u32_specs::wrapping_add(addr, 1)) {
            Err(f) => Err(f),
            Ok(high) => Ok((high as int * 0x100 + low as int) as u16),
        },
    }
}

/// A little-endian three-byte read: low, high, then bank byte.
pub open spec fn spec_read3(m: MemView, addr: u32) -> Result<u32, Fault> {
    match spec_get_byte(m, addr) {
        Err(f) => Err(f),
        Ok(low) => match spec_get_byte(m, u32_specs::wrapping_add(addr, 1)) {
            Err(f) => Err(f),
            Ok(high) => match spec_get_byte(m, u32_specs::wrapping_add(addr, 2)) {
                Err(f) => Err(f),
                Ok(bank) => Ok(
                    (bank as int * 0x10000 + high as int * 0x100 + low as int) as u32,
                ),
            },
        },
    }
}

/// A little-endian word write: low byte at `addr`, high byte at `addr + 1`.
/// When the second write faults, the first one stands; the pair is not
/// atomic.
pub open spec fn spec_write2(m: MemView, addr: u32, data: u16) -> (Result<(), Fault>, MemView) {
    let (r1, m1) = spec_set_byte(m, addr, (data as int % 0x100) as u8);
    match r1 {
        Err(f) => (Err(f), m1),
        Ok(_) => spec_set_byte(m1, u32_specs::wrapping_add(addr, 1), (data as int / 0x100) as u8),
    }
}

/// A little-endian three-byte write: low, high, then bank byte.
pub open spec fn spec_write3(m: MemView, addr: u32, data: u32) -> (Result<(), Fault>, MemView) {
    let (r1, m1) = spec_set_byte(m, addr, (data as int % 0x100) as u8);
    match r1 {
        Err(f) => (Err(f), m1),
        Ok(_) => {
            let (r2, m2) = spec_set_byte(m1, u32_specs::wrapping_add(addr, 1), ((data as int / 0x100) % 0x100) as u8);
            match r2 {
                Err(f) => (Err(f), m2),
                Ok(_) => spec_set_byte(m2, u32_specs::wrapping_add(addr, 2), ((data as int / 0x10000) % 0x100) as u8),
            }
        },
    }
}

/// Reads one byte off the bus.
pub fn load_byte(memory: &Memory, addr: u32) -> (r: Result<u8, Fault>)
    requires
        memory.wf(),
    ensures
        r == spec_get_byte(memory@, addr),
{
    memory.get_byte(addr)
}

/// Reads a little-endian word as two byte reads.
pub fn load_two_bytes(memory: &Memory, addr: u32) -> (r: Result<u16, Fault>)
    requires
        memory.wf(),
    ensures
        r == spec_read2(memory@, addr),
{
    let low = match memory.get_byte(addr) {
        Ok(b) => b,
        Err(f) => {
            return Err(f);
        },
    };
    let high = match memory.get_byte(addr.wrapping_add(1)) {
        Ok(b) => b,
        Err(f) => {
            return Err(f);
        },
    };
    Ok(high as u16 * 0x100 + low as u16)
}

/// Reads a little-endian three-byte address as three byte reads.
pub fn load_three_bytes(memory: &Memory, addr: u32) -> (r: Result<u32, Fault>)
    requires
        memory.wf(),
    ensures
        r == spec_read3(memory@, addr),
{
    let low = match memory.get_byte(addr) {
        Ok(b) => b,
        Err(f) => {
            return Err(f);
        },
    };
    let high = match memory.get_byte(addr.wrapping_add(1)) {
        Ok(b) => b,
        Err(f) => {
            return Err(f);
        },
    };
    let bank = match memory.get_byte(addr.wrapping_add(2)) {
        Ok(b) => b,
        Err(f) => {
            return Err(f);
        },
    };
    Ok(bank as u32 * 0x10000 + high as u32 * 0x100 + low as u32)
}

/// Writes one byte onto the bus.
pub fn store_byte(memory: &mut Memory, addr: u32, data: u8) -> (r: Result<(), Fault>)
    requires
        old(memory).wf(),
    ensures
        final(memory).wf(),
        (r, final(memory)@) == spec_set_byte(old(memory)@, addr, data),
{
    memory.set_byte(addr, data)
}

/// Writes a little-endian word as two byte writes.
pub fn store_two_bytes(memory: &mut Memory, addr: u32, data: u16) -> (r: Result<(), Fault>)
    requires
        old(memory).wf(),
    ensures
        final(memory).wf(),
        (r, final(memory)@) == spec_write2(old(memory)@, addr, data),
{
    let low = (data % 0x100) as u8;
    let high = (data / 0x100) as u8;
    match memory.set_byte(addr, low) {
        Ok(_) => memory.set_byte(addr.wrapping_add(1), high),
        Err(f) => Err(f),
    }
}

/// Writes a little-endian three-byte value as three byte writes.
pub fn store_three_bytes(memory: &mut Memory, addr: u32, data: u32) -> (r: Result<(), Fault>)
    requires
        old(memory).wf(),
    ensures
        final(memory).wf(),
        (r, final(memory)@) == spec_write3(old(memory)@, addr, data),
{
    let low = (data % 0x100) as u8;
    let high = ((data / 0x100) % 0x100) as u8;
    let bank = ((data / 0x10000) % 0x100) as u8;
    match memory.set_byte(addr, low) {
        Ok(_) => match memory.set_byte(addr.wrapping_add(1), high) {
            Ok(_) => memory.set_byte(addr.wrapping_add(2), bank),
            Err(f) => Err(f),
        },
        Err(f) => Err(f),
    }
}

/// The uniform resolver contract. `load` returns the operand's value for
/// data-locating modes and the effective address itself for
/// control-transfer modes; `store` writes through the resolved location.
/// Each resolution advances the program counter for exactly the operand
/// bytes it consumes, captured by the mode's own `load_spec`/`store_spec`.
pub trait Instruction: Sized {
    /// What `load` returns and what it does to the registers.
    spec fn load_spec(&self, cpu: CPU, mem: MemView, is_byte: bool) -> (Result<u32, Fault>, CPU);

    /// What `store` does to the registers and the bus.
    spec fn store_spec(&self, cpu: CPU, mem: MemView, is_byte: bool, data: u32) -> (
        Result<(), Fault>,
        CPU,
        MemView,
    );

    /// Resolves the operand and loads it (or, for control-transfer modes,
    /// returns the effective address).
    fn load(&self, cpu: &mut CPU, memory: &Memory, is_byte: bool) -> (r: Result<u32, Fault>)
        requires
            memory.wf(),
        ensures
            (r, *final(cpu)) == self.load_spec(*old(cpu), memory@, is_byte),
    ;

    /// Resolves the operand location and writes `data` there, truncated to
    /// one byte when `is_byte` is set.
    fn store(&self, cpu: &mut CPU, memory: &mut Memory, is_byte: bool, data: u32) -> (r: Result<
        (),
        Fault,
    >)
        requires
            old(memory).wf(),
        ensures
            final(memory).wf(),
            (r, *final(cpu), final(memory)@) == self.store_spec(
                *old(cpu),
                old(memory)@,
                is_byte,
                data,
            ),
    ;
}

/// Whether a resolver locates data or transfers control: an absolute
/// operand names a data location in `data_bank` for the former and a jump
/// target in `program_bank` for the latter.
#[derive(Clone, Copy, PartialEq, Eq, Structural, Debug)]
pub enum InstructionType {
    LocatingData,
    ControlTransfer,
}

/// The value loaded at `addr` for a data-locating resolver: one byte at
/// byte width, a little-endian word otherwise.
pub open spec fn spec_load_data(m: MemView, addr: u32, is_byte: bool) -> Result<u32, Fault> {
    if is_byte {
        match spec_get_byte(m, addr) {
            Err(f) => Err(f),
            Ok(b) => Ok(b as u32),
        }
    } else {
        match spec_read2(m, addr) {
            Err(f) => Err(f),
            Ok(w) => Ok(w as u32),
        }
    }
}

/// The bus after storing `data` at `addr`: one byte at byte width, a
/// little-endian word otherwise.
pub open spec fn spec_store_data(m: MemView, addr: u32, is_byte: bool, data: u32) -> (
    Result<(), Fault>,
    MemView,
) {
    if is_byte {
        spec_set_byte(m, addr, (data as int % 0x100) as u8)
    } else {
        spec_write2(m, addr, (data as int % 0x10000) as u16)
    }
}

/// Loads one byte or one little-endian word at `addr`, per `is_byte`.
fn load_data(memory: &Memory, addr: u32, is_byte: bool) -> (r: Result<u32, Fault>)
    requires
        memory.wf(),
    ensures
        r == spec_load_data(memory@, addr, is_byte),
{
    if is_byte {
        match memory.get_byte(addr) {
            Ok(b) => Ok(b as u32),
            Err(f) => Err(f),
        }
    } else {
        match load_two_bytes(memory, addr) {
            Ok(w) => Ok(w as u32),
            Err(f) => Err(f),
        }
    }
}

/// Stores one byte or one little-endian word at `addr`, per `is_byte`.
fn store_data(memory: &mut Memory, addr: u32, is_byte: bool, data: u32) -> (r: Result<(), Fault>)
    requires
        old(memory).wf(),
    ensures
        final(memory).wf(),
        (r, final(memory)@) == spec_store_data(old(memory)@, addr, is_byte, data),
{
    if is_byte {
        memory.set_byte(addr, (data % 0x100) as u8)
    } else {
        store_two_bytes(memory, addr, (data % 0x10000) as u16)
    }
}

/// Absolute: the operand word names an offset, taken within `data_bank`
/// when locating data and within `program_bank` when transferring control.
#[derive(Clone, Copy, PartialEq, Eq, Structural, Debug)]
pub struct Absolute {
    pub instruction_type: InstructionType,
}

/// The effective 24-bit address an absolute operand resolves to.
pub open spec fn spec_absolute_addr(itype: InstructionType, c: CPU, operand: u16) -> u32 {
    let bank: int = match itype {
        InstructionType::LocatingData => c.data_bank as int,
        InstructionType::ControlTransfer => c.program_bank as int,
    };
    (bank * 0x10000 + operand as int) as u32
}

impl Instruction for Absolute {
    open spec fn load_spec(&self, cpu: CPU, mem: MemView, is_byte: bool) -> (
        Result<u32, Fault>,
        CPU,
    ) {
        match spec_read2(mem, spec_pc_addr(cpu)) {
            Err(f) => (Err(f), cpu),
            Ok(operand) => {
                let addr = spec_absolute_addr(self.instruction_type, cpu, operand);
                let c1 = spec_advance_pc(cpu, 2);
                match self.instruction_type {
                    InstructionType::ControlTransfer => (Ok(addr), c1),
                    InstructionType::LocatingData => (spec_load_data(mem, addr, is_byte), c1),
                }
            },
        }
    }

    open spec fn store_spec(&self, cpu: CPU, mem: MemView, is_byte: bool, data: u32) -> (
        Result<(), Fault>,
        CPU,
        MemView,
    ) {
        match spec_read2(mem, spec_pc_addr(cpu)) {
            Err(f) => (Err(f), cpu, mem),
            Ok(operand) => {
                let addr = spec_absolute_addr(self.instruction_type, cpu, operand);
                let (r, m1) = spec_store_data(mem, addr, is_byte, data);
                match r {
                    Err(f) => (Err(f), cpu, m1),
                    Ok(_) => (Ok(()), spec_advance_pc(cpu, 2), m1),
                }
            },
        }
    }

    fn load(&self, cpu: &mut CPU, memory: &Memory, is_byte: bool) -> (r: Result<u32, Fault>) {
        let operand = match load_two_bytes(memory, pc_addr(cpu)) {
            Ok(w) => w,
            Err(f) => {
                return Err(f);
            },
        };
        let bank: u32 = match self.instruction_type {
            InstructionType::LocatingData => cpu.data_bank as u32,
            InstructionType::ControlTransfer => cpu.program_bank as u32,
        };
        let addr: u32 = bank * 0x10000 + operand as u32;
        cpu.program_counter = cpu.program_counter.wrapping_add(2);
        match self.instruction_type {
            InstructionType::ControlTransfer => Ok(addr),
            InstructionType::LocatingData => load_data(memory, addr, is_byte),
        }
    }

    fn store(&self, cpu: &mut CPU, memory: &mut Memory, is_byte: bool, data: u32) -> (r: Result<
        (),
        Fault,
    >) {
        let operand = match load_two_bytes(memory, pc_addr(cpu)) {
            Ok(w) => w,
            Err(f) => {
                return Err(f);
            },
        };
        let bank: u32 = match self.instruction_type {
            InstructionType::LocatingData => cpu.data_bank as u32,
            InstructionType::ControlTransfer => cpu.program_bank as u32,
        };
        let addr: u32 = bank * 0x10000 + operand as u32;
        match store_data(memory, addr, is_byte, data) {
            Ok(_) => {
                cpu.program_counter = cpu.program_counter.wrapping_add(2);
                Ok(())
            },
            Err(f) => Err(f),
        }
    }
}

/// The 24-bit address of the next opcode-stream byte.
pub fn pc_addr(cpu: &CPU) -> (r: u32)
    ensures
        r == spec_pc_addr(*cpu),
{
    cpu.program_bank as u32 * 0x10000 + cpu.program_counter as u32
}


/// Absolute-Long: the three operand bytes name a full 24-bit effective
/// address; always three bytes consumed, and the access may cross banks.
#[derive(Clone, Copy, PartialEq, Eq, Structural, Debug)]
pub struct AbsoluteLong {
    pub instruction_type: InstructionType,
}

impl Instruction for AbsoluteLong {
    open spec fn load_spec(&self, cpu: CPU, mem: MemView, is_byte: bool) -> (
        Result<u32, Fault>,
        CPU,
    ) {
        match spec_read3(mem, spec_pc_addr(cpu)) {
            Err(f) => (Err(f), cpu),
            Ok(addr) => {
                let c1 = spec_advance_pc(cpu, 3);
                match self.instruction_type {
                    InstructionType::ControlTransfer => (Ok(addr), c1),
                    InstructionType::LocatingData => (spec_load_data(mem, addr, is_byte), c1),
                }
            },
        }
    }

    open spec fn store_spec(&self, cpu: CPU, mem: MemView, is_byte: bool, data: u32) -> (
        Result<(), Fault>,
        CPU,
        MemView,
    ) {
        (Err(Fault::UnimplementedMode), cpu, mem)
    }

    fn load(&self, cpu: &mut CPU, memory: &Memory, is_byte: bool) -> (r: Result<u32, Fault>) {
        let addr = match load_three_bytes(memory, pc_addr(cpu)) {
            Ok(a) => a,
            Err(f) => {
                return Err(f);
            },
        };
        cpu.program_counter = cpu.program_counter.wrapping_add(3);
        match self.instruction_type {
            InstructionType::ControlTransfer => Ok(addr),
            InstructionType::LocatingData => load_data(memory, addr, is_byte),
        }
    }

    fn store(&self, cpu: &mut CPU, memory: &mut Memory, is_byte: bool, data: u32) -> (r: Result<
        (),
        Fault,
    >) {
        Err(Fault::UnimplementedMode)
    }
}

/// Absolute-Long-Indexed-X: the 24-bit operand plus the X index names the
/// effective address.
#[derive(Clone, Copy, PartialEq, Eq, Structural, Debug)]
pub struct AbsoluteLongIndexedX;

impl Instruction for AbsoluteLongIndexedX {
    open spec fn load_spec(&self, cpu: CPU, mem: MemView, is_byte: bool) -> (
        Result<u32, Fault>,
        CPU,
    ) {
        match spec_read3(mem, spec_pc_addr(cpu)) {
            Err(f) => (Err(f), cpu),
            Ok(base) => {
                let c1 = spec_advance_pc(cpu, 3);
                let idx: u32 = if is_byte {
                    (cpu.index_x % 0x100) as u32
                } else {
                    cpu.index_x as u32
                };
                (spec_load_data(mem, u32_specs::wrapping_add(base, idx), is_byte), c1)
            },
        }
    }

    open spec fn store_spec(&self, cpu: CPU, mem: MemView, is_byte: bool, data: u32) -> (
        Result<(), Fault>,
        CPU,
        MemView,
    ) {
        (Err(Fault::UnimplementedMode), cpu, mem)
    }

    fn load(&self, cpu: &mut CPU, memory: &Memory, is_byte: bool) -> (r: Result<u32, Fault>) {
        let base = match load_three_bytes(memory, pc_addr(cpu)) {
            Ok(a) => a,
            Err(f) => {
                return Err(f);
            },
        };
        cpu.program_counter = cpu.program_counter.wrapping_add(3);
        let idx: u32 = if is_byte {
            cpu.index_x as u32 % 0x100
        } else {
            cpu.index_x as u32
        };
        load_data(memory, base.wrapping_add(idx), is_byte)
    }

    fn store(&self, cpu: &mut CPU, memory: &mut Memory, is_byte: bool, data: u32) -> (r: Result<
        (),
        Fault,
    >) {
        Err(Fault::UnimplementedMode)
    }
}

/// Accumulator: the operand is the accumulator itself; nothing is consumed
/// from the opcode stream and the bus is never touched.
#[derive(Clone, Copy, PartialEq, Eq, Structural, Debug)]
pub struct Accumulator;

impl Instruction for Accumulator {
    open spec fn load_spec(&self, cpu: CPU, mem: MemView, is_byte: bool) -> (
        Result<u32, Fault>,
        CPU,
    ) {
        if is_byte {
            (Ok((cpu.accumulator as int % 0x100) as u32), cpu)
        } else {
            (Ok(cpu.accumulator as u32), cpu)
        }
    }

    open spec fn store_spec(&self, cpu: CPU, mem: MemView, is_byte: bool, data: u32) -> (
        Result<(), Fault>,
        CPU,
        MemView,
    ) {
        let acc: int = cpu.accumulator as int;
        let new_acc: u16 = if is_byte {
            (acc - acc % 0x100 + data as int % 0x100) as u16
        } else {
            (data as int % 0x10000) as u16
        };
        (Ok(()), CPU { accumulator: new_acc, ..cpu }, mem)
    }

    fn load(&self, cpu: &mut CPU, memory: &Memory, is_byte: bool) -> (r: Result<u32, Fault>) {
        if is_byte {
            Ok(cpu.accumulator as u32 % 0x100)
        } else {
            Ok(cpu.accumulator as u32)
        }
    }

    fn store(&self, cpu: &mut CPU, memory: &mut Memory, is_byte: bool, data: u32) -> (r: Result<
        (),
        Fault,
    >) {
        if is_byte {
            cpu.accumulator = cpu.accumulator / 0x100 * 0x100 + (data % 0x100) as u16;
        } else {
            cpu.accumulator = (data % 0x10000) as u16;
        }
        Ok(())
    }
}

/// The direct-page base: in emulation mode the register's low byte is
/// implicitly zero.
pub open spec fn spec_dp_base(c: CPU) -> int {
    if c.emulation_mode {
        c.direct_page as int - c.direct_page as int % 0x100
    } else {
        c.direct_page as int
    }
}

/// Direct-Page: the effective address is the direct-page base plus the
/// zero-extended operand byte, truncated to 16 bits, within `data_bank`.
#[derive(Clone, Copy, PartialEq, Eq, Structural, Debug)]
pub struct DirectPage;

/// The effective 24-bit address a direct-page operand resolves to.
pub open spec fn spec_dp_addr(c: CPU, operand: u8) -> u32 {
    (c.data_bank as int * 0x10000 + (spec_dp_base(c) + operand as int) % 0x10000) as u32
}

impl Instruction for DirectPage {
    open spec fn load_spec(&self, cpu: CPU, mem: MemView, is_byte: bool) -> (
        Result<u32, Fault>,
        CPU,
    ) {
        match spec_get_byte(mem, spec_pc_addr(cpu)) {
            Err(f) => (Err(f), cpu),
            Ok(operand) => (
                spec_load_data(mem, spec_dp_addr(cpu, operand), is_byte),
                spec_advance_pc(cpu, 1),
            ),
        }
    }

    open spec fn store_spec(&self, cpu: CPU, mem: MemView, is_byte: bool, data: u32) -> (
        Result<(), Fault>,
        CPU,
        MemView,
    ) {
        match spec_get_byte(mem, spec_pc_addr(cpu)) {
            Err(f) => (Err(f), cpu, mem),
            Ok(operand) => {
                let (r, m1) = spec_store_data(mem, spec_dp_addr(cpu, operand), is_byte, data);
                match r {
                    Err(f) => (Err(f), cpu, m1),
                    Ok(_) => (Ok(()), spec_advance_pc(cpu, 1), m1),
                }
            },
        }
    }

    fn load(&self, cpu: &mut CPU, memory: &Memory, is_byte: bool) -> (r: Result<u32, Fault>) {
        let operand = match memory.get_byte(pc_addr(cpu)) {
            Ok(b) => b,
            Err(f) => {
                return Err(f);
            },
        };
        let addr = dp_addr(cpu, operand);
        cpu.program_counter = cpu.program_counter.wrapping_add(1);
        load_data(memory, addr, is_byte)
    }

    fn store(&self, cpu: &mut CPU, memory: &mut Memory, is_byte: bool, data: u32) -> (r: Result<
        (),
        Fault,
    >) {
        let operand = match memory.get_byte(pc_addr(cpu)) {
            Ok(b) => b,
            Err(f) => {
                return Err(f);
            },
        };
        let addr = dp_addr(cpu, operand);
        match store_data(memory, addr, is_byte, data) {
            Ok(_) => {
                cpu.program_counter = cpu.program_counter.wrapping_add(1);
                Ok(())
            },
            Err(f) => Err(f),
        }
    }
}

/// The effective 24-bit address a direct-page operand resolves to.
fn dp_addr(cpu: &CPU, operand: u8) -> (r: u32)
    ensures
        r == spec_dp_addr(*cpu, operand),
{
    let base: u32 = if cpu.emulation_mode {
        cpu.direct_page as u32 / 0x100 * 0x100
    } else {
        cpu.direct_page as u32
    };
    cpu.data_bank as u32 * 0x10000 + (base + operand as u32) % 0x10000
}

/// Direct-Page-Indirect-Long-Indexed-Y: the operand byte names a bank-0
/// pointer at the direct-page base; the 24-bit value there plus the Y index
/// names the effective address.
#[derive(Clone, Copy, PartialEq, Eq, Structural, Debug)]
pub struct DirectPageIndirectLongIndexedY;

impl Instruction for DirectPageIndirectLongIndexedY {
    open spec fn load_spec(&self, cpu: CPU, mem: MemView, is_byte: bool) -> (
        Result<u32, Fault>,
        CPU,
    ) {
        match spec_get_byte(mem, spec_pc_addr(cpu)) {
            Err(f) => (Err(f), cpu),
            Ok(operand) => {
                let c1 = spec_advance_pc(cpu, 1);
                match spec_read3(mem, (spec_dp_base(cpu) + operand as int) as u32) {
                    Err(f) => (Err(f), c1),
                    Ok(base) => {
                        let idx: u32 = if is_byte {
                            (cpu.index_y % 0x100) as u32
                        } else {
                            cpu.index_y as u32
                        };
                        (spec_load_data(mem, u32_specs::wrapping_add(base, idx), is_byte), c1)
                    },
                }
            },
        }
    }

    open spec fn store_spec(&self, cpu: CPU, mem: MemView, is_byte: bool, data: u32) -> (
        Result<(), Fault>,
        CPU,
        MemView,
    ) {
        (Err(Fault::UnimplementedMode), cpu, mem)
    }

    fn load(&self, cpu: &mut CPU, memory: &Memory, is_byte: bool) -> (r: Result<u32, Fault>) {
        let operand = match memory.get_byte(pc_addr(cpu)) {
            Ok(b) => b,
            Err(f) => {
                return Err(f);
            },
        };
        let base_off: u32 = if cpu.emulation_mode {
            cpu.direct_page as u32 / 0x100 * 0x100
        } else {
            cpu.direct_page as u32
        };
        cpu.program_counter = cpu.program_counter.wrapping_add(1);
        let base = match load_three_bytes(memory, base_off + operand as u32) {
            Ok(a) => a,
            Err(f) => {
                return Err(f);
            },
        };
        let idx: u32 = if is_byte {
            cpu.index_y as u32 % 0x100
        } else {
            cpu.index_y as u32
        };
        load_data(memory, base.wrapping_add(idx), is_byte)
    }

    fn store(&self, cpu: &mut CPU, memory: &mut Memory, is_byte: bool, data: u32) -> (r: Result<
        (),
        Fault,
    >) {
        Err(Fault::UnimplementedMode)
    }
}

/// Immediate: the operand is the literal byte or little-endian word
/// following the opcode, width chosen by `is_byte`.
#[derive(Clone, Copy, PartialEq, Eq, Structural, Debug)]
pub struct Immediate;

impl Instruction for Immediate {
    open spec fn load_spec(&self, cpu: CPU, mem: MemView, is_byte: bool) -> (
        Result<u32, Fault>,
        CPU,
    ) {
        match spec_load_data(mem, spec_pc_addr(cpu), is_byte) {
            Err(f) => (Err(f), cpu),
            Ok(v) => (
                Ok(v),
                spec_advance_pc(
                    cpu,
                    if is_byte {
                        1
                    } else {
                        2
                    },
                ),
            ),
        }
    }

    open spec fn store_spec(&self, cpu: CPU, mem: MemView, is_byte: bool, data: u32) -> (
        Result<(), Fault>,
        CPU,
        MemView,
    ) {
        (Err(Fault::UnimplementedMode), cpu, mem)
    }

    fn load(&self, cpu: &mut CPU, memory: &Memory, is_byte: bool) -> (r: Result<u32, Fault>) {
        let v = match load_data(memory, pc_addr(cpu), is_byte) {
            Ok(v) => v,
            Err(f) => {
                return Err(f);
            },
        };
        if is_byte {
            cpu.program_counter = cpu.program_counter.wrapping_add(1);
        } else {
            cpu.program_counter = cpu.program_counter.wrapping_add(2);
        }
        Ok(v)
    }

    fn store(&self, cpu: &mut CPU, memory: &mut Memory, is_byte: bool, data: u32) -> (r: Result<
        (),
        Fault,
    >) {
        Err(Fault::UnimplementedMode)
    }
}

/// Program-Counter-Relative: returns the raw displacement byte and leaves
/// the counter alone; branch handlers add the displacement and account for
/// the operand byte themselves, in that order.
#[derive(Clone, Copy, PartialEq, Eq, Structural, Debug)]
pub struct ProgramCounterRelative;

impl Instruction for ProgramCounterRelative {
    open spec fn load_spec(&self, cpu: CPU, mem: MemView, is_byte: bool) -> (
        Result<u32, Fault>,
        CPU,
    ) {
        match spec_get_byte(mem, spec_pc_addr(cpu)) {
            Err(f) => (Err(f), cpu),
            Ok(b) => (Ok(b as u32), cpu),
        }
    }

    open spec fn store_spec(&self, cpu: CPU, mem: MemView, is_byte: bool, data: u32) -> (
        Result<(), Fault>,
        CPU,
        MemView,
    ) {
        (Err(Fault::UnimplementedMode), cpu, mem)
    }

    fn load(&self, cpu: &mut CPU, memory: &Memory, is_byte: bool) -> (r: Result<u32, Fault>) {
        match memory.get_byte(pc_addr(cpu)) {
            Ok(b) => Ok(b as u32),
            Err(f) => Err(f),
        }
    }

    fn store(&self, cpu: &mut CPU, memory: &mut Memory, is_byte: bool, data: u32) -> (r: Result<
        (),
        Fault,
    >) {
        Err(Fault::UnimplementedMode)
    }
}

/// The bus address of the stack cell named by pointer value `x`: bank 0,
/// and in emulation mode the page is forced to 1 at the point of use — the
/// stored pointer is never clamped, only its low byte reaches the bus.
pub open spec fn spec_stack_addr(c: CPU, x: u16) -> u32 {
    if c.emulation_mode {
        (0x100 + x as int % 0x100) as u32
    } else {
        x as u32
    }
}

/// The bus address of the stack cell named by pointer value `x`.
fn stack_addr(cpu: &CPU, x: u16) -> (r: u32)
    ensures
        r == spec_stack_addr(*cpu, x),
{
    if cpu.emulation_mode {
        0x100 + x as u32 % 0x100
    } else {
        x as u32
    }
}

/// What pulling one byte from the stack gives: the byte in the cell above
/// the stack pointer, and the pointer incremented by one.
pub open spec fn spec_pull_byte(cpu: CPU, mem: MemView) -> (Result<u32, Fault>, CPU) {
    match spec_get_byte(mem, spec_stack_addr(cpu, wrap16(cpu.stack_pointer + 1))) {
        Err(f) => (Err(f), cpu),
        Ok(b) => (Ok(b as u32), CPU { stack_pointer: wrap16(cpu.stack_pointer + 1), ..cpu }),
    }
}

/// What pulling one little-endian word from the stack gives: the low byte
/// from the cell above the stack pointer, the high byte from the cell above
/// that, and the pointer incremented by two.
pub open spec fn spec_pull_word(cpu: CPU, mem: MemView) -> (Result<u32, Fault>, CPU) {
    match spec_get_byte(mem, spec_stack_addr(cpu, wrap16(cpu.stack_pointer + 1))) {
        Err(f) => (Err(f), cpu),
        Ok(low) => match spec_get_byte(mem, spec_stack_addr(cpu, wrap16(cpu.stack_pointer + 2))) {
            Err(f) => (Err(f), cpu),
            Ok(high) => (
                Ok((high as int * 0x100 + low as int) as u32),
                CPU { stack_pointer: wrap16(cpu.stack_pointer + 2), ..cpu },
            ),
        },
    }
}

/// Stack-Pull: loads from the cells above the stack pointer and increments
/// it by the operand width.
#[derive(Clone, Copy, PartialEq, Eq, Structural, Debug)]
pub struct StackPull;

impl Instruction for StackPull {
    open spec fn load_spec(&self, cpu: CPU, mem: MemView, is_byte: bool) -> (
        Result<u32, Fault>,
        CPU,
    ) {
        if is_byte {
            spec_pull_byte(cpu, mem)
        } else {
            spec_pull_word(cpu, mem)
        }
    }

    open spec fn store_spec(&self, cpu: CPU, mem: MemView, is_byte: bool, data: u32) -> (
        Result<(), Fault>,
        CPU,
        MemView,
    ) {
        (Err(Fault::UnimplementedMode), cpu, mem)
    }

    fn load(&self, cpu: &mut CPU, memory: &Memory, is_byte: bool) -> (r: Result<u32, Fault>) {
        let lo_addr = stack_addr(cpu, cpu.stack_pointer.wrapping_add(1));
        if is_byte {
            match memory.get_byte(lo_addr) {
                Ok(b) => {
                    cpu.stack_pointer = cpu.stack_pointer.wrapping_add(1);
                    Ok(b as u32)
                },
                Err(f) => Err(f),
            }
        } else {
            let hi_addr = stack_addr(cpu, cpu.stack_pointer.wrapping_add(2));
            let low = match memory.get_byte(lo_addr) {
                Ok(b) => b,
                Err(f) => {
                    return Err(f);
                },
            };
            let high = match memory.get_byte(hi_addr) {
                Ok(b) => b,
                Err(f) => {
                    return Err(f);
                },
            };
            cpu.stack_pointer = cpu.stack_pointer.wrapping_add(2);
            Ok(high as u32 * 0x100 + low as u32)
        }
    }

    fn store(&self, cpu: &mut CPU, memory: &mut Memory, is_byte: bool, data: u32) -> (r: Result<
        (),
        Fault,
    >) {
        Err(Fault::UnimplementedMode)
    }
}

/// What pushing one byte does: the byte stored in the cell at the stack
/// pointer, and the pointer decremented by one.
pub open spec fn spec_push_byte(cpu: CPU, mem: MemView, data: u8) -> (
    Result<(), Fault>,
    CPU,
    MemView,
) {
    let (r, m1) = spec_set_byte(mem, spec_stack_addr(cpu, cpu.stack_pointer), data);
    match r {
        Err(f) => (Err(f), cpu, m1),
        Ok(_) => (Ok(()), CPU { stack_pointer: wrap16(cpu.stack_pointer - 1), ..cpu }, m1),
    }
}

/// What pushing one little-endian word does: the high byte stored in the
/// cell at the stack pointer, the low byte in the cell below, and the
/// pointer decremented by two.
pub open spec fn spec_push_word(cpu: CPU, mem: MemView, data: u16) -> (
    Result<(), Fault>,
    CPU,
    MemView,
) {
    let (r1, m1) = spec_set_byte(
        mem,
        spec_stack_addr(cpu, cpu.stack_pointer),
        (data as int / 0x100) as u8,
    );
    match r1 {
        Err(f) => (Err(f), cpu, m1),
        Ok(_) => {
            let (r2, m2) = spec_set_byte(
                m1,
                spec_stack_addr(cpu, wrap16(cpu.stack_pointer - 1)),
                (data as int % 0x100) as u8,
            );
            match r2 {
                Err(f) => (Err(f), cpu, m2),
                Ok(_) => (
                    Ok(()),
                    CPU { stack_pointer: wrap16(cpu.stack_pointer - 2), ..cpu },
                    m2,
                ),
            }
        },
    }
}

/// Stack-Push: stores into the cells at the stack pointer and decrements it
/// by the operand width.
#[derive(Clone, Copy, PartialEq, Eq, Structural, Debug)]
pub struct StackPush;

impl Instruction for StackPush {
    open spec fn load_spec(&self, cpu: CPU, mem: MemView, is_byte: bool) -> (
        Result<u32, Fault>,
        CPU,
    ) {
        (Err(Fault::UnimplementedMode), cpu)
    }

    open spec fn store_spec(&self, cpu: CPU, mem: MemView, is_byte: bool, data: u32) -> (
        Result<(), Fault>,
        CPU,
        MemView,
    ) {
        if is_byte {
            spec_push_byte(cpu, mem, (data as int % 0x100) as u8)
        } else {
            spec_push_word(cpu, mem, (data as int % 0x10000) as u16)
        }
    }

    fn load(&self, cpu: &mut CPU, memory: &Memory, is_byte: bool) -> (r: Result<u32, Fault>) {
        Err(Fault::UnimplementedMode)
    }

    fn store(&self, cpu: &mut CPU, memory: &mut Memory, is_byte: bool, data: u32) -> (r: Result<
        (),
        Fault,
    >) {
        let hi_addr = stack_addr(cpu, cpu.stack_pointer);
        if is_byte {
            match memory.set_byte(hi_addr, (data % 0x100) as u8) {
                Ok(_) => {
                    cpu.stack_pointer = cpu.stack_pointer.wrapping_sub(1);
                    Ok(())
                },
                Err(f) => Err(f),
            }
        } else {
            let lo_addr = stack_addr(cpu, cpu.stack_pointer.wrapping_sub(1));
            match memory.set_byte(hi_addr, ((data % 0x10000) / 0x100) as u8) {
                Ok(_) => {},
                Err(f) => {
                    return Err(f);
                },
            }
            match memory.set_byte(lo_addr, (data % 0x100) as u8) {
                Ok(_) => {
                    cpu.stack_pointer = cpu.stack_pointer.wrapping_sub(2);
                    Ok(())
                },
                Err(f) => Err(f),
            }
        }
    }
}

/// Stack-RTS: pulls the 16-bit return address pushed by a subroutine call;
/// always word-wide.
#[derive(Clone, Copy, PartialEq, Eq, Structural, Debug)]
pub struct StackRTS;

impl Instruction for StackRTS {
    open spec fn load_spec(&self, cpu: CPU, mem: MemView, is_byte: bool) -> (
        Result<u32, Fault>,
        CPU,
    ) {
        spec_pull_word(cpu, mem)
    }

    open spec fn store_spec(&self, cpu: CPU, mem: MemView, is_byte: bool, data: u32) -> (
        Result<(), Fault>,
        CPU,
        MemView,
    ) {
        (Err(Fault::UnimplementedMode), cpu, mem)
    }

    fn load(&self, cpu: &mut CPU, memory: &Memory, is_byte: bool) -> (r: Result<u32, Fault>) {
        let lo_addr = stack_addr(cpu, cpu.stack_pointer.wrapping_add(1));
        let hi_addr = stack_addr(cpu, cpu.stack_pointer.wrapping_add(2));
        let low = match memory.get_byte(lo_addr) {
            Ok(b) => b,
            Err(f) => {
                return Err(f);
            },
        };
        let high = match memory.get_byte(hi_addr) {
            Ok(b) => b,
            Err(f) => {
                return Err(f);
            },
        };
        cpu.stack_pointer = cpu.stack_pointer.wrapping_add(2);
        Ok(high as u32 * 0x100 + low as u32)
    }

    fn store(&self, cpu: &mut CPU, memory: &mut Memory, is_byte: bool, data: u32) -> (r: Result<
        (),
        Fault,
    >) {
        Err(Fault::UnimplementedMode)
    }
}

/// Absolute-Indexed-X: resolver not yet implemented; resolving through it is a
/// development-stub fault that leaves the machine unchanged.
#[derive(Clone, Copy, PartialEq, Eq, Structural, Debug)]
pub struct AbsoluteIndexedX;

impl Instruction for AbsoluteIndexedX {
    open spec fn load_spec(&self, cpu: CPU, mem: MemView, is_byte: bool) -> (
        Result<u32, Fault>,
        CPU,
    ) {
        (Err(Fault::UnimplementedMode), cpu)
    }

    open spec fn store_spec(&self, cpu: CPU, mem: MemView, is_byte: bool, data: u32) -> (
        Result<(), Fault>,
        CPU,
        MemView,
    ) {
        (Err(Fault::UnimplementedMode), cpu, mem)
    }

    fn load(&self, cpu: &mut CPU, memory: &Memory, is_byte: bool) -> (r: Result<u32, Fault>) {
        Err(Fault::UnimplementedMode)
    }

    fn store(&self, cpu: &mut CPU, memory: &mut Memory, is_byte: bool, data: u32) -> (r: Result<
        (),
        Fault,
    >) {
        Err(Fault::UnimplementedMode)
    }
}

/// Absolute-Indexed-Y: resolver not yet implemented; resolving through it is a
/// development-stub fault that leaves the machine unchanged.
#[derive(Clone, Copy, PartialEq, Eq, Structural, Debug)]
pub struct AbsoluteIndexedY;

impl Instruction for AbsoluteIndexedY {
    open spec fn load_spec(&self, cpu: CPU, mem: MemView, is_byte: bool) -> (
        Result<u32, Fault>,
        CPU,
    ) {
        (Err(Fault::UnimplementedMode), cpu)
    }

    open spec fn store_spec(&self, cpu: CPU, mem: MemView, is_byte: bool, data: u32) -> (
        Result<(), Fault>,
        CPU,
        MemView,
    ) {
        (Err(Fault::UnimplementedMode), cpu, mem)
    }

    fn load(&self, cpu: &mut CPU, memory: &Memory, is_byte: bool) -> (r: Result<u32, Fault>) {
        Err(Fault::UnimplementedMode)
    }

    fn store(&self, cpu: &mut CPU, memory: &mut Memory, is_byte: bool, data: u32) -> (r: Result<
        (),
        Fault,
    >) {
        Err(Fault::UnimplementedMode)
    }
}

/// Absolute-Indexed-Indirect: resolver not yet implemented; resolving through it is a
/// development-stub fault that leaves the machine unchanged.
#[derive(Clone, Copy, PartialEq, Eq, Structural, Debug)]
pub struct AbsoluteIndexedIndirect;

impl Instruction for AbsoluteIndexedIndirect {
    open spec fn load_spec(&self, cpu: CPU, mem: MemView, is_byte: bool) -> (
        Result<u32, Fault>,
        CPU,
    ) {
        (Err(Fault::UnimplementedMode), cpu)
    }

    open spec fn store_spec(&self, cpu: CPU, mem: MemView, is_byte: bool, data: u32) -> (
        Result<(), Fault>,
        CPU,
        MemView,
    ) {
        (Err(Fault::UnimplementedMode), cpu, mem)
    }

    fn load(&self, cpu: &mut CPU, memory: &Memory, is_byte: bool) -> (r: Result<u32, Fault>) {
        Err(Fault::UnimplementedMode)
    }

    fn store(&self, cpu: &mut CPU, memory: &mut Memory, is_byte: bool, data: u32) -> (r: Result<
        (),
        Fault,
    >) {
        Err(Fault::UnimplementedMode)
    }
}

/// Absolute-Indirect: resolver not yet implemented; resolving through it is a
/// development-stub fault that leaves the machine unchanged.
#[derive(Clone, Copy, PartialEq, Eq, Structural, Debug)]
pub struct AbsoluteIndirect;

impl Instruction for AbsoluteIndirect {
    open spec fn load_spec(&self, cpu: CPU, mem: MemView, is_byte: bool) -> (
        Result<u32, Fault>,
        CPU,
    ) {
        (Err(Fault::UnimplementedMode), cpu)
    }

    open spec fn store_spec(&self, cpu: CPU, mem: MemView, is_byte: bool, data: u32) -> (
        Result<(), Fault>,
        CPU,
        MemView,
    ) {
        (Err(Fault::UnimplementedMode), cpu, mem)
    }

    fn load(&self, cpu: &mut CPU, memory: &Memory, is_byte: bool) -> (r: Result<u32, Fault>) {
        Err(Fault::UnimplementedMode)
    }

    fn store(&self, cpu: &mut CPU, memory: &mut Memory, is_byte: bool, data: u32) -> (r: Result<
        (),
        Fault,
    >) {
        Err(Fault::UnimplementedMode)
    }
}

/// Absolute-Indirect-Long: resolver not yet implemented; resolving through it is a
/// development-stub fault that leaves the machine unchanged.
#[derive(Clone, Copy, PartialEq, Eq, Structural, Debug)]
pub struct AbsoluteIndirectLong;

impl Instruction for AbsoluteIndirectLong {
    open spec fn load_spec(&self, cpu: CPU, mem: MemView, is_byte: bool) -> (
        Result<u32, Fault>,
        CPU,
    ) {
        (Err(Fault::UnimplementedMode), cpu)
    }

    open spec fn store_spec(&self, cpu: CPU, mem: MemView, is_byte: bool, data: u32) -> (
        Result<(), Fault>,
        CPU,
        MemView,
    ) {
        (Err(Fault::UnimplementedMode), cpu, mem)
    }

    fn load(&self, cpu: &mut CPU, memory: &Memory, is_byte: bool) -> (r: Result<u32, Fault>) {
        Err(Fault::UnimplementedMode)
    }

    fn store(&self, cpu: &mut CPU, memory: &mut Memory, is_byte: bool, data: u32) -> (r: Result<
        (),
        Fault,
    >) {
        Err(Fault::UnimplementedMode)
    }
}

/// Block-Move: resolver not yet implemented; resolving through it is a
/// development-stub fault that leaves the machine unchanged.
#[derive(Clone, Copy, PartialEq, Eq, Structural, Debug)]
pub struct BlockMove;

impl Instruction for BlockMove {
    open spec fn load_spec(&self, cpu: CPU, mem: MemView, is_byte: bool) -> (
        Result<u32, Fault>,
        CPU,
    ) {
        (Err(Fault::UnimplementedMode), cpu)
    }

    open spec fn store_spec(&self, cpu: CPU, mem: MemView, is_byte: bool, data: u32) -> (
        Result<(), Fault>,
        CPU,
        MemView,
    ) {
        (Err(Fault::UnimplementedMode), cpu, mem)
    }

    fn load(&self, cpu: &mut CPU, memory: &Memory, is_byte: bool) -> (r: Result<u32, Fault>) {
        Err(Fault::UnimplementedMode)
    }

    fn store(&self, cpu: &mut CPU, memory: &mut Memory, is_byte: bool, data: u32) -> (r: Result<
        (),
        Fault,
    >) {
        Err(Fault::UnimplementedMode)
    }
}

/// Direct-Page-Indexed-X: resolver not yet implemented; resolving through it is a
/// development-stub fault that leaves the machine unchanged.
#[derive(Clone, Copy, PartialEq, Eq, Structural, Debug)]
pub struct DirectPageIndexedX;

impl Instruction for DirectPageIndexedX {
    open spec fn load_spec(&self, cpu: CPU, mem: MemView, is_byte: bool) -> (
        Result<u32, Fault>,
        CPU,
    ) {
        (Err(Fault::UnimplementedMode), cpu)
    }

    open spec fn store_spec(&self, cpu: CPU, mem: MemView, is_byte: bool, data: u32) -> (
        Result<(), Fault>,
        CPU,
        MemView,
    ) {
        (Err(Fault::UnimplementedMode), cpu, mem)
    }

    fn load(&self, cpu: &mut CPU, memory: &Memory, is_byte: bool) -> (r: Result<u32, Fault>) {
        Err(Fault::UnimplementedMode)
    }

    fn store(&self, cpu: &mut CPU, memory: &mut Memory, is_byte: bool, data: u32) -> (r: Result<
        (),
        Fault,
    >) {
        Err(Fault::UnimplementedMode)
    }
}

/// Direct-Page-Indexed-Y: resolver not yet implemented; resolving through it is a
/// development-stub fault that leaves the machine unchanged.
#[derive(Clone, Copy, PartialEq, Eq, Structural, Debug)]
pub struct DirectPageIndexedY;

impl Instruction for DirectPageIndexedY {
    open spec fn load_spec(&self, cpu: CPU, mem: MemView, is_byte: bool) -> (
        Result<u32, Fault>,
        CPU,
    ) {
        (Err(Fault::UnimplementedMode), cpu)
    }

    open spec fn store_spec(&self, cpu: CPU, mem: MemView, is_byte: bool, data: u32) -> (
        Result<(), Fault>,
        CPU,
        MemView,
    ) {
        (Err(Fault::UnimplementedMode), cpu, mem)
    }

    fn load(&self, cpu: &mut CPU, memory: &Memory, is_byte: bool) -> (r: Result<u32, Fault>) {
        Err(Fault::UnimplementedMode)
    }

    fn store(&self, cpu: &mut CPU, memory: &mut Memory, is_byte: bool, data: u32) -> (r: Result<
        (),
        Fault,
    >) {
        Err(Fault::UnimplementedMode)
    }
}

/// Direct-Page-Indexed-Indirect-X: resolver not yet implemented; resolving through it is a
/// development-stub fault that leaves the machine unchanged.
#[derive(Clone, Copy, PartialEq, Eq, Structural, Debug)]
pub struct DirectPageIndexedIndirectX;

impl Instruction for DirectPageIndexedIndirectX {
    open spec fn load_spec(&self, cpu: CPU, mem: MemView, is_byte: bool) -> (
        Result<u32, Fault>,
        CPU,
    ) {
        (Err(Fault::UnimplementedMode), cpu)
    }

    open spec fn store_spec(&self, cpu: CPU, mem: MemView, is_byte: bool, data: u32) -> (
        Result<(), Fault>,
        CPU,
        MemView,
    ) {
        (Err(Fault::UnimplementedMode), cpu, mem)
    }

    fn load(&self, cpu: &mut CPU, memory: &Memory, is_byte: bool) -> (r: Result<u32, Fault>) {
        Err(Fault::UnimplementedMode)
    }

    fn store(&self, cpu: &mut CPU, memory: &mut Memory, is_byte: bool, data: u32) -> (r: Result<
        (),
        Fault,
    >) {
        Err(Fault::UnimplementedMode)
    }
}

/// Direct-Page-Indirect: resolver not yet implemented; resolving through it is a
/// development-stub fault that leaves the machine unchanged.
#[derive(Clone, Copy, PartialEq, Eq, Structural, Debug)]
pub struct DirectPageIndirect;

impl Instruction for DirectPageIndirect {
    open spec fn load_spec(&self, cpu: CPU, mem: MemView, is_byte: bool) -> (
        Result<u32, Fault>,
        CPU,
    ) {
        (Err(Fault::UnimplementedMode), cpu)
    }

    open spec fn store_spec(&self, cpu: CPU, mem: MemView, is_byte: bool, data: u32) -> (
        Result<(), Fault>,
        CPU,
        MemView,
    ) {
        (Err(Fault::UnimplementedMode), cpu, mem)
    }

    fn load(&self, cpu: &mut CPU, memory: &Memory, is_byte: bool) -> (r: Result<u32, Fault>) {
        Err(Fault::UnimplementedMode)
    }

    fn store(&self, cpu: &mut CPU, memory: &mut Memory, is_byte: bool, data: u32) -> (r: Result<
        (),
        Fault,
    >) {
        Err(Fault::UnimplementedMode)
    }
}

/// Direct-Page-Indirect-Long: resolver not yet implemented; resolving through it is a
/// development-stub fault that leaves the machine unchanged.
#[derive(Clone, Copy, PartialEq, Eq, Structural, Debug)]
pub struct DirectPageIndirectLong;

impl Instruction for DirectPageIndirectLong {
    open spec fn load_spec(&self, cpu: CPU, mem: MemView, is_byte: bool) -> (
        Result<u32, Fault>,
        CPU,
    ) {
        (Err(Fault::UnimplementedMode), cpu)
    }

    open spec fn store_spec(&self, cpu: CPU, mem: MemView, is_byte: bool, data: u32) -> (
        Result<(), Fault>,
        CPU,
        MemView,
    ) {
        (Err(Fault::UnimplementedMode), cpu, mem)
    }

    fn load(&self, cpu: &mut CPU, memory: &Memory, is_byte: bool) -> (r: Result<u32, Fault>) {
        Err(Fault::UnimplementedMode)
    }

    fn store(&self, cpu: &mut CPU, memory: &mut Memory, is_byte: bool, data: u32) -> (r: Result<
        (),
        Fault,
    >) {
        Err(Fault::UnimplementedMode)
    }
}

/// Direct-Page-Indirect-Indexed-Y: resolver not yet implemented; resolving through it is a
/// development-stub fault that leaves the machine unchanged.
#[derive(Clone, Copy, PartialEq, Eq, Structural, Debug)]
pub struct DirectPageIndirectIndexedY;

impl Instruction for DirectPageIndirectIndexedY {
    open spec fn load_spec(&self, cpu: CPU, mem: MemView, is_byte: bool) -> (
        Result<u32, Fault>,
        CPU,
    ) {
        (Err(Fault::UnimplementedMode), cpu)
    }

    open spec fn store_spec(&self, cpu: CPU, mem: MemView, is_byte: bool, data: u32) -> (
        Result<(), Fault>,
        CPU,
        MemView,
    ) {
        (Err(Fault::UnimplementedMode), cpu, mem)
    }

    fn load(&self, cpu: &mut CPU, memory: &Memory, is_byte: bool) -> (r: Result<u32, Fault>) {
        Err(Fault::UnimplementedMode)
    }

    fn store(&self, cpu: &mut CPU, memory: &mut Memory, is_byte: bool, data: u32) -> (r: Result<
        (),
        Fault,
    >) {
        Err(Fault::UnimplementedMode)
    }
}

/// Program-Counter-Relative-Long: resolver not yet implemented; resolving through it is a
/// development-stub fault that leaves the machine unchanged.
#[derive(Clone, Copy, PartialEq, Eq, Structural, Debug)]
pub struct ProgramCounterRelativeLong;

impl Instruction for ProgramCounterRelativeLong {
    open spec fn load_spec(&self, cpu: CPU, mem: MemView, is_byte: bool) -> (
        Result<u32, Fault>,
        CPU,
    ) {
        (Err(Fault::UnimplementedMode), cpu)
    }

    open spec fn store_spec(&self, cpu: CPU, mem: MemView, is_byte: bool, data: u32) -> (
        Result<(), Fault>,
        CPU,
        MemView,
    ) {
        (Err(Fault::UnimplementedMode), cpu, mem)
    }

    fn load(&self, cpu: &mut CPU, memory: &Memory, is_byte: bool) -> (r: Result<u32, Fault>) {
        Err(Fault::UnimplementedMode)
    }

    fn store(&self, cpu: &mut CPU, memory: &mut Memory, is_byte: bool, data: u32) -> (r: Result<
        (),
        Fault,
    >) {
        Err(Fault::UnimplementedMode)
    }
}

/// Stack-Absolute: resolver not yet implemented; resolving through it is a
/// development-stub fault that leaves the machine unchanged.
#[derive(Clone, Copy, PartialEq, Eq, Structural, Debug)]
pub struct StackAbsolute;

impl Instruction for StackAbsolute {
    open spec fn load_spec(&self, cpu: CPU, mem: MemView, is_byte: bool) -> (
        Result<u32, Fault>,
        CPU,
    ) {
        (Err(Fault::UnimplementedMode), cpu)
    }

    open spec fn store_spec(&self, cpu: CPU, mem: MemView, is_byte: bool, data: u32) -> (
        Result<(), Fault>,
        CPU,
        MemView,
    ) {
        (Err(Fault::UnimplementedMode), cpu, mem)
    }

    fn load(&self, cpu: &mut CPU, memory: &Memory, is_byte: bool) -> (r: Result<u32, Fault>) {
        Err(Fault::UnimplementedMode)
    }

    fn store(&self, cpu: &mut CPU, memory: &mut Memory, is_byte: bool, data: u32) -> (r: Result<
        (),
        Fault,
    >) {
        Err(Fault::UnimplementedMode)
    }
}

/// Stack-Direct-Page-Indirect: resolver not yet implemented; resolving through it is a
/// development-stub fault that leaves the machine unchanged.
#[derive(Clone, Copy, PartialEq, Eq, Structural, Debug)]
pub struct StackDirectPageIndirect;

impl Instruction for StackDirectPageIndirect {
    open spec fn load_spec(&self, cpu: CPU, mem: MemView, is_byte: bool) -> (
        Result<u32, Fault>,
        CPU,
    ) {
        (Err(Fault::UnimplementedMode), cpu)
    }

    open spec fn store_spec(&self, cpu: CPU, mem: MemView, is_byte: bool, data: u32) -> (
        Result<(), Fault>,
        CPU,
        MemView,
    ) {
        (Err(Fault::UnimplementedMode), cpu, mem)
    }

    fn load(&self, cpu: &mut CPU, memory: &Memory, is_byte: bool) -> (r: Result<u32, Fault>) {
        Err(Fault::UnimplementedMode)
    }

    fn store(&self, cpu: &mut CPU, memory: &mut Memory, is_byte: bool, data: u32) -> (r: Result<
        (),
        Fault,
    >) {
        Err(Fault::UnimplementedMode)
    }
}

/// Stack-Program-Counter-Relative: resolver not yet implemented; resolving through it is a
/// development-stub fault that leaves the machine unchanged.
#[derive(Clone, Copy, PartialEq, Eq, Structural, Debug)]
pub struct StackProgramCounterRelative;

impl Instruction for StackProgramCounterRelative {
    open spec fn load_spec(&self, cpu: CPU, mem: MemView, is_byte: bool) -> (
        Result<u32, Fault>,
        CPU,
    ) {
        (Err(Fault::UnimplementedMode), cpu)
    }

    open spec fn store_spec(&self, cpu: CPU, mem: MemView, is_byte: bool, data: u32) -> (
        Result<(), Fault>,
        CPU,
        MemView,
    ) {
        (Err(Fault::UnimplementedMode), cpu, mem)
    }

    fn load(&self, cpu: &mut CPU, memory: &Memory, is_byte: bool) -> (r: Result<u32, Fault>) {
        Err(Fault::UnimplementedMode)
    }

    fn store(&self, cpu: &mut CPU, memory: &mut Memory, is_byte: bool, data: u32) -> (r: Result<
        (),
        Fault,
    >) {
        Err(Fault::UnimplementedMode)
    }
}

/// Stack-RTI: resolver not yet implemented; resolving through it is a
/// development-stub fault that leaves the machine unchanged.
#[derive(Clone, Copy, PartialEq, Eq, Structural, Debug)]
pub struct StackRTI;

impl Instruction for StackRTI {
    open spec fn load_spec(&self, cpu: CPU, mem: MemView, is_byte: bool) -> (
        Result<u32, Fault>,
        CPU,
    ) {
        (Err(Fault::UnimplementedMode), cpu)
    }

    open spec fn store_spec(&self, cpu: CPU, mem: MemView, is_byte: bool, data: u32) -> (
        Result<(), Fault>,
        CPU,
        MemView,
    ) {
        (Err(Fault::UnimplementedMode), cpu, mem)
    }

    fn load(&self, cpu: &mut CPU, memory: &Memory, is_byte: bool) -> (r: Result<u32, Fault>) {
        Err(Fault::UnimplementedMode)
    }

    fn store(&self, cpu: &mut CPU, memory: &mut Memory, is_byte: bool, data: u32) -> (r: Result<
        (),
        Fault,
    >) {
        Err(Fault::UnimplementedMode)
    }
}

/// Stack-RTL: resolver not yet implemented; resolving through it is a
/// development-stub fault that leaves the machine unchanged.
#[derive(Clone, Copy, PartialEq, Eq, Structural, Debug)]
pub struct StackRTL;

impl Instruction for StackRTL {
    open spec fn load_spec(&self, cpu: CPU, mem: MemView, is_byte: bool) -> (
        Result<u32, Fault>,
        CPU,
    ) {
        (Err(Fault::UnimplementedMode), cpu)
    }

    open spec fn store_spec(&self, cpu: CPU, mem: MemView, is_byte: bool, data: u32) -> (
        Result<(), Fault>,
        CPU,
        MemView,
    ) {
        (Err(Fault::UnimplementedMode), cpu, mem)
    }

    fn load(&self, cpu: &mut CPU, memory: &Memory, is_byte: bool) -> (r: Result<u32, Fault>) {
        Err(Fault::UnimplementedMode)
    }

    fn store(&self, cpu: &mut CPU, memory: &mut Memory, is_byte: bool, data: u32) -> (r: Result<
        (),
        Fault,
    >) {
        Err(Fault::UnimplementedMode)
    }
}

/// Stack-Relative: resolver not yet implemented; resolving through it is a
/// development-stub fault that leaves the machine unchanged.
#[derive(Clone, Copy, PartialEq, Eq, Structural, Debug)]
pub struct StackRelative;

impl Instruction for StackRelative {
    open spec fn load_spec(&self, cpu: CPU, mem: MemView, is_byte: bool) -> (
        Result<u32, Fault>,
        CPU,
    ) {
        (Err(Fault::UnimplementedMode), cpu)
    }

    open spec fn store_spec(&self, cpu: CPU, mem: MemView, is_byte: bool, data: u32) -> (
        Result<(), Fault>,
        CPU,
        MemView,
    ) {
        (Err(Fault::UnimplementedMode), cpu, mem)
    }

    fn load(&self, cpu: &mut CPU, memory: &Memory, is_byte: bool) -> (r: Result<u32, Fault>) {
        Err(Fault::UnimplementedMode)
    }

    fn store(&self, cpu: &mut CPU, memory: &mut Memory, is_byte: bool, data: u32) -> (r: Result<
        (),
        Fault,
    >) {
        Err(Fault::UnimplementedMode)
    }
}

/// Stack-Relative-Indirect-Indexed-Y: resolver not yet implemented; resolving through it is a
/// development-stub fault that leaves the machine unchanged.
#[derive(Clone, Copy, PartialEq, Eq, Structural, Debug)]
pub struct StackRelativeIndirectIndexedY;

impl Instruction for StackRelativeIndirectIndexedY {
    open spec fn load_spec(&self, cpu: CPU, mem: MemView, is_byte: bool) -> (
        Result<u32, Fault>,
        CPU,
    ) {
        (Err(Fault::UnimplementedMode), cpu)
    }

    open spec fn store_spec(&self, cpu: CPU, mem: MemView, is_byte: bool, data: u32) -> (
        Result<(), Fault>,
        CPU,
        MemView,
    ) {
        (Err(Fault::UnimplementedMode), cpu, mem)
    }

    fn load(&self, cpu: &mut CPU, memory: &Memory, is_byte: bool) -> (r: Result<u32, Fault>) {
        Err(Fault::UnimplementedMode)
    }

    fn store(&self, cpu: &mut CPU, memory: &mut Memory, is_byte: bool, data: u32) -> (r: Result<
        (),
        Fault,
    >) {
        Err(Fault::UnimplementedMode)
    }
}

} // verus!
