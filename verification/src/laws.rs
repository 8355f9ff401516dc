//! Laws the core obeys, stated once and proved against the specifications
//! the executable functions are verified to implement.

use vstd::prelude::*;

use crate::cpu::{spec_adc16, spec_adc8, spec_lda8, spec_ora8, spec_jsr_apply, spec_rts_apply, CPU,
    ProcessorStatus};
use crate::memory::{spec_get_byte, spec_read_target, MemView, Target, RAM_SIZE};
use crate::modes::{spec_pull_word, spec_push_word, spec_stack_addr, wrap16, Absolute,
    Instruction, InstructionType, StackPush, StackRTS};
use crate::Fault;

verus! {

/// Flag correctness for ADC at 16-bit width: for every accumulator value,
/// operand and carry-in, the result is the sum modulo 65536; Carry-out
/// holds exactly when the sum reaches 65536; Zero when the result is zero;
/// Negative when its top bit is set; and Overflow when the operands share
/// a sign that the result does not keep.
pub proof fn lemma_adc16_flags(acc: u16, operand: u16, carry: bool, p: ProcessorStatus)
    ensures
        ({
            let cin: int = if carry {
                1
            } else {
                0
            };
            let (result, ps) = spec_adc16(acc, operand, carry, p);
            &&& result == (acc + operand + cin) % 0x10000
            &&& ps.carry == (acc + operand + cin >= 0x10000)
            &&& ps.zero == (result == 0)
            &&& ps.negative == (result >= 0x8000)
            &&& ps.overflow == (((acc >= 0x8000) == (operand >= 0x8000)) && ((result >= 0x8000)
                != (acc >= 0x8000)))
        }),
{
}

/// Byte-width truncation for ADC: at 8-bit width the stored high byte of
/// the accumulator is unchanged by the operation; only the low byte and
/// the flags reflect the 8-bit result.
pub proof fn lemma_adc8_high_byte(acc: u16, data: u8, carry: bool, p: ProcessorStatus)
    ensures
        spec_adc8(acc, data, carry, p).0 / 0x100 == acc / 0x100,
        spec_adc8(acc, data, carry, p).0 % 0x100 == (acc % 0x100 + data + (if carry {
            1int
        } else {
            0int
        })) % 0x100,
{
}

/// Byte-width truncation for ORA: the accumulator's high byte is unchanged
/// by the 8-bit operation.
pub proof fn lemma_ora8_high_byte(acc: u16, data: u8, p: ProcessorStatus)
    ensures
        spec_ora8(acc, data, p).0 / 0x100 == acc / 0x100,
{
    let lo = ((acc as int % 0x100) as u8) | data;
    assert(lo < 0x100);
}

/// Byte-width truncation for LDA: the accumulator's high byte is unchanged
/// by the 8-bit load.
pub proof fn lemma_lda8_high_byte(acc: u16, data: u8, p: ProcessorStatus)
    ensures
        spec_lda8(acc, data, p).0 / 0x100 == acc / 0x100,
        spec_lda8(acc, data, p).0 % 0x100 == data,
{
}

/// Whether the two cells a word push touches sit in the bank-0 work-RAM
/// window. In emulation mode the stack page is forced to 1, which is
/// always inside the window; in native mode the pointer itself must name
/// cells there.
pub open spec fn stack_in_ram(c: CPU) -> bool {
    c.emulation_mode || (1 <= c.stack_pointer <= 0x1FFF)
}

/// Stack round-trip: for every 16-bit value, pushing it and pulling it
/// back yields the value again, and the machine after the pair — the stack
/// pointer included — equals the machine before it. The two stack cells
/// must sit in work RAM, which in emulation mode they always do.
pub proof fn lemma_stack_round_trip(c: CPU, m: MemView, v: u16)
    requires
        m.wf(),
        stack_in_ram(c),
    ensures
        ({
            let (r1, c1, m1) = spec_push_word(c, m, v);
            &&& r1 == Ok::<(), Fault>(())
            &&& spec_pull_word(c1, m1).0 == Ok::<u32, Fault>(v as u32)
            &&& spec_pull_word(c1, m1).1 == c
        }),
{
    reveal(crate::memory::spec_read_target);
    reveal(crate::memory::spec_write_target);
    let (r1, c1, m1) = spec_push_word(c, m, v);
    let hi_cell = spec_stack_addr(c, c.stack_pointer);
    let lo_cell = spec_stack_addr(c, wrap16(c.stack_pointer - 1));
    assert(lo_cell != hi_cell);
    assert(m1.ram[lo_cell as int] == (v as int % 0x100) as u8);
    assert(m1.ram[hi_cell as int] == (v as int / 0x100) as u8);
    assert(spec_stack_addr(c1, wrap16(c1.stack_pointer + 1)) == lo_cell);
    assert(spec_stack_addr(c1, wrap16(c1.stack_pointer + 2)) == hi_cell);
    assert(spec_pull_word(c1, m1).0 == Ok::<u32, Fault>(v as u32));
}

/// JSR/RTS round-trip: from a call instruction whose opcode was fetched at
/// `p` in bank `b` (so the handler starts at counter `p + 1`), executing
/// JSR absolute and then RTS leaves the counter at `p + 3` — the length of
/// the 3-byte call — in the same bank `b`. The return address travels
/// through the stack, so the two stack cells must sit in work RAM, which
/// in emulation mode they always do.
#[verifier::rlimit(100)]
pub proof fn lemma_jsr_rts_round_trip(c: CPU, m: MemView)
    requires
        m.wf(),
        stack_in_ram(c),
    ensures
        ({
            let mode = Absolute { instruction_type: InstructionType::ControlTransfer };
            let (r1, c1, m1) = spec_jsr_apply(mode, c, m, false);
            r1 == Ok::<(), Fault>(()) ==> ({
                let (r2, c2, m2) = spec_rts_apply(StackRTS, c1, m1);
                &&& r2 == Ok::<(), Fault>(())
                &&& c2.program_counter == wrap16(c.program_counter + 2)
                &&& c2.program_bank == c.program_bank
            })
        }),
{
    let mode = Absolute { instruction_type: InstructionType::ControlTransfer };
    let (r1, c1, m1) = spec_jsr_apply(mode, c, m, false);
    if r1 == Ok::<(), Fault>(()) {
        let pc_ret = wrap16(c.program_counter + 1);
        lemma_stack_round_trip(c, m, pc_ret);
        let (rp, cp, mp) = spec_push_word(c, m, pc_ret);
        assert(StackPush.store_spec(c, m, false, pc_ret as u32) == spec_push_word(c, m, pc_ret));
        let (r2, c2, m2) = spec_rts_apply(StackRTS, c1, m1);
        assert(c1.stack_pointer == cp.stack_pointer);
        assert(c1.emulation_mode == cp.emulation_mode);
        assert(m1 == mp);
        assert(spec_pull_word(c1, m1).0 == spec_pull_word(cp, mp).0);
        assert(spec_pull_word(c1, m1).1.stack_pointer == wrap16(c1.stack_pointer + 2));
        assert(c2.program_counter == wrap16(pc_ret as int + 1));
        assert(wrap16(pc_ret as int + 1) == wrap16(c.program_counter + 2));
    }
}

/// Bank-mapping determinism: for a fixed memory-map family, header flag
/// and cartridge image, a read of a ROM-mapped address is a pure function
/// of the address — it does not depend on RAM, the register windows, or
/// any other hidden state, so repeated reads return the same value absent
/// intervening writes.
pub proof fn lemma_rom_read_deterministic(m1: MemView, m2: MemView, addr: u32)
    requires
        m1.rom.rom_type == m2.rom.rom_type,
        m1.rom.headered == m2.rom.headered,
        m1.rom.data == m2.rom.data,
        spec_read_target(m1.rom.rom_type, m1.rom.headered, addr) matches Target::Rom { .. },
    ensures
        spec_get_byte(m1, addr) == spec_get_byte(m2, addr),
{
}

} // verus!
