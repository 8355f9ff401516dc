//! Tests for the CPU core: end-to-end ADC scenarios, width-dependent
//! semantics, stack and subroutine round-trips, branches, flag
//! instructions, and the fault taxonomy of the decoder.

use snes_core::apu::APU;
use snes_core::cpu::{StatusFlags, CPU};
use snes_core::flags::Flags::{AccumulatorRegisterSizeFlag, CarryFlag, IndexRegisterSizeFlag,
    NativeModeFlag, NegativeFlag, OverflowFlag, ProgramBreakInterruptFlag, ZeroFlag};
use snes_core::memory::Memory;
use snes_core::snes::SNES;
use snes_core::{Fault, Mnemonic};

/// A bus over a minimal unheadered Lo-family image.
fn lorom_memory() -> Memory {
    Memory::new(vec![0u8; 0x8000]).unwrap()
}

/// A CPU placed at 0x001000 in native mode with 16-bit registers.
fn native_cpu(mem: &Memory) -> CPU {
    let mut cpu = CPU::new(mem);
    cpu.set_origin(0x001000);
    cpu.set_emulation_mode(false);
    cpu
}

/// Writes `program` into work RAM starting at 0x001000.
fn load_program(mem: &mut Memory, program: &[u8]) {
    for (i, b) in program.iter().enumerate() {
        mem.set_byte(0x001000 + i as u32, *b).unwrap();
    }
}

#[test]
fn test_adc_absolute() {
    let mut mem = lorom_memory();

    load_program(&mut mem, &[0x6D, 0x10, 0x03]);
    mem.set_byte(0x000310, 0x2E).unwrap();
    mem.set_byte(0x000311, 0x01).unwrap();

    let mut cpu = native_cpu(&mem);
    cpu.set_acc(40);

    cpu.execute(1, &mut mem).unwrap();

    assert_eq!(cpu.check_acc() as usize, 342);
    assert!(!cpu.check_flag(NegativeFlag));
    assert!(!cpu.check_flag(OverflowFlag));
    assert!(!cpu.check_flag(ZeroFlag));
    assert!(!cpu.check_flag(CarryFlag));
    assert_eq!(cpu.program_counter, 0x1003);
}

#[test]
fn test_adc_absolute_nc() {
    let mut mem = lorom_memory();

    load_program(&mut mem, &[0x6D, 0x10, 0x03]);
    mem.set_byte(0x000310, 0x00).unwrap();
    mem.set_byte(0x000311, 0x40).unwrap();

    let mut cpu = native_cpu(&mem);
    cpu.set_acc(0x4000);

    cpu.execute(1, &mut mem).unwrap();

    assert_eq!(cpu.check_acc() as usize, 0x8000);
    assert!(cpu.check_flag(NegativeFlag));
    assert!(cpu.check_flag(OverflowFlag));
    assert!(!cpu.check_flag(ZeroFlag));
    assert!(!cpu.check_flag(CarryFlag));
}

#[test]
fn test_adc_absolute_v() {
    let mut mem = lorom_memory();

    load_program(&mut mem, &[0x6D, 0x10, 0x03]);
    mem.set_byte(0x000310, 0x00).unwrap();
    mem.set_byte(0x000311, 0x80).unwrap();

    let mut cpu = native_cpu(&mem);
    cpu.set_acc(0x8000);

    cpu.execute(1, &mut mem).unwrap();

    // unsigned wrap of two negative operands: the sum of two values at or
    // above 0x8000 always leaves the signed range, so Overflow is set
    assert_eq!(cpu.check_acc() as usize, 0);
    assert!(!cpu.check_flag(NegativeFlag));
    assert!(cpu.check_flag(OverflowFlag));
    assert!(cpu.check_flag(ZeroFlag));
    assert!(cpu.check_flag(CarryFlag));
}

#[test]
fn test_adc_absolute_z() {
    let mut mem = lorom_memory();

    load_program(&mut mem, &[0x6D, 0x10, 0x03]);
    mem.set_byte(0x000310, 0x00).unwrap();
    mem.set_byte(0x000311, 0x00).unwrap();

    let mut cpu = native_cpu(&mem);
    cpu.set_acc(0x0000);

    cpu.execute(1, &mut mem).unwrap();

    assert_eq!(cpu.check_acc() as usize, 0);
    assert!(!cpu.check_flag(NegativeFlag));
    assert!(!cpu.check_flag(OverflowFlag));
    assert!(cpu.check_flag(ZeroFlag));
    assert!(!cpu.check_flag(CarryFlag));
}

#[test]
fn test_adc_carry_in() {
    let mut mem = lorom_memory();
    load_program(&mut mem, &[0x69, 0x01, 0x00]);

    let mut cpu = native_cpu(&mem);
    cpu.set_acc(10);
    cpu.processor_status.carry = true;

    cpu.execute(1, &mut mem).unwrap();
    assert_eq!(cpu.check_acc(), 12);
    assert!(!cpu.check_flag(CarryFlag));
}

#[test]
fn test_adc_byte_width_preserves_high_byte() {
    let mut mem = lorom_memory();
    load_program(&mut mem, &[0x69, 0xF0]);

    let mut cpu = native_cpu(&mem);
    cpu.set_flag(StatusFlags::AccumulatorRegisterSize, true);
    cpu.set_acc(0x1220);

    cpu.execute(1, &mut mem).unwrap();
    // 0x20 + 0xF0 wraps to 0x10 with carry out; the high byte 0x12 stays
    assert_eq!(cpu.check_acc(), 0x1210);
    assert!(cpu.check_flag(CarryFlag));
    assert!(!cpu.check_flag(ZeroFlag));
    assert!(!cpu.check_flag(NegativeFlag));
    assert_eq!(cpu.program_counter, 0x1002);
}

#[test]
fn test_cpu_new_reset_state() {
    let mut img = vec![0u8; 0x8000];
    img[0x7FFC] = 0x00;
    img[0x7FFD] = 0x80;
    let mem = Memory::new(img).unwrap();
    let cpu = CPU::new(&mem);
    assert_eq!(cpu.program_bank, 0x80);
    assert_eq!(cpu.program_counter, 0x8000);
    assert!(cpu.emulation_mode);
    assert_eq!(cpu.accumulator, 0);
    assert!(cpu.check_flag(ProgramBreakInterruptFlag) == false);
    assert!(!cpu.check_flag(NativeModeFlag));
}

#[test]
fn test_unknown_opcode() {
    let mut mem = lorom_memory();
    load_program(&mut mem, &[0x02]);
    let mut cpu = native_cpu(&mem);
    assert_eq!(cpu.run(&mut mem).unwrap_err(), Fault::UnknownOpcode { opcode: 0x02 });
}

#[test]
fn test_unimplemented_instruction() {
    let mut mem = lorom_memory();
    load_program(&mut mem, &[0x04, 0x40]);
    let mut cpu = native_cpu(&mem);
    assert_eq!(
        cpu.run(&mut mem).unwrap_err(),
        Fault::UnimplementedInstruction { which: Mnemonic::Tsb }
    );
}

#[test]
fn test_unimplemented_mode() {
    let mut mem = lorom_memory();
    load_program(&mut mem, &[0x01, 0x40]);
    let mut cpu = native_cpu(&mem);
    assert_eq!(cpu.run(&mut mem).unwrap_err(), Fault::UnimplementedMode);
}

#[test]
fn test_stack_round_trip_phd_pld() {
    let mut mem = lorom_memory();
    load_program(&mut mem, &[0x0B, 0x2B]);

    let mut cpu = native_cpu(&mem);
    cpu.stack_pointer = 0x1FF0;
    cpu.direct_page = 0xBEEF;

    cpu.run(&mut mem).unwrap();
    assert_eq!(cpu.stack_pointer, 0x1FEE);

    cpu.direct_page = 0;
    cpu.run(&mut mem).unwrap();

    assert_eq!(cpu.direct_page, 0xBEEF);
    assert_eq!(cpu.stack_pointer, 0x1FF0);
    assert!(cpu.check_flag(NegativeFlag));
    assert!(!cpu.check_flag(ZeroFlag));
}

#[test]
fn test_jsr_rts_round_trip() {
    let mut mem = lorom_memory();
    // JSR 0x1F00 at 0x1000; RTS at the target
    load_program(&mut mem, &[0x20, 0x00, 0x1F]);
    mem.set_byte(0x001F00, 0x60).unwrap();

    let mut cpu = native_cpu(&mem);
    cpu.stack_pointer = 0x1FF0;

    cpu.run(&mut mem).unwrap();
    assert_eq!(cpu.program_counter, 0x1F00);
    assert_eq!(cpu.program_bank, 0);
    assert_eq!(cpu.stack_pointer, 0x1FEE);

    cpu.run(&mut mem).unwrap();
    assert_eq!(cpu.program_counter, 0x1003);
    assert_eq!(cpu.program_bank, 0);
    assert_eq!(cpu.stack_pointer, 0x1FF0);
}

#[test]
fn test_branch_taken_and_not_taken() {
    let mut mem = lorom_memory();
    load_program(&mut mem, &[0xD0, 0x05]);

    let mut cpu = native_cpu(&mem);
    cpu.processor_status.zero = false;
    cpu.run(&mut mem).unwrap();
    // displacement is relative to the byte after the operand
    assert_eq!(cpu.program_counter, 0x1007);

    let mut cpu = native_cpu(&mem);
    cpu.processor_status.zero = true;
    cpu.run(&mut mem).unwrap();
    assert_eq!(cpu.program_counter, 0x1002);
}

#[test]
fn test_branch_backward() {
    let mut mem = lorom_memory();
    load_program(&mut mem, &[0x10, 0xFB]);

    let mut cpu = native_cpu(&mem);
    cpu.processor_status.negative = false;
    cpu.run(&mut mem).unwrap();
    assert_eq!(cpu.program_counter, 0x0FFD);
}

#[test]
fn test_lda_widths() {
    let mut mem = lorom_memory();
    load_program(&mut mem, &[0xA9, 0x34, 0x12]);

    let mut cpu = native_cpu(&mem);
    cpu.run(&mut mem).unwrap();
    assert_eq!(cpu.check_acc(), 0x1234);
    assert_eq!(cpu.program_counter, 0x1003);

    // at byte width only the low byte is replaced and one byte is consumed
    let mut cpu = native_cpu(&mem);
    cpu.processor_status.acc_size = true;
    cpu.set_acc(0xAB00);
    cpu.run(&mut mem).unwrap();
    assert_eq!(cpu.check_acc(), 0xAB34);
    assert_eq!(cpu.program_counter, 0x1002);
}

#[test]
fn test_ldx_ldy_byte_width_clears_high_byte() {
    let mut mem = lorom_memory();
    load_program(&mut mem, &[0xA2, 0x91]);

    let mut cpu = native_cpu(&mem);
    cpu.set_flag(StatusFlags::IndexRegisterSize, true);
    cpu.index_x = 0x7777;
    cpu.run(&mut mem).unwrap();
    assert_eq!(cpu.index_x, 0x0091);
    assert!(cpu.check_flag(NegativeFlag));

    let mut mem = lorom_memory();
    load_program(&mut mem, &[0xA0, 0x00, 0x00]);
    let mut cpu = native_cpu(&mem);
    cpu.index_y = 0x1234;
    cpu.run(&mut mem).unwrap();
    assert_eq!(cpu.index_y, 0);
    assert!(cpu.check_flag(ZeroFlag));
}

#[test]
fn test_sta_absolute() {
    let mut mem = lorom_memory();
    load_program(&mut mem, &[0x8D, 0x00, 0x03]);

    let mut cpu = native_cpu(&mem);
    cpu.set_acc(0xBEEF);
    cpu.run(&mut mem).unwrap();

    assert_eq!(mem.get_byte(0x000300).unwrap(), 0xEF);
    assert_eq!(mem.get_byte(0x000301).unwrap(), 0xBE);
    assert_eq!(cpu.program_counter, 0x1003);
}

#[test]
fn test_stz_byte_width() {
    let mut mem = lorom_memory();
    load_program(&mut mem, &[0x64, 0x40]);
    mem.set_byte(0x000040, 0xAA).unwrap();
    mem.set_byte(0x000041, 0xBB).unwrap();

    let mut cpu = native_cpu(&mem);
    cpu.processor_status.acc_size = true;
    cpu.run(&mut mem).unwrap();

    assert_eq!(mem.get_byte(0x000040).unwrap(), 0x00);
    // at byte width the neighbouring byte is untouched
    assert_eq!(mem.get_byte(0x000041).unwrap(), 0xBB);
}

#[test]
fn test_cmp_flags() {
    let mut mem = lorom_memory();
    load_program(&mut mem, &[0xC9, 0x03, 0x00]);
    let mut cpu = native_cpu(&mem);
    cpu.set_acc(5);
    cpu.run(&mut mem).unwrap();
    assert!(cpu.check_flag(CarryFlag));
    assert!(!cpu.check_flag(ZeroFlag));
    assert!(!cpu.check_flag(NegativeFlag));

    let mut mem = lorom_memory();
    load_program(&mut mem, &[0xC9, 0x05, 0x00]);
    let mut cpu = native_cpu(&mem);
    cpu.set_acc(5);
    cpu.run(&mut mem).unwrap();
    assert!(cpu.check_flag(CarryFlag));
    assert!(cpu.check_flag(ZeroFlag));

    let mut mem = lorom_memory();
    load_program(&mut mem, &[0xC9, 0x07, 0x00]);
    let mut cpu = native_cpu(&mem);
    cpu.set_acc(5);
    cpu.run(&mut mem).unwrap();
    assert!(!cpu.check_flag(CarryFlag));
    assert!(cpu.check_flag(NegativeFlag));
}

#[test]
fn test_rep_sep() {
    let mut mem = lorom_memory();
    load_program(&mut mem, &[0xE2, 0x21, 0xC2, 0x21]);

    let mut cpu = native_cpu(&mem);
    cpu.run(&mut mem).unwrap();
    assert!(cpu.processor_status.carry);
    assert!(cpu.processor_status.acc_size);

    cpu.run(&mut mem).unwrap();
    assert!(!cpu.processor_status.carry);
    assert!(!cpu.processor_status.acc_size);
}

#[test]
fn test_rep_protects_size_flags_in_emulation_mode() {
    let mut mem = lorom_memory();
    load_program(&mut mem, &[0xC2, 0x30]);

    let mut cpu = CPU::new(&mem);
    cpu.set_origin(0x001000);
    cpu.processor_status.acc_size = true;
    cpu.processor_status.index_size = true;

    cpu.run(&mut mem).unwrap();
    assert!(cpu.processor_status.acc_size);
    assert!(cpu.processor_status.index_size);
}

#[test]
fn test_iny_dex_widths() {
    let mut mem = lorom_memory();
    load_program(&mut mem, &[0xC8]);
    let mut cpu = native_cpu(&mem);
    cpu.index_y = 0xFFFF;
    cpu.run(&mut mem).unwrap();
    assert_eq!(cpu.index_y, 0);
    assert!(cpu.check_flag(ZeroFlag));

    let mut mem = lorom_memory();
    load_program(&mut mem, &[0xCA]);
    let mut cpu = native_cpu(&mem);
    cpu.processor_status.index_size = true;
    cpu.index_x = 0x0000;
    cpu.run(&mut mem).unwrap();
    assert_eq!(cpu.index_x, 0x00FF);
    assert!(cpu.check_flag(NegativeFlag));
}

#[test]
fn test_xba() {
    let mut mem = lorom_memory();
    load_program(&mut mem, &[0xEB]);
    let mut cpu = native_cpu(&mem);
    cpu.set_acc(0x0034);
    cpu.run(&mut mem).unwrap();
    assert_eq!(cpu.check_acc(), 0x3400);
    // the zero flag reflects the new low byte, the old high byte
    assert!(cpu.check_flag(ZeroFlag));
    assert!(!cpu.check_flag(NegativeFlag));
}

#[test]
fn test_xce() {
    let mut mem = lorom_memory();
    load_program(&mut mem, &[0xFB]);
    let mut cpu = CPU::new(&mem);
    cpu.set_origin(0x001000);
    cpu.processor_status.carry = false;
    assert!(cpu.emulation_mode);

    cpu.run(&mut mem).unwrap();
    assert!(!cpu.emulation_mode);
    assert!(cpu.processor_status.carry);
    assert!(cpu.check_flag(NativeModeFlag));
}

#[test]
fn test_tax_txs() {
    let mut mem = lorom_memory();
    load_program(&mut mem, &[0xAA, 0x9A]);
    let mut cpu = native_cpu(&mem);
    cpu.set_acc(0x9ABC);
    cpu.run(&mut mem).unwrap();
    assert_eq!(cpu.index_x, 0x9ABC);
    assert!(cpu.check_flag(NegativeFlag));
    cpu.run(&mut mem).unwrap();
    assert_eq!(cpu.stack_pointer, 0x9ABC);
}

#[test]
fn test_inc_accumulator_byte_width() {
    let mut mem = lorom_memory();
    load_program(&mut mem, &[0x1A]);
    let mut cpu = native_cpu(&mem);
    cpu.processor_status.acc_size = true;
    cpu.set_acc(0x12FF);
    cpu.run(&mut mem).unwrap();
    // the low byte wraps; the high byte stays
    assert_eq!(cpu.check_acc(), 0x1200);
    assert!(cpu.check_flag(ZeroFlag));
}

#[test]
fn test_inc_direct_page() {
    let mut mem = lorom_memory();
    load_program(&mut mem, &[0xE6, 0x40]);
    mem.set_byte(0x000040, 5).unwrap();

    let mut cpu = native_cpu(&mem);
    cpu.processor_status.acc_size = true;
    cpu.run(&mut mem).unwrap();

    assert_eq!(mem.get_byte(0x000040).unwrap(), 6);
    // the operand byte is consumed exactly once
    assert_eq!(cpu.program_counter, 0x1002);
}

#[test]
fn test_ora() {
    let mut mem = lorom_memory();
    load_program(&mut mem, &[0x09, 0x0F, 0x00]);
    let mut cpu = native_cpu(&mem);
    cpu.set_acc(0x80F0);
    cpu.run(&mut mem).unwrap();
    assert_eq!(cpu.check_acc(), 0x80FF);
    assert!(cpu.check_flag(NegativeFlag));
    assert!(!cpu.check_flag(ZeroFlag));
}

#[test]
fn test_jmp_absolute() {
    let mut mem = lorom_memory();
    load_program(&mut mem, &[0x4C, 0x34, 0x12]);
    let mut cpu = native_cpu(&mem);
    cpu.run(&mut mem).unwrap();
    assert_eq!(cpu.program_counter, 0x1234);
    assert_eq!(cpu.program_bank, 0);
}

#[test]
fn test_php_encoding() {
    let mut mem = lorom_memory();
    load_program(&mut mem, &[0x08]);
    let mut cpu = native_cpu(&mem);
    cpu.stack_pointer = 0x1FF0;
    cpu.processor_status.carry = true;
    cpu.processor_status.negative = true;
    cpu.run(&mut mem).unwrap();
    assert_eq!(mem.get_byte(0x001FF0).unwrap(), 0x81);
    assert_eq!(cpu.stack_pointer, 0x1FEF);
}

#[test]
fn test_brk_emulation_mode() {
    let mut img = vec![0u8; 0x8000];
    // the emulation-mode break-vector table entry holds the handler address
    img[0x7FFE] = 0x34;
    img[0x7FFF] = 0x12;
    let mut mem = Memory::new(img).unwrap();
    load_program(&mut mem, &[0x00]);

    let mut cpu = CPU::new(&mem);
    cpu.set_origin(0x001000);
    cpu.stack_pointer = 0x1FF0;
    cpu.processor_status.decimal = true;

    cpu.run(&mut mem).unwrap();

    // continue at the handler address read from the vector table entry
    assert_eq!(cpu.program_counter, 0x1234);
    assert!(cpu.processor_status.irq_disable);
    assert!(!cpu.processor_status.decimal);
    // the pushes were forced into stack page 1: the counter past the
    // signature byte little-endian, then the status byte
    assert_eq!(mem.get_byte(0x0001EF).unwrap(), 0x02);
    assert_eq!(mem.get_byte(0x0001F0).unwrap(), 0x10);
    // the pushed status has the break bit (shared with index-size) set
    assert_eq!(mem.get_byte(0x0001EE).unwrap() & 0x10, 0x10);
    assert_eq!(cpu.stack_pointer, 0x1FED);
}

#[test]
fn test_brk_native_mode() {
    let mut img = vec![0u8; 0x8000];
    // the native-mode break-vector table entry
    img[0x7FE6] = 0x00;
    img[0x7FE7] = 0x40;
    let mut mem = Memory::new(img).unwrap();
    load_program(&mut mem, &[0x00]);

    let mut cpu = CPU::new(&mem);
    cpu.set_origin(0x051000);
    cpu.set_emulation_mode(false);
    cpu.stack_pointer = 0x1FF0;

    cpu.run(&mut mem).unwrap();

    assert_eq!(cpu.program_counter, 0x4000);
    assert_eq!(cpu.program_bank, 0);
    // program bank, counter and status were pushed, four bytes in all
    assert_eq!(mem.get_byte(0x001FF0).unwrap(), 0x05);
    assert_eq!(mem.get_byte(0x001FEF).unwrap(), 0x10);
    assert_eq!(mem.get_byte(0x001FEE).unwrap(), 0x02);
    assert_eq!(cpu.stack_pointer, 0x1FEC);
}

#[test]
fn test_emulation_stack_page() {
    let mut mem = lorom_memory();
    load_program(&mut mem, &[0x48]);

    let mut cpu = CPU::new(&mem);
    cpu.set_origin(0x001000);
    cpu.stack_pointer = 0x0000;
    cpu.set_acc(0x42);

    cpu.run(&mut mem).unwrap();
    // in emulation mode the push lands in stack page 1, whatever the
    // stored pointer's high byte; the stored pointer itself is not clamped
    assert_eq!(mem.get_byte(0x000100).unwrap(), 0x42);
    assert_eq!(cpu.stack_pointer, 0xFFFF);
}

#[test]
fn test_check_flag_effective_width() {
    let mem = lorom_memory();
    let mut cpu = CPU::new(&mem);
    // in emulation mode the size flags read as 8-bit whatever is stored,
    // and the stored bits stay untouched
    assert!(cpu.check_flag(AccumulatorRegisterSizeFlag));
    assert!(cpu.check_flag(IndexRegisterSizeFlag));
    assert!(!cpu.processor_status.acc_size);
    assert!(!cpu.processor_status.index_size);

    cpu.set_emulation_mode(false);
    assert!(!cpu.check_flag(AccumulatorRegisterSizeFlag));
    cpu.set_flag(StatusFlags::AccumulatorRegisterSize, true);
    assert!(cpu.check_flag(AccumulatorRegisterSizeFlag));
}

#[test]
fn test_execute_stops_at_first_fault() {
    let mut mem = lorom_memory();
    load_program(&mut mem, &[0x18, 0x18, 0x02]);
    let mut cpu = native_cpu(&mem);

    cpu.execute(2, &mut mem).unwrap();
    assert_eq!(cpu.program_counter, 0x1002);

    let mut cpu = native_cpu(&mem);
    assert_eq!(
        cpu.execute(3, &mut mem).unwrap_err(),
        Fault::UnknownOpcode { opcode: 0x02 }
    );
}

#[test]
fn test_apu_handshake_window_unmodeled() {
    let mut mem = lorom_memory();
    let mut apu = APU::new();
    // the handshake ports sit in the unmodeled hardware-register window
    assert_eq!(apu.run(&mut mem).unwrap_err(), Fault::UnmappedRegion { addr: 0x2140 });
}

#[test]
fn test_snes_round() {
    let mut mem = lorom_memory();
    load_program(&mut mem, &[0x18]);
    let mut cpu = CPU::new(&mem);
    cpu.set_origin(0x001000);
    cpu.processor_status.carry = true;

    let mut snes = SNES::new(cpu, APU::new(), mem);
    // the CPU step retires, then the APU step hits the unmodeled window
    assert_eq!(snes.run().unwrap_err(), Fault::UnmappedRegion { addr: 0x2140 });
    assert!(!snes.cpu.processor_status.carry);
    assert_eq!(snes.cpu.program_counter, 0x1001);
}

#[test]
fn test_adc_absolute_long() {
    let mut mem = lorom_memory();
    load_program(&mut mem, &[0x6F, 0x10, 0x03, 0x00]);
    mem.set_byte(0x000310, 0x01).unwrap();
    mem.set_byte(0x000311, 0x01).unwrap();

    let mut cpu = native_cpu(&mem);
    cpu.set_acc(1);
    cpu.run(&mut mem).unwrap();
    assert_eq!(cpu.check_acc(), 0x0102);
    // three operand bytes consumed
    assert_eq!(cpu.program_counter, 0x1004);
}

#[test]
fn test_ora_dp_indirect_long_indexed_y() {
    let mut mem = lorom_memory();
    load_program(&mut mem, &[0x17, 0x20]);
    // bank-0 pointer at direct_page + 0x20
    mem.set_byte(0x000120, 0x00).unwrap();
    mem.set_byte(0x000121, 0x04).unwrap();
    mem.set_byte(0x000122, 0x00).unwrap();
    // operand word at pointer target + Y
    mem.set_byte(0x000402, 0x0F).unwrap();
    mem.set_byte(0x000403, 0x00).unwrap();

    let mut cpu = native_cpu(&mem);
    cpu.direct_page = 0x0100;
    cpu.index_y = 2;
    cpu.set_acc(0xF0);
    cpu.run(&mut mem).unwrap();
    assert_eq!(cpu.check_acc(), 0xFF);
    assert_eq!(cpu.program_counter, 0x1002);
}

#[test]
fn test_direct_page_emulation_low_byte() {
    let mut mem = lorom_memory();
    load_program(&mut mem, &[0xA5, 0x10]);
    mem.set_byte(0x000110, 0x77).unwrap();

    let mut cpu = CPU::new(&mem);
    cpu.set_origin(0x001000);
    // in emulation mode the direct-page register's low byte is implicitly zero
    cpu.direct_page = 0x01FF;
    cpu.run(&mut mem).unwrap();
    assert_eq!(cpu.check_acc() & 0xFF, 0x77);
}

#[test]
fn test_pha_widths() {
    let mut mem = lorom_memory();
    load_program(&mut mem, &[0x48]);
    let mut cpu = native_cpu(&mem);
    cpu.stack_pointer = 0x1FF0;
    cpu.set_acc(0xABCD);
    cpu.run(&mut mem).unwrap();
    // the word goes out little-endian, low byte below the pointer
    assert_eq!(mem.get_byte(0x001FEF).unwrap(), 0xCD);
    assert_eq!(mem.get_byte(0x001FF0).unwrap(), 0xAB);
    assert_eq!(cpu.stack_pointer, 0x1FEE);

    let mut mem = lorom_memory();
    load_program(&mut mem, &[0x48]);
    let mut cpu = native_cpu(&mem);
    cpu.set_flag(StatusFlags::AccumulatorRegisterSize, true);
    cpu.stack_pointer = 0x1FF0;
    cpu.set_acc(0xABCD);
    cpu.run(&mut mem).unwrap();
    assert_eq!(mem.get_byte(0x001FF0).unwrap(), 0xCD);
    assert_eq!(cpu.stack_pointer, 0x1FEF);
}

#[test]
fn test_jsr_faults_after_push_when_mode_is_stubbed() {
    let mut mem = lorom_memory();
    load_program(&mut mem, &[0xFC, 0x00, 0x1F]);
    let mut cpu = native_cpu(&mem);
    cpu.stack_pointer = 0x1FF0;
    // the return address is pushed before the stubbed resolver refuses
    assert_eq!(cpu.run(&mut mem).unwrap_err(), Fault::UnimplementedMode);
    assert_eq!(cpu.stack_pointer, 0x1FEE);
    assert_eq!(mem.get_byte(0x001FEF).unwrap(), 0x02);
    assert_eq!(mem.get_byte(0x001FF0).unwrap(), 0x10);
}

#[test]
fn test_stz_word_width() {
    let mut mem = lorom_memory();
    load_program(&mut mem, &[0x9C, 0x00, 0x03]);
    mem.set_byte(0x000300, 0xAA).unwrap();
    mem.set_byte(0x000301, 0xBB).unwrap();
    let mut cpu = native_cpu(&mem);
    cpu.run(&mut mem).unwrap();
    assert_eq!(mem.get_byte(0x000300).unwrap(), 0);
    assert_eq!(mem.get_byte(0x000301).unwrap(), 0);
}
