//! Tests for the memory bus: header parsing, region classification, the
//! ROM bank-mapping formulas, and the fault taxonomy.

use snes_core::memory::{vector_location, Memory, Rom, RomType, Vectors};
use snes_core::Fault;

/// A minimal unheadered Lo-family image: the zero bytes in the name field
/// are ASCII and the makeup byte selects the plain variant.
fn lorom_image() -> Vec<u8> {
    vec![0u8; 0x8000]
}

/// A minimal unheadered Hi-family image: the Lo-family name position holds
/// a non-ASCII byte, so classification falls through to the Hi position.
fn hirom_image() -> Vec<u8> {
    let mut rom = vec![0u8; 0x10000];
    rom[0x7FC0] = 0x80;
    rom
}

fn lorom_memory() -> Memory {
    Memory::new(lorom_image()).unwrap()
}

#[test]
fn test_memory() {
    let mut mem = lorom_memory();

    for i in 1u32..11 {
        mem.set_byte(i, i as u8).unwrap();
    }

    for i in 1u32..11 {
        assert_eq!(i as usize, mem.get_byte(i).unwrap() as usize);
    }

    assert_eq!(0, mem.get_byte(12).unwrap() as usize);
}

#[test]
fn test_rom_header_lorom() {
    let mut img = lorom_image();
    img[0x7FFC] = 0x34;
    img[0x7FFD] = 0x12;
    let rom = Rom::new(img).unwrap();
    assert_eq!(rom.rom_type, RomType::LoROM);
    assert!(!rom.headered);
    assert_eq!(rom.reset_vector, 0x1234);
}

#[test]
fn test_rom_header_fastlorom() {
    let mut img = lorom_image();
    img[0x7FD5] = 0x30;
    let rom = Rom::new(img).unwrap();
    assert_eq!(rom.rom_type, RomType::FastLoROM);
}

#[test]
fn test_rom_header_hirom() {
    let mut img = hirom_image();
    img[0xFFFC] = 0x00;
    img[0xFFFD] = 0x80;
    let rom = Rom::new(img).unwrap();
    assert_eq!(rom.rom_type, RomType::HiROM);
    assert_eq!(rom.reset_vector, 0x8000);
}

#[test]
fn test_rom_header_fasthirom() {
    let mut img = hirom_image();
    img[0xFFD5] = 0x31;
    let rom = Rom::new(img).unwrap();
    assert_eq!(rom.rom_type, RomType::FastHiROM);
}

#[test]
fn test_rom_header_extended_families_refused() {
    let mut img = lorom_image();
    img[0x7FD5] = 0x32;
    assert_eq!(Rom::new(img).unwrap_err(), Fault::UnsupportedRomType);

    let mut img = hirom_image();
    img[0xFFD5] = 0x35;
    assert_eq!(Rom::new(img).unwrap_err(), Fault::UnsupportedRomType);
}

#[test]
fn test_rom_header_malformed() {
    assert_eq!(Rom::new(Vec::new()).unwrap_err(), Fault::MalformedHeader);
    assert_eq!(Rom::new(vec![0x80u8; 0x8000]).unwrap_err(), Fault::MalformedHeader);
}

#[test]
fn test_rom_name_field() {
    let mut img = lorom_image();
    for (i, b) in b"FOREVER 16 BIT".iter().enumerate() {
        img[0x7FC0 + i] = *b;
    }
    let rom = Rom::new(img).unwrap();
    assert_eq!(&rom.name()[..14], b"FOREVER 16 BIT");
    assert_eq!(rom.name().len(), 21);
}

#[test]
fn test_lorom_rom_read_and_mirror() {
    let mut img = lorom_image();
    img[0x123] = 0xAB;
    let mem = Memory::new(img).unwrap();
    // bank 0, offset 0x8123 maps to image index 0x123
    assert_eq!(mem.get_byte(0x008123).unwrap(), 0xAB);
    // the upper mirror answers identically
    assert_eq!(mem.get_byte(0x808123).unwrap(), 0xAB);
    // repeated reads return the same value
    assert_eq!(mem.get_byte(0x008123).unwrap(), 0xAB);
}

#[test]
fn test_lorom_bank_stride() {
    let mut img = vec![0u8; 0x10000];
    img[0x8000] = 0x5C;
    let mem = Memory::new(img).unwrap();
    // bank 1 contributes the next 32 KB window: image index 1 * 0x8000
    assert_eq!(mem.get_byte(0x018000).unwrap(), 0x5C);
}

#[test]
fn test_hirom_bank_mapping() {
    let mut img = hirom_image();
    img[0x1234] = 0x77;
    let mem = Memory::new(img).unwrap();
    // bank 0x40 is fully ROM-backed at image index 0 * 0x10000
    assert_eq!(mem.get_byte(0x401234).unwrap(), 0x77);
    // the 0xC0 mirror answers identically
    assert_eq!(mem.get_byte(0xC01234).unwrap(), 0x77);
}

#[test]
fn test_headered_image_offset() {
    let mut img = vec![0u8; 0x8000 + 512];
    img[512 + 0x321] = 0x99;
    let mem = Memory::new(img).unwrap();
    assert!(mem.rom.headered);
    // the 512-byte copier header is skipped when indexing the image
    assert_eq!(mem.get_byte(0x008321).unwrap(), 0x99);
}

#[test]
fn test_rom_write_is_fatal() {
    let mut mem = lorom_memory();
    assert_eq!(mem.set_byte(0x008000, 1).unwrap_err(), Fault::RomWrite { addr: 0x008000 });
    assert_eq!(mem.set_byte(0xFE8000, 1).unwrap_err(), Fault::RomWrite { addr: 0xFE8000 });
}

#[test]
fn test_invalid_addresses() {
    let mem = lorom_memory();
    assert_eq!(mem.get_byte(0x002000).unwrap_err(), Fault::InvalidAddress { addr: 0x002000 });
    assert_eq!(mem.get_byte(0x004100).unwrap_err(), Fault::InvalidAddress { addr: 0x004100 });
    // a read past the image's end has no defined mapping
    assert_eq!(mem.get_byte(0x3F8000).unwrap_err(), Fault::InvalidAddress { addr: 0x3F8000 });
}

#[test]
fn test_unmapped_windows() {
    let mem = lorom_memory();
    assert_eq!(mem.get_byte(0x002100).unwrap_err(), Fault::UnmappedRegion { addr: 0x002100 });
    assert_eq!(mem.get_byte(0x700000).unwrap_err(), Fault::UnmappedRegion { addr: 0x700000 });
    assert_eq!(mem.get_byte(0x7E0000).unwrap_err(), Fault::UnmappedRegion { addr: 0x7E0000 });
}

#[test]
fn test_register_windows_read_write() {
    let mut mem = lorom_memory();
    mem.set_byte(0x004200, 7).unwrap();
    assert_eq!(mem.get_byte(0x004200).unwrap(), 7);
    mem.set_byte(0x004310, 9).unwrap();
    assert_eq!(mem.get_byte(0x004310).unwrap(), 9);
    // the gap between DMA channels has no defined mapping
    assert_eq!(mem.set_byte(0x00430B, 1).unwrap_err(), Fault::InvalidAddress { addr: 0x00430B });
}

#[test]
fn test_interrupt_vectors() {
    let lo = lorom_memory();
    assert_eq!(lo.get_interrupt_vector(true), 0x7FFE);
    assert_eq!(lo.get_interrupt_vector(false), 0x7FEE);

    let hi = Memory::new(hirom_image()).unwrap();
    assert_eq!(hi.get_interrupt_vector(true), 0xFFFE);
    assert_eq!(hi.get_interrupt_vector(false), 0xFFEE);

    assert_eq!(vector_location(RomType::LoROM, true, Vectors::RESET), 0x7FFC);
    assert_eq!(vector_location(RomType::HiROM, true, Vectors::RESET), 0xFFFC);
    assert_eq!(vector_location(RomType::HiROM, false, Vectors::BRK), 0xFFE6);
    // the emulation-mode break vector shares its slot with IRQ
    assert_eq!(vector_location(RomType::HiROM, true, Vectors::BRK), 0xFFFE);
    assert_eq!(vector_location(RomType::LoROM, true, Vectors::BRK), 0x7FFE);
}

#[test]
fn test_read_vector_word() {
    let mut img = lorom_image();
    img[0x7FFA] = 0xCD;
    img[0x7FFB] = 0xAB;
    let mem = Memory::new(img).unwrap();
    assert_eq!(mem.read_vector_word(true, Vectors::NMI).unwrap(), 0xABCD);

    // with a leading copier header the table entry shifts with the image
    let mut img = vec![0u8; 0x8000 + 512];
    img[512 + 0x7FFA] = 0x77;
    img[512 + 0x7FFB] = 0x66;
    let mem = Memory::new(img).unwrap();
    assert_eq!(mem.read_vector_word(true, Vectors::NMI).unwrap(), 0x6677);
}
