//! The memory bus: owns all addressable storage and maps a 24-bit
//! bank:offset address onto work RAM, hardware-register windows, cartridge
//! ROM and save RAM, applying the bank-layout rules of the cartridge's
//! memory-map family.

use vstd::prelude::*;

use crate::Fault;

verus! {

/// Bytes of work RAM the bus owns.
pub const RAM_SIZE: usize = 0x20000;

/// Address-bus-B register window size (0x2100..=0x2143).
pub const BREGS_SIZE: usize = 68;

/// WRAM register window size (0x2180..=0x2183).
pub const WRAMREGS_SIZE: usize = 4;

/// Internal CPU register window size (0x4200..=0x421F).
pub const CPUREGS_SIZE: usize = 32;

/// DMA register window size (0x4300..=0x437A).
pub const DMAREGS_SIZE: usize = 123;

/// Bytes of a leading copier header, present when the image's length is 512
/// bytes past a multiple of 1024.
pub const HEADERED_OFFSET: usize = 512;

/// Offset of the ASCII ROM-name field in a Lo-family image.
pub const LOROM_ROM_NAME_START: usize = 0x7FC0;

/// Offset of the makeup byte in a Lo-family image.
pub const LOROM_ROM_MAKEUP_BYTE: usize = 0x7FD5;

/// Makeup value marking the fast Lo variant.
pub const LOROM_FASTROM_VAL: u8 = 0x30;

/// Makeup value marking the extended Lo variant.
pub const EXLOROM_VAL: u8 = 0x32;

/// Offset of the ASCII ROM-name field in a Hi-family image.
pub const HIROM_ROM_NAME_START: usize = 0xFFC0;

/// Offset of the makeup byte in a Hi-family image.
pub const HIROM_ROM_MAKEUP_BYTE: usize = 0xFFD5;

/// Makeup value marking the fast Hi variant.
pub const HIROM_FASTROM_VAL: u8 = 0x31;

/// Makeup value marking the extended Hi variant.
pub const EXHIROM_VAL: u8 = 0x35;

/// The cartridge's memory-map family, derived once from its header bytes.
#[derive(Clone, Copy, PartialEq, Eq, Structural, Debug)]
pub enum RomType {
    LoROM,
    HiROM,
    FastLoROM,
    FastHiROM,
    ExLoROM,
    ExHiROM,
}

/// The families this core can map. The extended families are recognized in
/// the header but refused at construction.
pub open spec fn supported(rt: RomType) -> bool {
    rt == RomType::LoROM || rt == RomType::FastLoROM || rt == RomType::HiROM
        || rt == RomType::FastHiROM
}

/// The interrupt and reset vectors of the fixed vector tables.
#[derive(Clone, Copy, PartialEq, Eq, Structural, Debug)]
pub enum Vectors {
    COP,
    BRK,
    ABORT,
    NMI,
    RESET,
    IRQ,
}

/// Address of vector `v` in the table selected by the memory-map family and
/// the processor mode (emulation or native).
pub open spec fn spec_vector_location(rt: RomType, emu: bool, v: Vectors) -> u16 {
    if rt == RomType::LoROM || rt == RomType::FastLoROM {
        if emu {
            match v {
                Vectors::COP => 0x7FF4,
                Vectors::BRK => 0x7FFE,
                Vectors::ABORT => 0x7FF8,
                Vectors::NMI => 0x7FFA,
                Vectors::RESET => 0x7FFC,
                Vectors::IRQ => 0x7FFE,
            }
        } else {
            match v {
                Vectors::COP => 0x7FE4,
                Vectors::BRK => 0x7FE6,
                Vectors::ABORT => 0x7FE8,
                Vectors::NMI => 0x7FEA,
                Vectors::RESET => 0x7FEC,
                Vectors::IRQ => 0x7FEE,
            }
        }
    } else {
        if emu {
            match v {
                Vectors::COP => 0xFFF4,
                Vectors::BRK => 0xFFFE,
                Vectors::ABORT => 0xFFF8,
                Vectors::NMI => 0xFFFA,
                Vectors::RESET => 0xFFFC,
                Vectors::IRQ => 0xFFFE,
            }
        } else {
            match v {
                Vectors::COP => 0xFFE4,
                Vectors::BRK => 0xFFE6,
                Vectors::ABORT => 0xFFE8,
                Vectors::NMI => 0xFFEA,
                Vectors::RESET => 0xFFEC,
                Vectors::IRQ => 0xFFEE,
            }
        }
    }
}

/// Looks vector `v` up in the emulation- or native-mode table of the given
/// memory-map family.
pub fn vector_location(rt: RomType, emu: bool, v: Vectors) -> (r: u16)
    requires
        supported(rt),
    ensures
        r == spec_vector_location(rt, emu, v),
{
    let lo = matches!(rt, RomType::LoROM | RomType::FastLoROM);
    if lo {
        if emu {
            match v {
                Vectors::COP => 0x7FF4,
                Vectors::BRK => 0x7FFE,
                Vectors::ABORT => 0x7FF8,
                Vectors::NMI => 0x7FFA,
                Vectors::RESET => 0x7FFC,
                Vectors::IRQ => 0x7FFE,
            }
        } else {
            match v {
                Vectors::COP => 0x7FE4,
                Vectors::BRK => 0x7FE6,
                Vectors::ABORT => 0x7FE8,
                Vectors::NMI => 0x7FEA,
                Vectors::RESET => 0x7FEC,
                Vectors::IRQ => 0x7FEE,
            }
        }
    } else {
        if emu {
            match v {
                Vectors::COP => 0xFFF4,
                Vectors::BRK => 0xFFFE,
                Vectors::ABORT => 0xFFF8,
                Vectors::NMI => 0xFFFA,
                Vectors::RESET => 0xFFFC,
                Vectors::IRQ => 0xFFFE,
            }
        } else {
            match v {
                Vectors::COP => 0xFFE4,
                Vectors::BRK => 0xFFE6,
                Vectors::ABORT => 0xFFE8,
                Vectors::NMI => 0xFFEA,
                Vectors::RESET => 0xFFEC,
                Vectors::IRQ => 0xFFEE,
            }
        }
    }
}

/// The little-endian word stored at vector `v`'s table location in the
/// cartridge image (header offset applied): the address execution
/// continues at when that vector fires. A table entry outside the image is
/// a malformed-header fault.
pub open spec fn spec_vector_word(m: MemView, emu: bool, v: Vectors) -> Result<u16, Fault> {
    let loc = spec_vector_location(m.rom.rom_type, emu, v) as int + (if m.rom.headered {
        HEADERED_OFFSET as int
    } else {
        0
    });
    if loc + 1 < m.rom.data.len() {
        Ok((m.rom.data[loc] + m.rom.data[loc + 1] * 0x100) as u16)
    } else {
        Err(Fault::MalformedHeader)
    }
}

/// Mathematical model of a cartridge image and what the header said of it.
pub ghost struct RomView {
    pub data: Seq<u8>,
    pub rom_type: RomType,
    pub name: Seq<u8>,
    pub headered: bool,
    pub reset_vector: u16,
}

/// The cartridge image together with what was parsed from its header.
#[derive(Debug)]
pub struct Rom {
    pub data: Vec<u8>,
    pub rom_type: RomType,
    pub rom_name: Vec<u8>,
    pub headered: bool,
    pub reset_vector: u16,
}

impl View for Rom {
    type V = RomView;

    open spec fn view(&self) -> RomView {
        RomView {
            data: self.data@,
            rom_type: self.rom_type,
            name: self.rom_name@,
            headered: self.headered,
            reset_vector: self.reset_vector,
        }
    }
}

/// What the header bytes say: the family and the name field, or a fault when
/// no recognizable name field is in reach.
pub open spec fn spec_type_name(data: Seq<u8>, headered: bool) -> Result<(RomType, Seq<u8>), Fault> {
    let offset: int = if headered { HEADERED_OFFSET as int } else { 0 };
    if LOROM_ROM_NAME_START + offset < data.len() && data[LOROM_ROM_NAME_START + offset] <= 0x7F {
        if LOROM_ROM_MAKEUP_BYTE < data.len() {
            let rt = if data[LOROM_ROM_MAKEUP_BYTE as int] == LOROM_FASTROM_VAL {
                RomType::FastLoROM
            } else if data[LOROM_ROM_MAKEUP_BYTE as int] == EXLOROM_VAL {
                RomType::ExLoROM
            } else {
                RomType::LoROM
            };
            Ok((rt, spec_name_field(data, LOROM_ROM_NAME_START + offset)))
        } else {
            Err(Fault::MalformedHeader)
        }
    } else if HIROM_ROM_NAME_START + offset < data.len() && data[HIROM_ROM_NAME_START + offset]
        <= 0x7F {
        if HIROM_ROM_MAKEUP_BYTE < data.len() {
            let rt = if data[HIROM_ROM_MAKEUP_BYTE as int] == HIROM_FASTROM_VAL {
                RomType::FastHiROM
            } else if data[HIROM_ROM_MAKEUP_BYTE as int] == EXHIROM_VAL {
                RomType::ExHiROM
            } else {
                RomType::HiROM
            };
            Ok((rt, spec_name_field(data, HIROM_ROM_NAME_START + offset)))
        } else {
            Err(Fault::MalformedHeader)
        }
    } else {
        Err(Fault::MalformedHeader)
    }
}

/// Up to 21 bytes of the name field starting at `start`.
pub open spec fn spec_name_field(data: Seq<u8>, start: int) -> Seq<u8> {
    data.subrange(start, if start + 21 <= data.len() { start + 21 } else { data.len() as int })
}

/// What constructing a `Rom` from an image gives: the parsed header fields,
/// or the fault that refuses the image.
pub open spec fn spec_rom_new(data: Seq<u8>) -> Result<RomView, Fault> {
    let headered = data.len() % 1024 == HEADERED_OFFSET;
    let offset: int = if headered { HEADERED_OFFSET as int } else { 0 };
    match spec_type_name(data, headered) {
        Err(f) => Err(f),
        Ok((rt, name)) => if !supported(rt) {
            Err(Fault::UnsupportedRomType)
        } else {
            let loc = spec_vector_location(rt, true, Vectors::RESET) as int;
            if loc + offset + 1 < data.len() {
                Ok(
                    RomView {
                        data: data,
                        rom_type: rt,
                        name: name,
                        headered: headered,
                        reset_vector: (data[loc + offset] + data[loc + offset + 1] * 0x100) as u16,
                    },
                )
            } else {
                Err(Fault::MalformedHeader)
            }
        },
    }
}

impl Rom {
    /// Reads the header: detects a leading copier header by the image's
    /// length, classifies the memory-map family by the name field and the
    /// makeup byte, and takes the initial program counter from the
    /// emulation-mode reset vector.
    pub fn new(rom: Vec<u8>) -> (r: Result<Rom, Fault>)
        ensures
            match r {
                Ok(rv) => spec_rom_new(rom@) == Ok::<RomView, Fault>(rv@) && supported(rv@.rom_type),
                Err(f) => spec_rom_new(rom@) == Err::<RomView, Fault>(f),
            },
    {
        let headered = rom.len() % 1024 == HEADERED_OFFSET;
        let offset: usize = if headered {
            HEADERED_OFFSET
        } else {
            0
        };
        let (rom_type, rom_name) = match Rom::get_type_name(&rom, headered) {
            Ok(tn) => tn,
            Err(f) => {
                return Err(f);
            },
        };
        let lo = matches!(rom_type, RomType::LoROM | RomType::FastLoROM);
        let hi = matches!(rom_type, RomType::HiROM | RomType::FastHiROM);
        if !lo && !hi {
            return Err(Fault::UnsupportedRomType);
        }
        let vector_loc = vector_location(rom_type, true, Vectors::RESET) as usize;
        if vector_loc + offset + 1 >= rom.len() {
            return Err(Fault::MalformedHeader);
        }
        let low = rom[vector_loc + offset] as u16;
        let high = rom[vector_loc + offset + 1] as u16;
        Ok(
            Rom {
                data: rom,
                rom_type: rom_type,
                rom_name: rom_name,
                headered: headered,
                reset_vector: low + high * 0x100,
            },
        )
    }

    /// Classifies the image by which fixed offset holds an ASCII name field,
    /// and reads the makeup byte there to tell the plain, fast and extended
    /// sub-families apart.
    pub fn get_type_name(data: &Vec<u8>, headered: bool) -> (r: Result<(RomType, Vec<u8>), Fault>)
        ensures
            match r {
                Ok((rt, name)) => spec_type_name(data@, headered) == Ok::<_, Fault>(
                    (rt, name@),
                ),
                Err(f) => spec_type_name(data@, headered) == Err::<(RomType, Seq<u8>), Fault>(f),
            },
    {
        let offset: usize = if headered {
            HEADERED_OFFSET
        } else {
            0
        };
        if LOROM_ROM_NAME_START + offset < data.len() && data[LOROM_ROM_NAME_START + offset] <= 0x7F {
            if LOROM_ROM_MAKEUP_BYTE >= data.len() {
                return Err(Fault::MalformedHeader);
            }
            let makeup = data[LOROM_ROM_MAKEUP_BYTE];
            let rom_type = if makeup == LOROM_FASTROM_VAL {
                RomType::FastLoROM
            } else if makeup == EXLOROM_VAL {
                RomType::ExLoROM
            } else {
                RomType::LoROM
            };
            Ok((rom_type, Rom::name_field(data, LOROM_ROM_NAME_START + offset)))
        } else if HIROM_ROM_NAME_START + offset < data.len() && data[HIROM_ROM_NAME_START + offset]
            <= 0x7F {
            if HIROM_ROM_MAKEUP_BYTE >= data.len() {
                return Err(Fault::MalformedHeader);
            }
            let makeup = data[HIROM_ROM_MAKEUP_BYTE];
            let rom_type = if makeup == HIROM_FASTROM_VAL {
                RomType::FastHiROM
            } else if makeup == EXHIROM_VAL {
                RomType::ExHiROM
            } else {
                RomType::HiROM
            };
            Ok((rom_type, Rom::name_field(data, HIROM_ROM_NAME_START + offset)))
        } else {
            Err(Fault::MalformedHeader)
        }
    }

    /// Copies the up-to-21-byte name field out of the image.
    fn name_field(data: &Vec<u8>, start: usize) -> (r: Vec<u8>)
        requires
            start < data.len(),
        ensures
            r@ == spec_name_field(data@, start as int),
    {
        let end: usize = if data.len() >= 21 && start <= data.len() - 21 {
            start + 21
        } else {
            data.len()
        };
        let mut name: Vec<u8> = Vec::new();
        let mut i: usize = start;
        while i < end
            invariant
                start <= i <= end <= data.len(),
                name@ == data@.subrange(start as int, i as int),
            decreases end - i,
        {
            name.push(data[i]);
            assert(name@ == data@.subrange(start as int, i + 1 as int));
            i = i + 1;
        }
        assert(name@ == spec_name_field(data@, start as int));
        name
    }

    /// The byte at `i` of the raw image.
    pub fn data_at(&self, i: u32) -> (r: u8)
        requires
            i < self@.data.len(),
        ensures
            r == self@.data[i as int],
    {
        self.data[i as usize]
    }

    /// How many bytes the raw image holds.
    pub fn data_len(&self) -> (r: usize)
        ensures
            r == self@.data.len(),
    {
        self.data.len()
    }

    /// The ASCII name field read from the header.
    pub fn name(&self) -> (r: &Vec<u8>)
        ensures
            r@ == self@.name,
    {
        &self.rom_name
    }
}

/// Mathematical model of everything the bus addresses.
pub ghost struct MemView {
    pub ram: Seq<u8>,
    pub rom: RomView,
    pub bregs: Seq<u8>,
    pub wramregs: Seq<u8>,
    pub cpuregs: Seq<u8>,
    pub dmaregs: Seq<u8>,
}

impl MemView {
    /// The storage sizes the bus maintains, and a memory-map family it can
    /// actually map.
    pub open spec fn wf(self) -> bool {
        &&& self.ram.len() == RAM_SIZE
        &&& self.bregs.len() == BREGS_SIZE
        &&& self.wramregs.len() == WRAMREGS_SIZE
        &&& self.cpuregs.len() == CPUREGS_SIZE
        &&& self.dmaregs.len() == DMAREGS_SIZE
        &&& supported(self.rom.rom_type)
    }
}

/// Where in the bus's storage an address lands.
#[derive(Clone, Copy, PartialEq, Eq, Structural, Debug)]
pub enum Target {
    /// Work RAM at the given index.
    Ram { i: u32 },
    /// Internal CPU register window at the given index.
    CpuReg { i: u32 },
    /// DMA register window at the given index.
    DmaReg { i: u32 },
    /// Address-bus-B register window at the given index.
    BReg { i: u32 },
    /// WRAM register window at the given index.
    WramReg { i: u32 },
    /// Cartridge ROM at the given image index (header offset applied).
    Rom { i: u32 },
    /// A ROM-mapped address on the write path: read-only.
    RomGuard,
    /// A window this core does not model (hardware registers, save RAM,
    /// extended WRAM).
    Unmapped,
    /// No defined mapping: a fault of the decode that produced the address.
    Invalid,
}

/// ROM image index of a Lo-family address: each 64 KB bank contributes its
/// upper 32 KB window, so bank `b` (mirrors normalized) starts at
/// `b * 0x8000` in the image.
pub open spec fn spec_lo_rom_index(headered: bool, bank: int, off: int) -> int {
    (if bank >= 0x80 {
        bank - 0x80
    } else {
        bank
    }) * 0x8000 + (off - 0x8000) + (if headered {
        HEADERED_OFFSET as int
    } else {
        0
    })
}

/// ROM image index of a Hi-family address: the whole 64 KB bank is
/// ROM-backed, so normalized bank `b` starts at `b * 0x10000`.
pub open spec fn spec_hi_rom_index(headered: bool, norm_bank: int, off: int) -> int {
    norm_bank * 0x10000 + off + (if headered {
        HEADERED_OFFSET as int
    } else {
        0
    })
}

/// Whether `off` lands in the DMA register window (eleven registers per
/// channel, eight channels, starting at 0x4300).
pub open spec fn spec_in_dma_window(off: int) -> bool {
    0x4300 <= off <= 0x437A && (off - 0x4300) % 0x10 <= 0xA
}

/// Whether `off` lands in the internal CPU register window.
pub open spec fn spec_in_cpu_window(off: int) -> bool {
    0x4200 <= off <= 0x420D || 0x4210 <= off <= 0x421F
}

/// Classifies an address for a read, per the memory-map family. Opaque:
/// proofs that need the classification reveal it.
#[verifier::opaque]
pub open spec fn spec_read_target(rt: RomType, headered: bool, addr: u32) -> Target {
    let bank = addr as int / 0x10000;
    let off = addr as int % 0x10000;
    if rt == RomType::LoROM || rt == RomType::FastLoROM {
        if (0x00 <= bank <= 0x3F) || (0x80 <= bank <= 0xBF) {
            if off <= 0x1FFF {
                Target::Ram { i: off as u32 }
            } else if 0x2100 <= off <= 0x21FF || 0x3000 <= off <= 0x3FFF || 0x4000 <= off <= 0x40FF
                || 0x6000 <= off <= 0x7FFF {
                Target::Unmapped
            } else if spec_in_cpu_window(off) {
                Target::CpuReg { i: (off - 0x4200) as u32 }
            } else if spec_in_dma_window(off) {
                Target::DmaReg { i: (off - 0x4300) as u32 }
            } else if off >= 0x8000 {
                Target::Rom { i: spec_lo_rom_index(headered, bank, off) as u32 }
            } else {
                Target::Invalid
            }
        } else if (0x40 <= bank <= 0x6F) || (0xC0 <= bank <= 0xEF) {
            if off >= 0x8000 {
                Target::Rom { i: spec_lo_rom_index(headered, bank, off) as u32 }
            } else {
                Target::Invalid
            }
        } else if (0x70 <= bank <= 0x7D) || (0xF0 <= bank <= 0xFD) || bank == 0x7E || bank == 0x7F {
            Target::Unmapped
        } else if bank == 0xFE || bank == 0xFF {
            if off >= 0x8000 {
                Target::Rom { i: spec_lo_rom_index(headered, bank, off) as u32 }
            } else {
                Target::Unmapped
            }
        } else {
            Target::Invalid
        }
    } else if rt == RomType::HiROM || rt == RomType::FastHiROM {
        if (0x00 <= bank <= 0x1F) || (0x80 <= bank <= 0x9F) {
            if off <= 0x1FFF {
                Target::Ram { i: off as u32 }
            } else if 0x2100 <= off <= 0x21FF || 0x3000 <= off <= 0x3FFF || 0x4000 <= off <= 0x40FF
                || 0x4200 <= off <= 0x44FF || 0x6000 <= off <= 0x7FFF {
                Target::Unmapped
            } else if off >= 0x8000 {
                Target::Rom {
                    i: spec_hi_rom_index(
                        headered,
                        if bank >= 0x80 {
                            bank - 0x80
                        } else {
                            bank
                        },
                        off,
                    ) as u32,
                }
            } else {
                Target::Invalid
            }
        } else if (0x20 <= bank <= 0x3F) || (0xA0 <= bank <= 0xBF) {
            if off <= 0x1FFF || 0x2100 <= off <= 0x21FF || 0x3000 <= off <= 0x3FFF || 0x4000 <= off
                <= 0x40FF || 0x4200 <= off <= 0x44FF || 0x6000 <= off <= 0x7FFF {
                Target::Unmapped
            } else if off >= 0x8000 {
                Target::Rom {
                    i: spec_hi_rom_index(
                        headered,
                        if bank >= 0xA0 {
                            bank - 0x80
                        } else {
                            bank
                        },
                        off,
                    ) as u32,
                }
            } else {
                Target::Invalid
            }
        } else if (0x40 <= bank <= 0x7D) || (0xC0 <= bank <= 0xFD) {
            Target::Rom {
                i: spec_hi_rom_index(
                    headered,
                    if bank >= 0xC0 {
                        bank - 0xC0
                    } else {
                        bank - 0x40
                    },
                    off,
                ) as u32,
            }
        } else if bank == 0x7E || bank == 0x7F {
            Target::Unmapped
        } else if bank == 0xFE || bank == 0xFF {
            Target::Rom { i: spec_hi_rom_index(headered, bank - 0xC0, off) as u32 }
        } else {
            Target::Invalid
        }
    } else {
        Target::Invalid
    }
}

/// Classifies an address for a write. ROM-mapped addresses guard against the
/// write instead of resolving to an image index, and the Hi families expose
/// the bus-B and WRAM register windows. Opaque: proofs that need the
/// classification reveal it.
#[verifier::opaque]
pub open spec fn spec_write_target(rt: RomType, headered: bool, addr: u32) -> Target {
    let bank = addr as int / 0x10000;
    let off = addr as int % 0x10000;
    if rt == RomType::LoROM || rt == RomType::FastLoROM {
        if (0x00 <= bank <= 0x3F) || (0x80 <= bank <= 0xBF) {
            if off <= 0x1FFF {
                Target::Ram { i: off as u32 }
            } else if 0x2100 <= off <= 0x21FF || 0x3000 <= off <= 0x3FFF || 0x4000 <= off <= 0x40FF
                || 0x6000 <= off <= 0x7FFF {
                Target::Unmapped
            } else if spec_in_cpu_window(off) {
                Target::CpuReg { i: (off - 0x4200) as u32 }
            } else if spec_in_dma_window(off) {
                Target::DmaReg { i: (off - 0x4300) as u32 }
            } else if off >= 0x8000 {
                Target::RomGuard
            } else {
                Target::Invalid
            }
        } else if (0x40 <= bank <= 0x6F) || (0xC0 <= bank <= 0xEF) {
            if off >= 0x8000 {
                Target::RomGuard
            } else {
                Target::Invalid
            }
        } else if (0x70 <= bank <= 0x7D) || (0xF0 <= bank <= 0xFD) || bank == 0x7E || bank == 0x7F {
            Target::Unmapped
        } else if bank == 0xFE || bank == 0xFF {
            if off >= 0x8000 {
                Target::RomGuard
            } else {
                Target::Unmapped
            }
        } else {
            Target::Invalid
        }
    } else if rt == RomType::HiROM || rt == RomType::FastHiROM {
        if (0x00 <= bank <= 0x1F) || (0x80 <= bank <= 0x9F) {
            if off <= 0x1FFF {
                Target::Ram { i: off as u32 }
            } else if 0x2100 <= off <= 0x2143 {
                Target::BReg { i: (off - 0x2100) as u32 }
            } else if 0x2180 <= off <= 0x2183 {
                Target::WramReg { i: (off - 0x2180) as u32 }
            } else if 0x3000 <= off <= 0x3FFF || 0x4000 <= off <= 0x40FF || 0x6000 <= off <= 0x7FFF {
                Target::Unmapped
            } else if spec_in_cpu_window(off) {
                Target::CpuReg { i: (off - 0x4200) as u32 }
            } else if spec_in_dma_window(off) {
                Target::DmaReg { i: (off - 0x4300) as u32 }
            } else if off >= 0x8000 {
                Target::RomGuard
            } else {
                Target::Invalid
            }
        } else if (0x20 <= bank <= 0x3F) || (0xA0 <= bank <= 0xBF) {
            if off <= 0x1FFF || 0x2100 <= off <= 0x21FF || 0x3000 <= off <= 0x3FFF || 0x4000 <= off
                <= 0x40FF || 0x4200 <= off <= 0x44FF || 0x6000 <= off <= 0x7FFF {
                Target::Unmapped
            } else if off >= 0x8000 {
                Target::RomGuard
            } else {
                Target::Invalid
            }
        } else if (0x40 <= bank <= 0x7D) || (0xC0 <= bank <= 0xFD) || bank == 0xFE || bank == 0xFF {
            Target::RomGuard
        } else if bank == 0x7E || bank == 0x7F {
            Target::Unmapped
        } else {
            Target::Invalid
        }
    } else {
        Target::Invalid
    }
}

/// What a read at `addr` returns: the byte of the region the address maps
/// to, or the fault that classifies the miss.
pub open spec fn spec_get_byte(m: MemView, addr: u32) -> Result<u8, Fault> {
    match spec_read_target(m.rom.rom_type, m.rom.headered, addr) {
        Target::Ram { i } => Ok(m.ram[i as int]),
        Target::CpuReg { i } => Ok(m.cpuregs[i as int]),
        Target::DmaReg { i } => Ok(m.dmaregs[i as int]),
        Target::BReg { i } => Ok(m.bregs[i as int]),
        Target::WramReg { i } => Ok(m.wramregs[i as int]),
        Target::Rom { i } => if i < m.rom.data.len() {
            Ok(m.rom.data[i as int])
        } else {
            Err(Fault::InvalidAddress { addr })
        },
        Target::RomGuard => Err(Fault::RomWrite { addr }),
        Target::Unmapped => Err(Fault::UnmappedRegion { addr }),
        Target::Invalid => Err(Fault::InvalidAddress { addr }),
    }
}

/// What a write of `data` at `addr` does: the updated storage, or the fault
/// that refuses the write, with everything else unchanged.
pub open spec fn spec_set_byte(m: MemView, addr: u32, data: u8) -> (Result<(), Fault>, MemView) {
    match spec_write_target(m.rom.rom_type, m.rom.headered, addr) {
        Target::Ram { i } => (Ok(()), MemView { ram: m.ram.update(i as int, data), ..m }),
        Target::CpuReg { i } => (
            Ok(()),
            MemView { cpuregs: m.cpuregs.update(i as int, data), ..m },
        ),
        Target::DmaReg { i } => (
            Ok(()),
            MemView { dmaregs: m.dmaregs.update(i as int, data), ..m },
        ),
        Target::BReg { i } => (Ok(()), MemView { bregs: m.bregs.update(i as int, data), ..m }),
        Target::WramReg { i } => (
            Ok(()),
            MemView { wramregs: m.wramregs.update(i as int, data), ..m },
        ),
        Target::Rom { i: _ } => (Err(Fault::RomWrite { addr }), m),
        Target::RomGuard => (Err(Fault::RomWrite { addr }), m),
        Target::Unmapped => (Err(Fault::UnmappedRegion { addr }), m),
        Target::Invalid => (Err(Fault::InvalidAddress { addr }), m),
    }
}

/// The bus. Owns work RAM, the cartridge, and the register windows; exposes
/// byte-level reads and writes keyed by a full 24-bit address.
pub struct Memory {
    pub ram: Vec<u8>,
    pub rom: Rom,
    pub bregs: Vec<u8>,
    pub wramregs: Vec<u8>,
    pub cpuregs: Vec<u8>,
    pub dmaregs: Vec<u8>,
}

impl View for Memory {
    type V = MemView;

    open spec fn view(&self) -> MemView {
        MemView {
            ram: self.ram@,
            rom: self.rom@,
            bregs: self.bregs@,
            wramregs: self.wramregs@,
            cpuregs: self.cpuregs@,
            dmaregs: self.dmaregs@,
        }
    }
}

/// What constructing the bus from an image gives: zeroed storage around the
/// parsed cartridge, or the fault that refuses the image.
pub open spec fn spec_memory_new(data: Seq<u8>) -> Result<MemView, Fault> {
    match spec_rom_new(data) {
        Err(f) => Err(f),
        Ok(rv) => Ok(
            MemView {
                ram: Seq::new(RAM_SIZE as nat, |i: int| 0u8),
                rom: rv,
                bregs: Seq::new(BREGS_SIZE as nat, |i: int| 0u8),
                wramregs: Seq::new(WRAMREGS_SIZE as nat, |i: int| 0u8),
                cpuregs: Seq::new(CPUREGS_SIZE as nat, |i: int| 0u8),
                dmaregs: Seq::new(DMAREGS_SIZE as nat, |i: int| 0u8),
            },
        ),
    }
}

/// A vector of `n` zero bytes.
fn zeroed(n: usize) -> (r: Vec<u8>)
    ensures
        r@ == Seq::new(n as nat, |i: int| 0u8),
{
    let mut v: Vec<u8> = Vec::new();
    let mut i: usize = 0;
    while i < n
        invariant
            i <= n,
            v@ == Seq::new(i as nat, |j: int| 0u8),
        decreases n - i,
    {
        v.push(0);
        assert(v@ =~= Seq::new((i + 1) as nat, |j: int| 0u8));
        i = i + 1;
    }
    v
}

impl Memory {
    /// Builds the bus around a raw cartridge image: parses the header and
    /// zeroes all writable storage.
    pub fn new(rom: Vec<u8>) -> (r: Result<Memory, Fault>)
        ensures
            match r {
                Ok(m) => spec_memory_new(rom@) == Ok::<MemView, Fault>(m@) && m@.wf(),
                Err(f) => spec_memory_new(rom@) == Err::<MemView, Fault>(f),
            },
    {
        let parsed = match Rom::new(rom) {
            Ok(p) => p,
            Err(f) => {
                return Err(f);
            },
        };
        Ok(
            Memory {
                ram: zeroed(RAM_SIZE),
                rom: parsed,
                bregs: zeroed(BREGS_SIZE),
                wramregs: zeroed(WRAMREGS_SIZE),
                cpuregs: zeroed(CPUREGS_SIZE),
                dmaregs: zeroed(DMAREGS_SIZE),
            },
        )
    }

    /// The bus's storage invariant.
    pub open spec fn wf(&self) -> bool {
        self@.wf()
    }

    /// Reads one byte. The result is a pure function of the bus's contents
    /// and the address: the classification of `spec_get_byte` decides which
    /// region answers, and a miss is the fault that names why.
    pub fn get_byte(&self, addr: u32) -> (r: Result<u8, Fault>)
        requires
            self.wf(),
        ensures
            r == spec_get_byte(self@, addr),
    {
        proof {
            reveal(spec_read_target);
        }
        match read_target(self.rom.rom_type, self.rom.headered, addr) {
            Target::Ram { i } => Ok(self.ram[i as usize]),
            Target::CpuReg { i } => Ok(self.cpuregs[i as usize]),
            Target::DmaReg { i } => Ok(self.dmaregs[i as usize]),
            Target::BReg { i } => Ok(self.bregs[i as usize]),
            Target::WramReg { i } => Ok(self.wramregs[i as usize]),
            Target::Rom { i } => if (i as usize) < self.rom.data_len() {
                Ok(self.rom.data_at(i))
            } else {
                Err(Fault::InvalidAddress { addr })
            },
            Target::RomGuard => Err(Fault::RomWrite { addr }),
            Target::Unmapped => Err(Fault::UnmappedRegion { addr }),
            Target::Invalid => Err(Fault::InvalidAddress { addr }),
        }
    }

    /// Writes one byte, or refuses it: a ROM-mapped address is read-only and
    /// the write is a fault, never a silent no-op.
    pub fn set_byte(&mut self, addr: u32, data: u8) -> (r: Result<(), Fault>)
        requires
            old(self).wf(),
        ensures
            final(self).wf(),
            (r, final(self)@) == spec_set_byte(old(self)@, addr, data),
    {
        proof {
            reveal(spec_write_target);
        }
        match write_target(self.rom.rom_type, self.rom.headered, addr) {
            Target::Ram { i } => {
                self.ram[i as usize] = data;
                Ok(())
            },
            Target::CpuReg { i } => {
                self.cpuregs[i as usize] = data;
                Ok(())
            },
            Target::DmaReg { i } => {
                self.dmaregs[i as usize] = data;
                Ok(())
            },
            Target::BReg { i } => {
                self.bregs[i as usize] = data;
                Ok(())
            },
            Target::WramReg { i } => {
                self.wramregs[i as usize] = data;
                Ok(())
            },
            Target::Rom { i: _ } => Err(Fault::RomWrite { addr }),
            Target::RomGuard => Err(Fault::RomWrite { addr }),
            Target::Unmapped => Err(Fault::UnmappedRegion { addr }),
            Target::Invalid => Err(Fault::InvalidAddress { addr }),
        }
    }

    /// The interrupt-vector table address for the current processor mode,
    /// fixed by the memory-map family.
    pub fn get_interrupt_vector(&self, emu: bool) -> (r: u16)
        requires
            self.wf(),
        ensures
            r == spec_vector_location(self@.rom.rom_type, emu, Vectors::IRQ),
    {
        vector_location(self.rom.rom_type, emu, Vectors::IRQ)
    }

    /// Reads the little-endian word vector `v`'s table entry holds in the
    /// cartridge image: the address execution continues at when the vector
    /// fires.
    pub fn read_vector_word(&self, emu: bool, v: Vectors) -> (r: Result<u16, Fault>)
        requires
            self.wf(),
        ensures
            r == spec_vector_word(self@, emu, v),
    {
        let loc: usize = vector_location(self.rom.rom_type, emu, v) as usize + (
        if self.rom.headered {
            HEADERED_OFFSET
        } else {
            0
        });
        if loc + 1 < self.rom.data_len() {
            let low = self.rom.data_at(loc as u32) as u16;
            let high = self.rom.data_at((loc + 1) as u32) as u16;
            Ok(low + high * 0x100)
        } else {
            Err(Fault::MalformedHeader)
        }
    }
}

/// Proves that the classification keeps every register-window index inside
/// its window, so a well-formed bus answers every mapped read.
pub proof fn lemma_read_target_in_window(rt: RomType, headered: bool, addr: u32)
    ensures
        spec_read_target(rt, headered, addr) matches Target::Ram { i } ==> i < RAM_SIZE,
        spec_read_target(rt, headered, addr) matches Target::CpuReg { i } ==> i < CPUREGS_SIZE,
        spec_read_target(rt, headered, addr) matches Target::DmaReg { i } ==> i < DMAREGS_SIZE,
        spec_read_target(rt, headered, addr) matches Target::BReg { i } ==> i < BREGS_SIZE,
        spec_read_target(rt, headered, addr) matches Target::WramReg { i } ==> i < WRAMREGS_SIZE,
{
    reveal(spec_read_target);
}

/// Proves the same bounds for the write path.
pub proof fn lemma_write_target_in_window(rt: RomType, headered: bool, addr: u32)
    ensures
        spec_write_target(rt, headered, addr) matches Target::Ram { i } ==> i < RAM_SIZE,
        spec_write_target(rt, headered, addr) matches Target::CpuReg { i } ==> i < CPUREGS_SIZE,
        spec_write_target(rt, headered, addr) matches Target::DmaReg { i } ==> i < DMAREGS_SIZE,
        spec_write_target(rt, headered, addr) matches Target::BReg { i } ==> i < BREGS_SIZE,
        spec_write_target(rt, headered, addr) matches Target::WramReg { i } ==> i < WRAMREGS_SIZE,
{
    reveal(spec_write_target);
}

/// Classifies an address for a read; mirrors `spec_read_target` exactly.
fn read_target(rt: RomType, headered: bool, addr: u32) -> (t: Target)
    ensures
        t == spec_read_target(rt, headered, addr),
{
    proof {
        reveal(spec_read_target);
    }
    let bank: u32 = addr / 0x10000;
    let off: u32 = addr % 0x10000;
    let lo = matches!(rt, RomType::LoROM | RomType::FastLoROM);
    let hi = matches!(rt, RomType::HiROM | RomType::FastHiROM);
    if lo {
        if bank <= 0x3F || (0x80 <= bank && bank <= 0xBF) {
            if off <= 0x1FFF {
                Target::Ram { i: off }
            } else if (0x2100 <= off && off <= 0x21FF) || (0x3000 <= off && off <= 0x3FFF) || (
            0x4000 <= off && off <= 0x40FF) || (0x6000 <= off && off <= 0x7FFF) {
                Target::Unmapped
            } else if in_cpu_window(off) {
                Target::CpuReg { i: off - 0x4200 }
            } else if in_dma_window(off) {
                Target::DmaReg { i: off - 0x4300 }
            } else if off >= 0x8000 {
                Target::Rom { i: lo_rom_index(headered, bank, off) }
            } else {
                Target::Invalid
            }
        } else if (0x40 <= bank && bank <= 0x6F) || (0xC0 <= bank && bank <= 0xEF) {
            if off >= 0x8000 {
                Target::Rom { i: lo_rom_index(headered, bank, off) }
            } else {
                Target::Invalid
            }
        } else if (0x70 <= bank && bank <= 0x7D) || (0xF0 <= bank && bank <= 0xFD) || bank == 0x7E
            || bank == 0x7F {
            Target::Unmapped
        } else if bank == 0xFE || bank == 0xFF {
            if off >= 0x8000 {
                Target::Rom { i: lo_rom_index(headered, bank, off) }
            } else {
                Target::Unmapped
            }
        } else {
            Target::Invalid
        }
    } else if hi {
        if bank <= 0x1F || (0x80 <= bank && bank <= 0x9F) {
            if off <= 0x1FFF {
                Target::Ram { i: off }
            } else if (0x2100 <= off && off <= 0x21FF) || (0x3000 <= off && off <= 0x3FFF) || (
            0x4000 <= off && off <= 0x40FF) || (0x4200 <= off && off <= 0x44FF) || (0x6000 <= off
                && off <= 0x7FFF) {
                Target::Unmapped
            } else if off >= 0x8000 {
                let norm: u32 = if bank >= 0x80 {
                    bank - 0x80
                } else {
                    bank
                };
                Target::Rom { i: hi_rom_index(headered, norm, off) }
            } else {
                Target::Invalid
            }
        } else if (0x20 <= bank && bank <= 0x3F) || (0xA0 <= bank && bank <= 0xBF) {
            if off <= 0x1FFF || (0x2100 <= off && off <= 0x21FF) || (0x3000 <= off && off <= 0x3FFF)
                || (0x4000 <= off && off <= 0x40FF) || (0x4200 <= off && off <= 0x44FF) || (0x6000
                <= off && off <= 0x7FFF) {
                Target::Unmapped
            } else if off >= 0x8000 {
                let norm: u32 = if bank >= 0xA0 {
                    bank - 0x80
                } else {
                    bank
                };
                Target::Rom { i: hi_rom_index(headered, norm, off) }
            } else {
                Target::Invalid
            }
        } else if (0x40 <= bank && bank <= 0x7D) || (0xC0 <= bank && bank <= 0xFD) {
            let norm: u32 = if bank >= 0xC0 {
                bank - 0xC0
            } else {
                bank - 0x40
            };
            Target::Rom { i: hi_rom_index(headered, norm, off) }
        } else if bank == 0x7E || bank == 0x7F {
            Target::Unmapped
        } else if bank == 0xFE || bank == 0xFF {
            Target::Rom { i: hi_rom_index(headered, bank - 0xC0, off) }
        } else {
            Target::Invalid
        }
    } else {
        Target::Invalid
    }
}

/// Classifies an address for a write; mirrors `spec_write_target` exactly.
fn write_target(rt: RomType, headered: bool, addr: u32) -> (t: Target)
    ensures
        t == spec_write_target(rt, headered, addr),
{
    proof {
        reveal(spec_write_target);
    }
    let bank: u32 = addr / 0x10000;
    let off: u32 = addr % 0x10000;
    let lo = matches!(rt, RomType::LoROM | RomType::FastLoROM);
    let hi = matches!(rt, RomType::HiROM | RomType::FastHiROM);
    if lo {
        if bank <= 0x3F || (0x80 <= bank && bank <= 0xBF) {
            if off <= 0x1FFF {
                Target::Ram { i: off }
            } else if (0x2100 <= off && off <= 0x21FF) || (0x3000 <= off && off <= 0x3FFF) || (
            0x4000 <= off && off <= 0x40FF) || (0x6000 <= off && off <= 0x7FFF) {
                Target::Unmapped
            } else if in_cpu_window(off) {
                Target::CpuReg { i: off - 0x4200 }
            } else if in_dma_window(off) {
                Target::DmaReg { i: off - 0x4300 }
            } else if off >= 0x8000 {
                Target::RomGuard
            } else {
                Target::Invalid
            }
        } else if (0x40 <= bank && bank <= 0x6F) || (0xC0 <= bank && bank <= 0xEF) {
            if off >= 0x8000 {
                Target::RomGuard
            } else {
                Target::Invalid
            }
        } else if (0x70 <= bank && bank <= 0x7D) || (0xF0 <= bank && bank <= 0xFD) || bank == 0x7E
            || bank == 0x7F {
            Target::Unmapped
        } else if bank == 0xFE || bank == 0xFF {
            if off >= 0x8000 {
                Target::RomGuard
            } else {
                Target::Unmapped
            }
        } else {
            Target::Invalid
        }
    } else if hi {
        if bank <= 0x1F || (0x80 <= bank && bank <= 0x9F) {
            if off <= 0x1FFF {
                Target::Ram { i: off }
            } else if 0x2100 <= off && off <= 0x2143 {
                Target::BReg { i: off - 0x2100 }
            } else if 0x2180 <= off && off <= 0x2183 {
                Target::WramReg { i: off - 0x2180 }
            } else if (0x3000 <= off && off <= 0x3FFF) || (0x4000 <= off && off <= 0x40FF) || (
            0x6000 <= off && off <= 0x7FFF) {
                Target::Unmapped
            } else if in_cpu_window(off) {
                Target::CpuReg { i: off - 0x4200 }
            } else if in_dma_window(off) {
                Target::DmaReg { i: off - 0x4300 }
            } else if off >= 0x8000 {
                Target::RomGuard
            } else {
                Target::Invalid
            }
        } else if (0x20 <= bank && bank <= 0x3F) || (0xA0 <= bank && bank <= 0xBF) {
            if off <= 0x1FFF || (0x2100 <= off && off <= 0x21FF) || (0x3000 <= off && off <= 0x3FFF)
                || (0x4000 <= off && off <= 0x40FF) || (0x4200 <= off && off <= 0x44FF) || (0x6000
                <= off && off <= 0x7FFF) {
                Target::Unmapped
            } else if off >= 0x8000 {
                Target::RomGuard
            } else {
                Target::Invalid
            }
        } else if (0x40 <= bank && bank <= 0x7D) || (0xC0 <= bank && bank <= 0xFD) || bank == 0xFE
            || bank == 0xFF {
            Target::RomGuard
        } else if bank == 0x7E || bank == 0x7F {
            Target::Unmapped
        } else {
            Target::Invalid
        }
    } else {
        Target::Invalid
    }
}

/// Whether `off` lands in the internal CPU register window.
fn in_cpu_window(off: u32) -> (r: bool)
    ensures
        r == spec_in_cpu_window(off as int),
{
    (0x4200 <= off && off <= 0x420D) || (0x4210 <= off && off <= 0x421F)
}

/// Whether `off` lands in the DMA register window.
fn in_dma_window(off: u32) -> (r: bool)
    ensures
        r == spec_in_dma_window(off as int),
{
    0x4300 <= off && off <= 0x437A && (off - 0x4300) % 0x10 <= 0xA
}

/// ROM image index of a Lo-family address.
fn lo_rom_index(headered: bool, bank: u32, off: u32) -> (r: u32)
    requires
        bank <= 0xFF,
        0x8000 <= off <= 0xFFFF,
    ensures
        r == spec_lo_rom_index(headered, bank as int, off as int),
{
    let norm: u32 = if bank >= 0x80 {
        bank - 0x80
    } else {
        bank
    };
    let hdr: u32 = if headered {
        512
    } else {
        0
    };
    norm * 0x8000 + (off - 0x8000) + hdr
}

/// ROM image index of a Hi-family address, from the already-normalized bank.
fn hi_rom_index(headered: bool, norm_bank: u32, off: u32) -> (r: u32)
    requires
        norm_bank <= 0xFF,
        off <= 0xFFFF,
    ensures
        r == spec_hi_rom_index(headered, norm_bank as int, off as int),
{
    let hdr: u32 = if headered {
        512
    } else {
        0
    };
    norm_bank * 0x10000 + off + hdr
}

} // verus!
