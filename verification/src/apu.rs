//! The audio co-processor's handshake stub: the CPU core drives it through
//! the same byte-addressable bus interface as everything else.

use vstd::prelude::*;

use crate::memory::{Memory, MemView, spec_get_byte, spec_set_byte};
use crate::Fault;

verus! {

/// What one APU step does: watch the two handshake ports and, when the
/// guest has posted the expected pair, answer it. Reads short-circuit, so a
/// port that cannot be read faults only when it is actually consulted; on
/// this core's memory maps the ports sit in an unmodeled window, so the
/// first read reports that.
pub open spec fn spec_apu_run(m: MemView) -> (Result<(), Fault>, MemView) {
    match spec_get_byte(m, 0x2140) {
        Err(f) => (Err(f), m),
        Ok(a) => if a != 0xFF {
            (Ok(()), m)
        } else {
            match spec_get_byte(m, 0x2141) {
                Err(f) => (Err(f), m),
                Ok(b) => if b != 0xF0 {
                    (Ok(()), m)
                } else {
                    let (r1, m1) = spec_set_byte(m, 0x2140, 0xAA);
                    match r1 {
                        Err(f) => (Err(f), m1),
                        Ok(_) => spec_set_byte(m1, 0x2141, 0xBB),
                    }
                },
            }
        },
    }
}

/// The audio co-processor, modeled only as far as its bus handshake.
pub struct APU;

impl APU {
    /// Builds the co-processor stub.
    pub fn new() -> APU {
        APU
    }

    /// Runs one handshake step against the bus.
    pub fn run(&mut self, memory: &mut Memory) -> (r: Result<(), Fault>)
        requires
            old(memory).wf(),
        ensures
            final(memory).wf(),
            (r, final(memory)@) == spec_apu_run(old(memory)@),
    {
        let a = match memory.get_byte(0x2140) {
            Ok(v) => v,
            Err(f) => {
                return Err(f);
            },
        };
        if a != 0xFF {
            return Ok(());
        }
        let b = match memory.get_byte(0x2141) {
            Ok(v) => v,
            Err(f) => {
                return Err(f);
            },
        };
        if b != 0xF0 {
            return Ok(());
        }
        match memory.set_byte(0x2140, 0xAA) {
            Ok(_) => {},
            Err(f) => {
                return Err(f);
            },
        }
        memory.set_byte(0x2141, 0xBB)
    }
}

} // verus!
