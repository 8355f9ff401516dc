//! The emulation session: owns the bus and lends it to the CPU core and
//! the audio stub in turn, one step each per round.

use vstd::prelude::*;

use crate::apu::{APU, spec_apu_run};
use crate::cpu::{CPU, spec_step};
use crate::memory::{Memory, MemView};
use crate::Fault;

verus! {

/// What one session round does: one CPU instruction, then one APU
/// handshake step, stopping at the first fault.
pub open spec fn spec_snes_run(c: CPU, m: MemView) -> (Result<(), Fault>, CPU, MemView) {
    let (r1, c1, m1) = spec_step(c, m);
    match r1 {
        Err(f) => (Err(f), c1, m1),
        Ok(_) => {
            let (r2, m2) = spec_apu_run(m1);
            (r2, c1, m2)
        },
    }
}

/// The console: the CPU core, the audio stub, and the bus they share.
pub struct SNES {
    pub cpu: CPU,
    pub apu: APU,
    pub memory: Memory,
}

impl SNES {
    /// Assembles a session from its parts.
    pub fn new(cpu: CPU, apu: APU, memory: Memory) -> (s: SNES)
        requires
            memory.wf(),
        ensures
            s.cpu == cpu,
            s.memory@ == memory@,
            s.memory.wf(),
    {
        SNES { cpu, apu, memory }
    }

    /// The session's bus invariant.
    pub open spec fn wf(&self) -> bool {
        self.memory.wf()
    }

    /// Runs one round: one CPU instruction, then one APU step.
    pub fn run(&mut self) -> (r: Result<(), Fault>)
        requires
            old(self).wf(),
        ensures
            final(self).wf(),
            (r, final(self).cpu, final(self).memory@) == spec_snes_run(
                old(self).cpu,
                old(self).memory@,
            ),
    {
        match self.cpu.run(&mut self.memory) {
            Ok(_) => {},
            Err(f) => {
                return Err(f);
            },
        }
        self.apu.run(&mut self.memory)
    }
}

} // verus!
