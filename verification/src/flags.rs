//! Names for the processor-status flags as a test harness or host sees them,
//! including the two virtual ones: the native-mode bit, which lives outside
//! the status byte, and the break bit, which shares storage with the
//! index-size flag while in emulation mode.

use vstd::prelude::*;

verus! {

/// One of the processor-status flags.
#[derive(Clone, Copy, PartialEq, Eq, Structural, Debug)]
pub enum Flags {
    CarryFlag,
    ZeroFlag,
    IRQDisableFlag,
    DecimalFlag,
    IndexRegisterSizeFlag,
    AccumulatorRegisterSizeFlag,
    OverflowFlag,
    NegativeFlag,
    NativeModeFlag,
    ProgramBreakInterruptFlag,
}

} // verus!
