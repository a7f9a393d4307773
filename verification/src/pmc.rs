//! Power-management controller: peripheral clock gates.
//!
//! Each peripheral instance has a fixed identifier; its clock gate must be
//! switched on before writes to its registers have any effect. The controller
//! state is modelled by the two clock-status words, one bit per identifier.

use vstd::prelude::*;

verus! {

/// Peripheral identifier of the parallel-I/O controller for port A.
pub const PID_PIOA: u8 = 10;
/// Peripheral identifier of the parallel-I/O controller for port B.
pub const PID_PIOB: u8 = 11;
/// Peripheral identifier of the parallel-I/O controller for port C.
pub const PID_PIOC: u8 = 12;
/// Peripheral identifier of the parallel-I/O controller for port D.
pub const PID_PIOD: u8 = 16;
/// Peripheral identifier of the parallel-I/O controller for port E.
pub const PID_PIOE: u8 = 17;
/// Peripheral identifier of UART0.
pub const PID_UART0: u8 = 7;
/// Peripheral identifier of UART1.
pub const PID_UART1: u8 = 8;
/// Peripheral identifier of UART2.
pub const PID_UART2: u8 = 44;
/// Peripheral identifier of UART3.
pub const PID_UART3: u8 = 45;
/// Peripheral identifier of UART4.
pub const PID_UART4: u8 = 46;
/// Peripheral identifier of USART0.
pub const PID_USART0: u8 = 13;
/// Peripheral identifier of USART1.
pub const PID_USART1: u8 = 14;
/// Peripheral identifier of USART2.
pub const PID_USART2: u8 = 15;

/// Clock-gate state of the power-management controller.
///
/// Bit `n` of `pcsr0` (for `n < 32`), or bit `n - 32` of `pcsr1` (for
/// `32 <= n < 64`), records whether the clock of the peripheral with
/// identifier `n` is running.
#[derive(Clone, Copy, PartialEq, Eq, Structural, Debug)]
pub struct PmcRegisters {
    pub pcsr0: u32,
    pub pcsr1: u32,
}

/// Whether the clock gate of peripheral `pid` is open in `pmc`.
pub open spec fn spec_clock_enabled(pmc: PmcRegisters, pid: u8) -> bool
    recommends
        pid < 64,
{
    if pid < 32 {
        pmc.pcsr0 & (1u32 << (pid as u32)) != 0
    } else {
        pmc.pcsr1 & (1u32 << ((pid - 32) as u32)) != 0
    }
}

/// The controller state after the clock gate of peripheral `pid` is opened.
pub open spec fn spec_enable_clock(pmc: PmcRegisters, pid: u8) -> PmcRegisters
    recommends
        pid < 64,
{
    if pid < 32 {
        PmcRegisters { pcsr0: pmc.pcsr0 | (1u32 << (pid as u32)), pcsr1: pmc.pcsr1 }
    } else {
        PmcRegisters { pcsr0: pmc.pcsr0, pcsr1: pmc.pcsr1 | (1u32 << ((pid - 32) as u32)) }
    }
}

/// Opens the clock gate of peripheral `pid`: sets its bit in the matching
/// clock-status word and leaves every other bit as it was.
pub fn enable_peripheral_clock(pmc: &mut PmcRegisters, pid: u8)
    requires
        pid < 64,
    ensures
        *final(pmc) == spec_enable_clock(*old(pmc), pid),
{
    if pid < 32 {
        pmc.pcsr0 = pmc.pcsr0 | (1u32 << (pid as u32));
    } else {
        pmc.pcsr1 = pmc.pcsr1 | (1u32 << ((pid - 32) as u32));
    }
}

/// Law: opening one clock gate opens exactly that one — afterwards `pid`'s
/// clock runs, and any other clock runs if and only if it already ran.
pub proof fn lemma_enable_clock_is_exact(pmc: PmcRegisters, pid: u8, other: u8)
    requires
        pid < 64,
        other < 64,
    ensures
        spec_clock_enabled(spec_enable_clock(pmc, pid), pid),
        other != pid ==> spec_clock_enabled(spec_enable_clock(pmc, pid), other)
            == spec_clock_enabled(pmc, other),
{
    assert(forall|v: u32, i: u32| i < 32 ==> (v | (1u32 << i)) & (1u32 << i) != 0) by (bit_vector);
    assert(forall|v: u32, i: u32, j: u32|
        i < 32 && j < 32 && i != j ==> ((v | (1u32 << i)) & (1u32 << j) != 0) == (v & (1u32 << j)
            != 0)) by (bit_vector);
}

} // verus!
