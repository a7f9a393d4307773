//! Serial peripherals: what the UART and USART drivers share.
//!
//! Both peripheral families poll the same six hardware-latched status flags,
//! report the same non-blocking outcomes, and derive their bit rate the same
//! way: the baud-rate generator divides the peripheral clock by sixteen times
//! the requested rate, truncating.

pub mod uart;
pub mod usart;

use vstd::prelude::*;

verus! {

/// A requested bit rate, in bits per second.
#[derive(Clone, Copy, PartialEq, Eq, Structural, Debug)]
pub struct BaudRate(pub u32);

/// Why a non-blocking operation returned without transporting a byte: the
/// device reported an error, or it simply is not ready yet and the caller
/// should poll again.
#[derive(Clone, Copy, PartialEq, Eq, Debug)]
pub enum NbError<E> {
    Other(E),
    WouldBlock,
}

/// The hardware-latched status flags shared by the UART status register and
/// the USART channel status register: overrun, framing error, parity error,
/// receiver ready, transmitter ready, transmitter empty.
#[derive(Clone, Copy, PartialEq, Eq, Structural, Debug)]
pub struct StatusFlags {
    pub ovre: bool,
    pub frame: bool,
    pub pare: bool,
    pub rxrdy: bool,
    pub txrdy: bool,
    pub txempty: bool,
}

impl StatusFlags {
    /// All six flags clear: the idle state a status register resets to.
    pub fn clear() -> (r: StatusFlags)
        ensures
            r == (StatusFlags {
                ovre: false,
                frame: false,
                pare: false,
                rxrdy: false,
                txrdy: false,
                txempty: false,
            }),
    {
        StatusFlags {
            ovre: false,
            frame: false,
            pare: false,
            rxrdy: false,
            txrdy: false,
            txempty: false,
        }
    }
}

/// The divisor the baud-rate generator is programmed with: the peripheral
/// clock divided by sixteen times the requested rate, truncated.
pub open spec fn spec_baud_divisor(clock_hz: u32, baud: u32) -> int
    recommends
        baud >= 1,
{
    clock_hz as int / (16 * baud as int)
}

/// Computes the baud divisor `clock_hz / (16 * baud)` in truncated integer
/// division.
pub fn baud_divisor(clock_hz: u32, baud: u32) -> (r: u32)
    requires
        baud >= 1,
    ensures
        r == spec_baud_divisor(clock_hz, baud),
{
    proof {
        vstd::arithmetic::div_mod::lemma_div_denominator(clock_hz as int, 16, baud as int);
    }
    clock_hz / 16 / baud
}

} // verus!
