//! Hardware-abstraction core for a SAM V71 microcontroller: a pin
//! capability/state model and a serial (UART/USART) driver protocol, verified
//! against an explicit model of the memory-mapped configuration, status and
//! data registers.
//!
//! Every register block a driver touches is a plain value
//! ([`pmc::PmcRegisters`], [`gpio::PioRegisters`], [`serial::uart::UartRegisters`],
//! [`serial::usart::UsartRegisters`], [`watchdog::WdtRegisters`]), standing for
//! the state the hardware would hold after the same writes. Driver logic is
//! specified and proved over those values; the volatile accesses that mirror
//! them onto a real chip are the register-access layer's business, outside this
//! crate.

pub mod gpio;
pub mod pmc;
pub mod serial;
pub mod watchdog;
