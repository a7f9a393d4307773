//! UART driver: configuration programming and non-blocking byte transport.
//!
//! A [`Serial`] value owns one UART instance and the pins bound to it. Its
//! constructor checks the pin capability relation first and rejects an
//! unsupported pairing before any register is touched; on success it runs the
//! construction protocol once (clock gate, reset, mode and baud programming,
//! direction enable). Transport then polls the status flags of the
//! [`UartRegisters`] block: `read` and `write` never block, they report "would
//! block" instead, and `flush` succeeds exactly when the transmitter has fully
//! drained.

use vstd::prelude::*;
use crate::gpio::{Alternate, Pin, PortId};
use crate::pmc::{
    PmcRegisters,
    enable_peripheral_clock,
    spec_enable_clock,
    PID_UART0,
    PID_UART1,
    PID_UART2,
    PID_UART3,
    PID_UART4,
};
use crate::serial::{BaudRate, NbError, StatusFlags, baud_divisor, spec_baud_divisor};

verus! {

/// Identity of one of the five UART instances.
#[derive(Clone, Copy, PartialEq, Eq, Structural, Debug)]
pub enum UartId {
    Uart0,
    Uart1,
    Uart2,
    Uart3,
    Uart4,
}

/// The peripheral identifier whose clock gate feeds a UART instance.
pub open spec fn spec_uart_pid(id: UartId) -> u8 {
    match id {
        UartId::Uart0 => PID_UART0,
        UartId::Uart1 => PID_UART1,
        UartId::Uart2 => PID_UART2,
        UartId::Uart3 => PID_UART3,
        UartId::Uart4 => PID_UART4,
    }
}

impl UartId {
    /// Returns the instance's peripheral identifier.
    pub fn pid(self) -> (r: u8)
        ensures
            r == spec_uart_pid(self),
            r < 64,
    {
        match self {
            UartId::Uart0 => PID_UART0,
            UartId::Uart1 => PID_UART1,
            UartId::Uart2 => PID_UART2,
            UartId::Uart3 => PID_UART3,
            UartId::Uart4 => PID_UART4,
        }
    }
}

/// Parity setting of a UART channel.
#[derive(Clone, Copy, PartialEq, Eq, Structural, Debug)]
pub enum Parity {
    Even,
    Odd,
    Mark,
    Space,
    NoParity,
}

/// Channel mode of a UART: normal operation, automatic echo, or one of the
/// two loopback test modes.
#[derive(Clone, Copy, PartialEq, Eq, Structural, Debug)]
pub enum ChannelMode {
    Normal,
    Automatic,
    LocalLoopback,
    RemoteLoopback,
}

/// A receive error latched by the hardware, reported by `read` and never
/// retried or synthesized by the driver.
#[derive(Clone, Copy, PartialEq, Eq, Structural, Debug)]
pub enum UartError {
    Parity,
    Framing,
    Overrun,
}

/// The mode-register encoding of a parity setting.
pub open spec fn spec_parity_code(parity: Parity) -> u8 {
    match parity {
        Parity::Even => 0,
        Parity::Odd => 1,
        Parity::Space => 2,
        Parity::Mark => 3,
        Parity::NoParity => 4,
    }
}

/// Encodes a parity setting as its mode-register field value.
pub fn parity_code(parity: &Parity) -> (r: u8)
    ensures
        r == spec_parity_code(*parity),
{
    match parity {
        Parity::Even => 0,
        Parity::Odd => 1,
        Parity::Space => 2,
        Parity::Mark => 3,
        Parity::NoParity => 4,
    }
}

/// The mode-register encoding of a channel mode.
pub open spec fn spec_channel_mode_code(mode: ChannelMode) -> u8 {
    match mode {
        ChannelMode::Normal => 0,
        ChannelMode::Automatic => 1,
        ChannelMode::LocalLoopback => 2,
        ChannelMode::RemoteLoopback => 3,
    }
}

/// Encodes a channel mode as its mode-register field value.
pub fn channel_mode_code(mode: &ChannelMode) -> (r: u8)
    ensures
        r == spec_channel_mode_code(*mode),
{
    match mode {
        ChannelMode::Normal => 0,
        ChannelMode::Automatic => 1,
        ChannelMode::LocalLoopback => 2,
        ChannelMode::RemoteLoopback => 3,
    }
}

/// An abstract UART configuration, consumed once by driver construction.
#[derive(Debug)]
pub struct Config {
    pub baud_rate: BaudRate,
    pub parity: Parity,
    pub channel_mode: ChannelMode,
    pub digital_filter: bool,
}

impl Config {
    /// Bundles a configuration.
    pub fn new(
        baud_rate: BaudRate,
        parity: Parity,
        channel_mode: ChannelMode,
        digital_filter: bool,
    ) -> (r: Config)
        ensures
            r == (Config { baud_rate, parity, channel_mode, digital_filter }),
    {
        Config { baud_rate, parity, channel_mode, digital_filter }
    }
}

/// The capability relation's transmit half: whether the pin at
/// `(port, index)`, multiplexed to alternate function `af`, is a transmit
/// line of the instance `id`. The tuples are the chip's fixed
/// pin-multiplexing table.
pub open spec fn spec_tx_pin_supported(id: UartId, port: PortId, index: u8, af: u8) -> bool {
    match id {
        UartId::Uart0 => port == PortId::A && index == 10 && af == 0,
        UartId::Uart1 => (port == PortId::A && index == 4 && af == 2) || (port == PortId::A
            && index == 6 && af == 2) || (port == PortId::D && index == 26 && af == 3),
        UartId::Uart2 => port == PortId::D && index == 26 && af == 2,
        UartId::Uart3 => (port == PortId::D && index == 30 && af == 0) || (port == PortId::D
            && index == 31 && af == 1),
        UartId::Uart4 => (port == PortId::D && index == 19 && af == 2) || (port == PortId::D
            && index == 3 && af == 2),
    }
}

/// The capability relation's receive half.
pub open spec fn spec_rx_pin_supported(id: UartId, port: PortId, index: u8, af: u8) -> bool {
    match id {
        UartId::Uart0 => port == PortId::A && index == 9 && af == 0,
        UartId::Uart1 => port == PortId::A && index == 5 && af == 2,
        UartId::Uart2 => port == PortId::D && index == 25 && af == 2,
        UartId::Uart3 => port == PortId::D && index == 28 && af == 0,
        UartId::Uart4 => port == PortId::D && index == 18 && af == 2,
    }
}

/// Looks a transmit pairing up in the capability relation.
pub fn tx_pin_supported(id: UartId, port: PortId, index: u8, af: u8) -> (r: bool)
    ensures
        r == spec_tx_pin_supported(id, port, index, af),
{
    match id {
        UartId::Uart0 => port == PortId::A && index == 10 && af == 0,
        UartId::Uart1 => (port == PortId::A && index == 4 && af == 2) || (port == PortId::A
            && index == 6 && af == 2) || (port == PortId::D && index == 26 && af == 3),
        UartId::Uart2 => port == PortId::D && index == 26 && af == 2,
        UartId::Uart3 => (port == PortId::D && index == 30 && af == 0) || (port == PortId::D
            && index == 31 && af == 1),
        UartId::Uart4 => (port == PortId::D && index == 19 && af == 2) || (port == PortId::D
            && index == 3 && af == 2),
    }
}

/// Looks a receive pairing up in the capability relation.
pub fn rx_pin_supported(id: UartId, port: PortId, index: u8, af: u8) -> (r: bool)
    ensures
        r == spec_rx_pin_supported(id, port, index, af),
{
    match id {
        UartId::Uart0 => port == PortId::A && index == 9 && af == 0,
        UartId::Uart1 => port == PortId::A && index == 5 && af == 2,
        UartId::Uart2 => port == PortId::D && index == 25 && af == 2,
        UartId::Uart3 => port == PortId::D && index == 28 && af == 0,
        UartId::Uart4 => port == PortId::D && index == 18 && af == 2,
    }
}

/// The UART mode register, as named fields: the parity and channel-mode
/// encodings, the digital-filter bit, and whether the baud-rate source is the
/// peripheral clock.
#[derive(Clone, Copy, PartialEq, Eq, Structural, Debug)]
pub struct UartMr {
    pub par: u8,
    pub chmode: u8,
    pub filter: bool,
    pub periph_clk: bool,
}

/// Register state of one UART instance: mode register, baud-rate generator,
/// status flags, receive and transmit holding registers, and the
/// transmitter/receiver enable state the control register's write-only bits
/// leave behind. The status flags and `rhr` are hardware-latched; the driver
/// only reads them (except that reading a character releases `rxrdy`).
#[derive(Clone, Copy, PartialEq, Eq, Structural, Debug)]
pub struct UartRegisters {
    pub id: UartId,
    pub mr: UartMr,
    pub brgr: u32,
    pub sr: StatusFlags,
    pub rhr: u8,
    pub thr: u8,
    pub tx_enabled: bool,
    pub rx_enabled: bool,
}

/// The register state the construction protocol leaves behind: mode and
/// baud-rate generator programmed from the configuration, the latched error
/// flags cleared by the status reset, the directions enabled as requested,
/// and the data registers untouched.
pub open spec fn spec_uart_configured(
    regs: UartRegisters,
    config: Config,
    clock_hz: u32,
    txen: bool,
    rxen: bool,
) -> UartRegisters
    recommends
        config.baud_rate.0 >= 1,
{
    UartRegisters {
        id: regs.id,
        mr: UartMr {
            par: spec_parity_code(config.parity),
            chmode: spec_channel_mode_code(config.channel_mode),
            filter: config.digital_filter,
            periph_clk: true,
        },
        brgr: spec_baud_divisor(clock_hz, config.baud_rate.0) as u32,
        sr: StatusFlags { ovre: false, frame: false, pare: false, ..regs.sr },
        rhr: regs.rhr,
        thr: regs.thr,
        tx_enabled: txen,
        rx_enabled: rxen,
    }
}

/// Runs the construction protocol on an instance whose pairing has already
/// been admitted: opens the clock gate, resets and disables both directions
/// while clearing the latched errors, programs the mode and baud-rate
/// registers, then enables the requested directions.
fn apply_construction_protocol(
    regs: &mut UartRegisters,
    pmc: &mut PmcRegisters,
    config: Config,
    clock_hz: u32,
    txen: bool,
    rxen: bool,
)
    requires
        config.baud_rate.0 >= 1,
    ensures
        *final(regs) == spec_uart_configured(*old(regs), config, clock_hz, txen, rxen),
        *final(pmc) == spec_enable_clock(*old(pmc), spec_uart_pid(old(regs).id)),
{
    enable_peripheral_clock(pmc, regs.id.pid());
    regs.tx_enabled = false;
    regs.rx_enabled = false;
    regs.sr.ovre = false;
    regs.sr.frame = false;
    regs.sr.pare = false;
    regs.mr = UartMr {
        par: parity_code(&config.parity),
        chmode: channel_mode_code(&config.channel_mode),
        filter: config.digital_filter,
        periph_clk: true,
    };
    regs.brgr = baud_divisor(clock_hz, config.baud_rate.0);
    regs.tx_enabled = txen;
    regs.rx_enabled = rxen;
}

/// The transmit half of a split driver: exposes only `write` and `flush`,
/// addressed to the instance it was split from.
#[derive(Debug)]
pub struct Tx {
    pub id: UartId,
}

/// The receive half of a split driver: exposes only `read`.
#[derive(Debug)]
pub struct Rx {
    pub id: UartId,
}

/// A UART driver: owns one instance and the pin or pins bound to it. The
/// transmit slot and receive slot hold a bound alternate-function pin, or `()`
/// where that direction was not constructed.
pub struct Serial<TXPIN, RXPIN> {
    pub id: UartId,
    pub pins: (TXPIN, RXPIN),
}

/// What one poll of `read` returns, from the status snapshot alone: a latched
/// error in fixed priority order (overrun, then framing, then parity), else
/// the received character, else "would block".
pub open spec fn spec_serial_read_outcome(regs: UartRegisters) -> Result<u8, NbError<UartError>> {
    if regs.sr.ovre {
        Err(NbError::Other(UartError::Overrun))
    } else if regs.sr.frame {
        Err(NbError::Other(UartError::Framing))
    } else if regs.sr.pare {
        Err(NbError::Other(UartError::Parity))
    } else if regs.sr.rxrdy {
        Ok(regs.rhr)
    } else {
        Err(NbError::WouldBlock)
    }
}

/// The register state after one poll of `read`: taking a character releases
/// receiver-ready; every other poll writes nothing.
pub open spec fn spec_serial_read_next(regs: UartRegisters) -> UartRegisters {
    if !regs.sr.ovre && !regs.sr.frame && !regs.sr.pare && regs.sr.rxrdy {
        UartRegisters { sr: StatusFlags { rxrdy: false, ..regs.sr }, ..regs }
    } else {
        regs
    }
}

/// What one poll of `write` returns: success exactly when the transmitter is
/// ready to accept a character.
pub open spec fn spec_serial_write_outcome(regs: UartRegisters, byte: u8) -> Result<
    (),
    NbError<UartError>,
> {
    if regs.sr.txrdy {
        Ok(())
    } else {
        Err(NbError::WouldBlock)
    }
}

/// The register state after one poll of `write`: exactly one copy of the
/// character enters the transmit holding register when the transmitter was
/// ready, and nothing moves otherwise.
pub open spec fn spec_serial_write_next(regs: UartRegisters, byte: u8) -> UartRegisters {
    if regs.sr.txrdy {
        UartRegisters { thr: byte, ..regs }
    } else {
        regs
    }
}

/// What one poll of `flush` returns: success exactly when the transmitter has
/// fully drained. `flush` writes no register.
pub open spec fn spec_serial_flush_outcome(regs: UartRegisters) -> Result<
    (),
    NbError<UartError>,
> {
    if regs.sr.txempty {
        Ok(())
    } else {
        Err(NbError::WouldBlock)
    }
}

/// What one poll of the receive half's `read` returns; stated on its own so
/// that the split-transparency law can relate the halves to the whole driver.
pub open spec fn spec_rx_read_outcome(regs: UartRegisters) -> Result<u8, NbError<UartError>> {
    if regs.sr.ovre {
        Err(NbError::Other(UartError::Overrun))
    } else if regs.sr.frame {
        Err(NbError::Other(UartError::Framing))
    } else if regs.sr.pare {
        Err(NbError::Other(UartError::Parity))
    } else if regs.sr.rxrdy {
        Ok(regs.rhr)
    } else {
        Err(NbError::WouldBlock)
    }
}

/// The register state after the receive half's `read`.
pub open spec fn spec_rx_read_next(regs: UartRegisters) -> UartRegisters {
    if !regs.sr.ovre && !regs.sr.frame && !regs.sr.pare && regs.sr.rxrdy {
        UartRegisters { sr: StatusFlags { rxrdy: false, ..regs.sr }, ..regs }
    } else {
        regs
    }
}

/// What one poll of the transmit half's `write` returns.
pub open spec fn spec_tx_write_outcome(regs: UartRegisters, byte: u8) -> Result<
    (),
    NbError<UartError>,
> {
    if regs.sr.txrdy {
        Ok(())
    } else {
        Err(NbError::WouldBlock)
    }
}

/// The register state after the transmit half's `write`.
pub open spec fn spec_tx_write_next(regs: UartRegisters, byte: u8) -> UartRegisters {
    if regs.sr.txrdy {
        UartRegisters { thr: byte, ..regs }
    } else {
        regs
    }
}

/// What one poll of the transmit half's `flush` returns.
pub open spec fn spec_tx_flush_outcome(regs: UartRegisters) -> Result<(), NbError<UartError>> {
    if regs.sr.txempty {
        Ok(())
    } else {
        Err(NbError::WouldBlock)
    }
}

impl<TXAF, RXAF> Serial<Pin<Alternate<TXAF>>, Pin<Alternate<RXAF>>> {
    /// Both bound pins are admitted by the capability relation for this
    /// instance, in their respective roles.
    pub open spec fn wf(self) -> bool {
        spec_tx_pin_supported(self.id, self.pins.0.port, self.pins.0.index, self.pins.0.af)
            && spec_rx_pin_supported(self.id, self.pins.1.port, self.pins.1.index, self.pins.1.af)
    }

    /// Constructs a full-duplex driver: checks both pairings against the
    /// capability relation and, only if both are admitted, runs the
    /// construction protocol with transmitter and receiver enabled. A
    /// rejected pairing gets the pins back, with no register touched.
    pub fn full_duplex(
        regs: &mut UartRegisters,
        pmc: &mut PmcRegisters,
        pins: (Pin<Alternate<TXAF>>, Pin<Alternate<RXAF>>),
        config: Config,
        clock_hz: u32,
    ) -> (r: Result<Self, (Pin<Alternate<TXAF>>, Pin<Alternate<RXAF>>)>)
        requires
            config.baud_rate.0 >= 1,
        ensures
            match r {
                Ok(s) => spec_tx_pin_supported(
                    old(regs).id,
                    pins.0.port,
                    pins.0.index,
                    pins.0.af,
                ) && spec_rx_pin_supported(old(regs).id, pins.1.port, pins.1.index, pins.1.af)
                    && s.id == old(regs).id && s.pins == pins && s.wf() && *final(regs)
                    == spec_uart_configured(*old(regs), config, clock_hz, true, true) && *final(pmc)
                    == spec_enable_clock(*old(pmc), spec_uart_pid(old(regs).id)),
                Err(p) => p == pins && !(spec_tx_pin_supported(
                    old(regs).id,
                    pins.0.port,
                    pins.0.index,
                    pins.0.af,
                ) && spec_rx_pin_supported(old(regs).id, pins.1.port, pins.1.index, pins.1.af))
                    && *final(regs) == *old(regs) && *final(pmc) == *old(pmc),
            },
    {
        let tx_ok = tx_pin_supported(regs.id, pins.0.port, pins.0.index, pins.0.af);
        let rx_ok = rx_pin_supported(regs.id, pins.1.port, pins.1.index, pins.1.af);
        if !(tx_ok && rx_ok) {
            return Err(pins);
        }
        let id = regs.id;
        apply_construction_protocol(regs, pmc, config, clock_hz, true, true);
        Ok(Serial { id, pins })
    }

    /// Decomposes the driver into independently owned transmit and receive
    /// halves addressing the same instance. No register is touched.
    pub fn split(self) -> (r: (Tx, Rx))
        requires
            self.wf(),
        ensures
            r.0.id == self.id,
            r.1.id == self.id,
    {
        (Tx { id: self.id }, Rx { id: self.id })
    }
}

impl<TXAF> Serial<Pin<Alternate<TXAF>>, ()> {
    /// The bound transmit pin is admitted by the capability relation.
    pub open spec fn wf(self) -> bool {
        spec_tx_pin_supported(self.id, self.pins.0.port, self.pins.0.index, self.pins.0.af)
    }

    /// Constructs a transmit-only driver: only the transmitter is enabled.
    pub fn tx_only(
        regs: &mut UartRegisters,
        pmc: &mut PmcRegisters,
        txpin: Pin<Alternate<TXAF>>,
        config: Config,
        clock_hz: u32,
    ) -> (r: Result<Self, Pin<Alternate<TXAF>>>)
        requires
            config.baud_rate.0 >= 1,
        ensures
            match r {
                Ok(s) => spec_tx_pin_supported(
                    old(regs).id,
                    txpin.port,
                    txpin.index,
                    txpin.af,
                ) && s.id == old(regs).id && s.pins.0 == txpin && s.wf() && *final(regs)
                    == spec_uart_configured(*old(regs), config, clock_hz, true, false) && *final(pmc)
                    == spec_enable_clock(*old(pmc), spec_uart_pid(old(regs).id)),
                Err(p) => p == txpin && !spec_tx_pin_supported(
                    old(regs).id,
                    txpin.port,
                    txpin.index,
                    txpin.af,
                ) && *final(regs) == *old(regs) && *final(pmc) == *old(pmc),
            },
    {
        if !tx_pin_supported(regs.id, txpin.port, txpin.index, txpin.af) {
            return Err(txpin);
        }
        let id = regs.id;
        apply_construction_protocol(regs, pmc, config, clock_hz, true, false);
        Ok(Serial { id, pins: (txpin, ()) })
    }
}

impl<RXAF> Serial<(), Pin<Alternate<RXAF>>> {
    /// The bound receive pin is admitted by the capability relation.
    pub open spec fn wf(self) -> bool {
        spec_rx_pin_supported(self.id, self.pins.1.port, self.pins.1.index, self.pins.1.af)
    }

    /// Constructs a receive-only driver: only the receiver is enabled.
    pub fn rx_only(
        regs: &mut UartRegisters,
        pmc: &mut PmcRegisters,
        rxpin: Pin<Alternate<RXAF>>,
        config: Config,
        clock_hz: u32,
    ) -> (r: Result<Self, Pin<Alternate<RXAF>>>)
        requires
            config.baud_rate.0 >= 1,
        ensures
            match r {
                Ok(s) => spec_rx_pin_supported(
                    old(regs).id,
                    rxpin.port,
                    rxpin.index,
                    rxpin.af,
                ) && s.id == old(regs).id && s.pins.1 == rxpin && s.wf() && *final(regs)
                    == spec_uart_configured(*old(regs), config, clock_hz, false, true) && *final(pmc)
                    == spec_enable_clock(*old(pmc), spec_uart_pid(old(regs).id)),
                Err(p) => p == rxpin && !spec_rx_pin_supported(
                    old(regs).id,
                    rxpin.port,
                    rxpin.index,
                    rxpin.af,
                ) && *final(regs) == *old(regs) && *final(pmc) == *old(pmc),
            },
    {
        if !rx_pin_supported(regs.id, rxpin.port, rxpin.index, rxpin.af) {
            return Err(rxpin);
        }
        let id = regs.id;
        apply_construction_protocol(regs, pmc, config, clock_hz, false, true);
        Ok(Serial { id, pins: ((), rxpin) })
    }
}

impl<TXPIN, RXPIN> Serial<TXPIN, RXPIN> {
    /// Gives the instance and the original pin values back, relinquishing the
    /// driver's exclusive ownership. No register is touched.
    pub fn release(self) -> (r: (UartId, (TXPIN, RXPIN)))
        ensures
            r.0 == self.id,
            r.1 == self.pins,
    {
        (self.id, self.pins)
    }
}

impl<TXPIN, RXAF> Serial<TXPIN, Pin<Alternate<RXAF>>> {
    /// Non-blocking read: one poll of the status register, evaluated in
    /// strict priority order — overrun, framing error, parity error, then a
    /// ready character (taking it releases receiver-ready), else "would
    /// block". Nothing else moves.
    pub fn read(&self, regs: &mut UartRegisters) -> (r: Result<u8, NbError<UartError>>)
        requires
            old(regs).id == self.id,
        ensures
            r == spec_serial_read_outcome(*old(regs)),
            *final(regs) == spec_serial_read_next(*old(regs)),
    {
        if regs.sr.ovre {
            Err(NbError::Other(UartError::Overrun))
        } else if regs.sr.frame {
            Err(NbError::Other(UartError::Framing))
        } else if regs.sr.pare {
            Err(NbError::Other(UartError::Parity))
        } else if regs.sr.rxrdy {
            let value = regs.rhr;
            regs.sr.rxrdy = false;
            Ok(value)
        } else {
            Err(NbError::WouldBlock)
        }
    }
}

impl<TXAF, RXPIN> Serial<Pin<Alternate<TXAF>>, RXPIN> {
    /// Non-blocking write: when the transmitter is ready, exactly one copy of
    /// `byte` enters the transmit holding register and the call succeeds;
    /// otherwise nothing is written and the call reports "would block". It
    /// never reports a device error.
    pub fn write(&self, regs: &mut UartRegisters, byte: u8) -> (r: Result<(), NbError<UartError>>)
        requires
            old(regs).id == self.id,
        ensures
            r == spec_serial_write_outcome(*old(regs), byte),
            *final(regs) == spec_serial_write_next(*old(regs), byte),
    {
        if regs.sr.txrdy {
            regs.thr = byte;
            Ok(())
        } else {
            Err(NbError::WouldBlock)
        }
    }

    /// One poll of the transmit-empty flag: succeeds exactly when the
    /// transmitter has fully drained, and never reports success while the
    /// flag is clear. Waiting for the drain is the caller's loop: re-poll on
    /// "would block". No register is touched.
    pub fn flush(&self, regs: &mut UartRegisters) -> (r: Result<(), NbError<UartError>>)
        requires
            old(regs).id == self.id,
        ensures
            r == spec_serial_flush_outcome(*old(regs)),
            *final(regs) == *old(regs),
    {
        if regs.sr.txempty {
            Ok(())
        } else {
            Err(NbError::WouldBlock)
        }
    }
}

impl Rx {
    /// Non-blocking read through the receive half: the same poll, priority
    /// order and register effect as [`Serial::read`].
    pub fn read(&self, regs: &mut UartRegisters) -> (r: Result<u8, NbError<UartError>>)
        requires
            old(regs).id == self.id,
        ensures
            r == spec_rx_read_outcome(*old(regs)),
            *final(regs) == spec_rx_read_next(*old(regs)),
    {
        if regs.sr.ovre {
            Err(NbError::Other(UartError::Overrun))
        } else if regs.sr.frame {
            Err(NbError::Other(UartError::Framing))
        } else if regs.sr.pare {
            Err(NbError::Other(UartError::Parity))
        } else if regs.sr.rxrdy {
            let value = regs.rhr;
            regs.sr.rxrdy = false;
            Ok(value)
        } else {
            Err(NbError::WouldBlock)
        }
    }
}

impl Tx {
    /// Non-blocking write through the transmit half: the same poll and
    /// register effect as [`Serial::write`].
    pub fn write(&self, regs: &mut UartRegisters, byte: u8) -> (r: Result<(), NbError<UartError>>)
        requires
            old(regs).id == self.id,
        ensures
            r == spec_tx_write_outcome(*old(regs), byte),
            *final(regs) == spec_tx_write_next(*old(regs), byte),
    {
        if regs.sr.txrdy {
            regs.thr = byte;
            Ok(())
        } else {
            Err(NbError::WouldBlock)
        }
    }

    /// One poll of the transmit-empty flag through the transmit half: the
    /// same outcome as [`Serial::flush`], touching no register.
    pub fn flush(&self, regs: &mut UartRegisters) -> (r: Result<(), NbError<UartError>>)
        requires
            old(regs).id == self.id,
        ensures
            r == spec_tx_flush_outcome(*old(regs)),
            *final(regs) == *old(regs),
    {
        if regs.sr.txempty {
            Ok(())
        } else {
            Err(NbError::WouldBlock)
        }
    }
}

/// Law: splitting a driver is transparent to byte transport. For every
/// register state and character, one `write` through the transmit half and
/// one `read` through the receive half return what the unsplit driver's calls
/// return and take the registers through the same transition — the steps are
/// functions of the register state alone, and `split` hands both halves the
/// same instance identity.
pub proof fn lemma_split_transport_agrees(regs: UartRegisters, byte: u8)
    ensures
        spec_rx_read_outcome(regs) == spec_serial_read_outcome(regs),
        spec_rx_read_next(regs) == spec_serial_read_next(regs),
        spec_tx_write_outcome(regs, byte) == spec_serial_write_outcome(regs, byte),
        spec_tx_write_next(regs, byte) == spec_serial_write_next(regs, byte),
        spec_tx_flush_outcome(regs) == spec_serial_flush_outcome(regs),
{
}

/// Law: `read` reports latched errors in fixed priority order. Overrun beats
/// framing and parity whenever several error flags are set at once; framing
/// beats parity.
pub proof fn lemma_read_error_priority(regs: UartRegisters)
    ensures
        regs.sr.ovre ==> spec_serial_read_outcome(regs) == Err::<u8, NbError<UartError>>(
            NbError::Other(UartError::Overrun),
        ),
        !regs.sr.ovre && regs.sr.frame ==> spec_serial_read_outcome(regs) == Err::<
            u8,
            NbError<UartError>,
        >(NbError::Other(UartError::Framing)),
        !regs.sr.ovre && !regs.sr.frame && regs.sr.pare ==> spec_serial_read_outcome(regs)
            == Err::<u8, NbError<UartError>>(NbError::Other(UartError::Parity)),
{
}

/// Law: with no status flag set, `read` reports "would block" and performs no
/// register write.
pub proof fn lemma_read_idle_writes_nothing(regs: UartRegisters)
    requires
        !regs.sr.ovre,
        !regs.sr.frame,
        !regs.sr.pare,
        !regs.sr.rxrdy,
    ensures
        spec_serial_read_outcome(regs) == Err::<u8, NbError<UartError>>(NbError::WouldBlock),
        spec_serial_read_next(regs) == regs,
{
}

/// Law: with only receiver-ready set among the latched flags, `read` returns
/// exactly the character in the receive holding register, and its only
/// register effect is releasing receiver-ready.
pub proof fn lemma_read_takes_held_character(regs: UartRegisters)
    requires
        !regs.sr.ovre,
        !regs.sr.frame,
        !regs.sr.pare,
        regs.sr.rxrdy,
    ensures
        spec_serial_read_outcome(regs) == Ok::<u8, NbError<UartError>>(regs.rhr),
        spec_serial_read_next(regs) == (UartRegisters {
            sr: (StatusFlags { rxrdy: false, ..regs.sr }),
            ..regs
        }),
{
}

/// Law: `write` transports exactly one copy of the character or nothing.
/// With the transmitter not ready it reports "would block" and writes no
/// register; with the transmitter ready it succeeds and its only register
/// effect is placing the character in the transmit holding register.
pub proof fn lemma_write_is_exact(regs: UartRegisters, byte: u8)
    ensures
        !regs.sr.txrdy ==> spec_serial_write_outcome(regs, byte) == Err::<(), NbError<UartError>>(
            NbError::WouldBlock,
        ) && spec_serial_write_next(regs, byte) == regs,
        regs.sr.txrdy ==> spec_serial_write_outcome(regs, byte) == Ok::<(), NbError<UartError>>(())
            && spec_serial_write_next(regs, byte) == (UartRegisters { thr: byte, ..regs }),
{
}

/// Law: `flush` succeeds exactly when the transmit-empty flag is set: it
/// never reports success while the transmitter still drains, so a caller's
/// poll loop cannot return before the flag rises.
pub proof fn lemma_flush_never_lies(regs: UartRegisters)
    ensures
        (spec_serial_flush_outcome(regs) == Ok::<(), NbError<UartError>>(())) <==> regs.sr.txempty,
{
}

} // verus!
