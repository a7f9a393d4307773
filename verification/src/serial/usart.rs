//! USART driver: the synchronous/asynchronous peripheral family.
//!
//! The protocol is the UART's — capability check, then clock gate, reset,
//! mode and baud programming, direction enable, then non-blocking polls — but
//! the configuration carries the extra USART dimensions (character length,
//! sync mode, usart mode, multidrop parity), the status lives in the channel
//! status register `csr`, and a character is up to nine bits wide, so the data
//! registers hold `u16`.

use vstd::prelude::*;
use crate::gpio::{Alternate, Pin, PortId};
use crate::pmc::{
    PmcRegisters,
    enable_peripheral_clock,
    spec_enable_clock,
    PID_USART0,
    PID_USART1,
    PID_USART2,
};
use crate::serial::{BaudRate, NbError, StatusFlags, baud_divisor, spec_baud_divisor};

verus! {

/// Identity of one of the three USART instances.
#[derive(Clone, Copy, PartialEq, Eq, Structural, Debug)]
pub enum UsartId {
    Usart0,
    Usart1,
    Usart2,
}

/// The peripheral identifier whose clock gate feeds a USART instance.
pub open spec fn spec_usart_pid(id: UsartId) -> u8 {
    match id {
        UsartId::Usart0 => PID_USART0,
        UsartId::Usart1 => PID_USART1,
        UsartId::Usart2 => PID_USART2,
    }
}

impl UsartId {
    /// Returns the instance's peripheral identifier.
    pub fn pid(self) -> (r: u8)
        ensures
            r == spec_usart_pid(self),
            r < 64,
    {
        match self {
            UsartId::Usart0 => PID_USART0,
            UsartId::Usart1 => PID_USART1,
            UsartId::Usart2 => PID_USART2,
        }
    }
}

/// Parity setting of a USART channel; multidrop mode exists only on the
/// USART family.
#[derive(Clone, Copy, PartialEq, Eq, Structural, Debug)]
pub enum Parity {
    Even,
    Odd,
    Space,
    Mark,
    NoParity,
    Multidrop,
}

/// Channel mode of a USART.
#[derive(Clone, Copy, PartialEq, Eq, Structural, Debug)]
pub enum ChannelMode {
    Normal,
    Automatic,
    LocalLoopback,
    RemoteLoopback,
}

/// Whether the channel runs asynchronously or from the synchronous clock.
#[derive(Clone, Copy, PartialEq, Eq, Structural, Debug)]
pub enum SyncMode {
    Async,
    Sync,
}

/// Character length of a USART frame.
#[derive(Clone, Copy, PartialEq, Eq, Structural, Debug)]
pub enum CharLength {
    FiveBit,
    SixBit,
    SevenBit,
    EightBit,
}

/// Operating mode of the USART.
#[derive(Clone, Copy, PartialEq, Eq, Structural, Debug)]
pub enum UsartMode {
    Normal,
    Rs485,
    HwHandshaking,
    Lon,
    SpiMaster,
    SpiSlave,
}

/// A receive error latched by the hardware, reported by `read`.
#[derive(Clone, Copy, PartialEq, Eq, Structural, Debug)]
pub enum UsartError {
    Parity,
    Framing,
    Overrun,
}

/// The mode-register encoding of a USART parity setting.
pub open spec fn spec_parity_code(parity: Parity) -> u8 {
    match parity {
        Parity::Even => 0,
        Parity::Odd => 1,
        Parity::Space => 2,
        Parity::Mark => 3,
        Parity::NoParity => 4,
        Parity::Multidrop => 6,
    }
}

/// Encodes a USART parity setting as its mode-register field value.
pub fn parity_code(parity: &Parity) -> (r: u8)
    ensures
        r == spec_parity_code(*parity),
{
    match parity {
        Parity::Even => 0,
        Parity::Odd => 1,
        Parity::Space => 2,
        Parity::Mark => 3,
        Parity::NoParity => 4,
        Parity::Multidrop => 6,
    }
}

/// The mode-register encoding of a channel mode.
pub open spec fn spec_channel_mode_code(mode: ChannelMode) -> u8 {
    match mode {
        ChannelMode::Normal => 0,
        ChannelMode::Automatic => 1,
        ChannelMode::LocalLoopback => 2,
        ChannelMode::RemoteLoopback => 3,
    }
}

/// Encodes a channel mode as its mode-register field value.
pub fn channel_mode_code(mode: &ChannelMode) -> (r: u8)
    ensures
        r == spec_channel_mode_code(*mode),
{
    match mode {
        ChannelMode::Normal => 0,
        ChannelMode::Automatic => 1,
        ChannelMode::LocalLoopback => 2,
        ChannelMode::RemoteLoopback => 3,
    }
}

/// The mode-register encoding of a character length.
pub open spec fn spec_char_length_code(len: CharLength) -> u8 {
    match len {
        CharLength::FiveBit => 0,
        CharLength::SixBit => 1,
        CharLength::SevenBit => 2,
        CharLength::EightBit => 3,
    }
}

/// Encodes a character length as its mode-register field value.
pub fn char_length_code(len: &CharLength) -> (r: u8)
    ensures
        r == spec_char_length_code(*len),
{
    match len {
        CharLength::FiveBit => 0,
        CharLength::SixBit => 1,
        CharLength::SevenBit => 2,
        CharLength::EightBit => 3,
    }
}

/// The mode-register encoding of a USART operating mode.
pub open spec fn spec_usart_mode_code(mode: UsartMode) -> u8 {
    match mode {
        UsartMode::Normal => 0,
        UsartMode::Rs485 => 1,
        UsartMode::HwHandshaking => 2,
        UsartMode::Lon => 9,
        UsartMode::SpiMaster => 14,
        UsartMode::SpiSlave => 15,
    }
}

/// Encodes a USART operating mode as its mode-register field value.
pub fn usart_mode_code(mode: &UsartMode) -> (r: u8)
    ensures
        r == spec_usart_mode_code(*mode),
{
    match mode {
        UsartMode::Normal => 0,
        UsartMode::Rs485 => 1,
        UsartMode::HwHandshaking => 2,
        UsartMode::Lon => 9,
        UsartMode::SpiMaster => 14,
        UsartMode::SpiSlave => 15,
    }
}

/// Whether a sync-mode setting asks for the synchronous clock.
pub open spec fn spec_sync_bit(mode: SyncMode) -> bool {
    mode == SyncMode::Sync
}

/// Encodes a sync-mode setting as the mode register's sync bit.
pub fn sync_bit(mode: &SyncMode) -> (r: bool)
    ensures
        r == spec_sync_bit(*mode),
{
    match mode {
        SyncMode::Async => false,
        SyncMode::Sync => true,
    }
}

/// An abstract USART configuration, consumed once by driver construction.
#[derive(Debug)]
pub struct Config {
    pub baud_rate: BaudRate,
    pub parity: Parity,
    pub channel_mode: ChannelMode,
    pub char_length: CharLength,
    pub sync_mode: SyncMode,
    pub usart_mode: UsartMode,
    pub digital_filter: bool,
}

impl Config {
    /// Bundles a configuration.
    pub fn new(
        baud_rate: BaudRate,
        parity: Parity,
        channel_mode: ChannelMode,
        char_length: CharLength,
        sync_mode: SyncMode,
        usart_mode: UsartMode,
        digital_filter: bool,
    ) -> (r: Config)
        ensures
            r == (Config {
                baud_rate,
                parity,
                channel_mode,
                char_length,
                sync_mode,
                usart_mode,
                digital_filter,
            }),
    {
        Config { baud_rate, parity, channel_mode, char_length, sync_mode, usart_mode, digital_filter }
    }
}

/// The capability relation's transmit half for the USART family.
pub open spec fn spec_tx_pin_supported(id: UsartId, port: PortId, index: u8, af: u8) -> bool {
    match id {
        UsartId::Usart0 => port == PortId::B && index == 1 && af == 2,
        UsartId::Usart1 => port == PortId::B && index == 4 && af == 3,
        UsartId::Usart2 => port == PortId::D && index == 16 && af == 1,
    }
}

/// The capability relation's receive half for the USART family.
pub open spec fn spec_rx_pin_supported(id: UsartId, port: PortId, index: u8, af: u8) -> bool {
    match id {
        UsartId::Usart0 => port == PortId::B && index == 0 && af == 2,
        UsartId::Usart1 => port == PortId::A && index == 21 && af == 0,
        UsartId::Usart2 => port == PortId::D && index == 15 && af == 1,
    }
}

/// Looks a transmit pairing up in the capability relation.
pub fn tx_pin_supported(id: UsartId, port: PortId, index: u8, af: u8) -> (r: bool)
    ensures
        r == spec_tx_pin_supported(id, port, index, af),
{
    match id {
        UsartId::Usart0 => port == PortId::B && index == 1 && af == 2,
        UsartId::Usart1 => port == PortId::B && index == 4 && af == 3,
        UsartId::Usart2 => port == PortId::D && index == 16 && af == 1,
    }
}

/// Looks a receive pairing up in the capability relation.
pub fn rx_pin_supported(id: UsartId, port: PortId, index: u8, af: u8) -> (r: bool)
    ensures
        r == spec_rx_pin_supported(id, port, index, af),
{
    match id {
        UsartId::Usart0 => port == PortId::B && index == 0 && af == 2,
        UsartId::Usart1 => port == PortId::A && index == 21 && af == 0,
        UsartId::Usart2 => port == PortId::D && index == 15 && af == 1,
    }
}

/// The USART mode register, as named fields: the operating-mode, parity,
/// channel-mode and character-length encodings, the sync bit, and the
/// digital-filter bit.
#[derive(Clone, Copy, PartialEq, Eq, Structural, Debug)]
pub struct UsartMr {
    pub usart_mode: u8,
    pub par: u8,
    pub chmode: u8,
    pub chrl: u8,
    pub sync: bool,
    pub filter: bool,
}

/// Register state of one USART instance. The status flags live in the channel
/// status register `csr`; a character is up to nine bits, so the holding
/// registers are `u16`.
#[derive(Clone, Copy, PartialEq, Eq, Structural, Debug)]
pub struct UsartRegisters {
    pub id: UsartId,
    pub mr: UsartMr,
    pub brgr: u32,
    pub csr: StatusFlags,
    pub rhr: u16,
    pub thr: u16,
    pub tx_enabled: bool,
    pub rx_enabled: bool,
}

/// The register state the construction protocol leaves behind.
pub open spec fn spec_usart_configured(
    regs: UsartRegisters,
    config: Config,
    clock_hz: u32,
    txen: bool,
    rxen: bool,
) -> UsartRegisters
    recommends
        config.baud_rate.0 >= 1,
{
    UsartRegisters {
        id: regs.id,
        mr: UsartMr {
            usart_mode: spec_usart_mode_code(config.usart_mode),
            par: spec_parity_code(config.parity),
            chmode: spec_channel_mode_code(config.channel_mode),
            chrl: spec_char_length_code(config.char_length),
            sync: spec_sync_bit(config.sync_mode),
            filter: config.digital_filter,
        },
        brgr: spec_baud_divisor(clock_hz, config.baud_rate.0) as u32,
        csr: StatusFlags { ovre: false, frame: false, pare: false, ..regs.csr },
        rhr: regs.rhr,
        thr: regs.thr,
        tx_enabled: txen,
        rx_enabled: rxen,
    }
}

/// Runs the construction protocol on an instance whose pairing has already
/// been admitted: clock gate, reset and disable with status clear, mode and
/// baud programming, then the requested direction enables.
fn apply_construction_protocol(
    regs: &mut UsartRegisters,
    pmc: &mut PmcRegisters,
    config: Config,
    clock_hz: u32,
    txen: bool,
    rxen: bool,
)
    requires
        config.baud_rate.0 >= 1,
    ensures
        *final(regs) == spec_usart_configured(*old(regs), config, clock_hz, txen, rxen),
        *final(pmc) == spec_enable_clock(*old(pmc), spec_usart_pid(old(regs).id)),
{
    enable_peripheral_clock(pmc, regs.id.pid());
    regs.tx_enabled = false;
    regs.rx_enabled = false;
    regs.csr.ovre = false;
    regs.csr.frame = false;
    regs.csr.pare = false;
    regs.mr = UsartMr {
        usart_mode: usart_mode_code(&config.usart_mode),
        par: parity_code(&config.parity),
        chmode: channel_mode_code(&config.channel_mode),
        chrl: char_length_code(&config.char_length),
        sync: sync_bit(&config.sync_mode),
        filter: config.digital_filter,
    };
    regs.brgr = baud_divisor(clock_hz, config.baud_rate.0);
    regs.tx_enabled = txen;
    regs.rx_enabled = rxen;
}

/// The transmit half of a split driver.
#[derive(Debug)]
pub struct Tx {
    pub id: UsartId,
}

/// The receive half of a split driver.
#[derive(Debug)]
pub struct Rx {
    pub id: UsartId,
}

/// A USART driver: owns one instance and the pin or pins bound to it.
pub struct Serial<TXPIN, RXPIN> {
    pub id: UsartId,
    pub pins: (TXPIN, RXPIN),
}

/// What one poll of `read` returns, in the fixed priority order.
pub open spec fn spec_serial_read_outcome(regs: UsartRegisters) -> Result<u16, NbError<UsartError>> {
    if regs.csr.ovre {
        Err(NbError::Other(UsartError::Overrun))
    } else if regs.csr.frame {
        Err(NbError::Other(UsartError::Framing))
    } else if regs.csr.pare {
        Err(NbError::Other(UsartError::Parity))
    } else if regs.csr.rxrdy {
        Ok(regs.rhr)
    } else {
        Err(NbError::WouldBlock)
    }
}

/// The register state after one poll of `read`.
pub open spec fn spec_serial_read_next(regs: UsartRegisters) -> UsartRegisters {
    if !regs.csr.ovre && !regs.csr.frame && !regs.csr.pare && regs.csr.rxrdy {
        UsartRegisters { csr: StatusFlags { rxrdy: false, ..regs.csr }, ..regs }
    } else {
        regs
    }
}

/// What one poll of `write` returns.
pub open spec fn spec_serial_write_outcome(regs: UsartRegisters, data: u16) -> Result<
    (),
    NbError<UsartError>,
> {
    if regs.csr.txrdy {
        Ok(())
    } else {
        Err(NbError::WouldBlock)
    }
}

/// The register state after one poll of `write`.
pub open spec fn spec_serial_write_next(regs: UsartRegisters, data: u16) -> UsartRegisters {
    if regs.csr.txrdy {
        UsartRegisters { thr: data, ..regs }
    } else {
        regs
    }
}

/// What one poll of `flush` returns; `flush` writes no register.
pub open spec fn spec_serial_flush_outcome(regs: UsartRegisters) -> Result<
    (),
    NbError<UsartError>,
> {
    if regs.csr.txempty {
        Ok(())
    } else {
        Err(NbError::WouldBlock)
    }
}

/// What one poll of the receive half's `read` returns; stated on its own so
/// the split-transparency law can relate the halves to the whole driver.
pub open spec fn spec_rx_read_outcome(regs: UsartRegisters) -> Result<u16, NbError<UsartError>> {
    if regs.csr.ovre {
        Err(NbError::Other(UsartError::Overrun))
    } else if regs.csr.frame {
        Err(NbError::Other(UsartError::Framing))
    } else if regs.csr.pare {
        Err(NbError::Other(UsartError::Parity))
    } else if regs.csr.rxrdy {
        Ok(regs.rhr)
    } else {
        Err(NbError::WouldBlock)
    }
}

/// The register state after the receive half's `read`.
pub open spec fn spec_rx_read_next(regs: UsartRegisters) -> UsartRegisters {
    if !regs.csr.ovre && !regs.csr.frame && !regs.csr.pare && regs.csr.rxrdy {
        UsartRegisters { csr: StatusFlags { rxrdy: false, ..regs.csr }, ..regs }
    } else {
        regs
    }
}

/// What one poll of the transmit half's `write` returns.
pub open spec fn spec_tx_write_outcome(regs: UsartRegisters, data: u16) -> Result<
    (),
    NbError<UsartError>,
> {
    if regs.csr.txrdy {
        Ok(())
    } else {
        Err(NbError::WouldBlock)
    }
}

/// The register state after the transmit half's `write`.
pub open spec fn spec_tx_write_next(regs: UsartRegisters, data: u16) -> UsartRegisters {
    if regs.csr.txrdy {
        UsartRegisters { thr: data, ..regs }
    } else {
        regs
    }
}

/// What one poll of the transmit half's `flush` returns.
pub open spec fn spec_tx_flush_outcome(regs: UsartRegisters) -> Result<(), NbError<UsartError>> {
    if regs.csr.txempty {
        Ok(())
    } else {
        Err(NbError::WouldBlock)
    }
}

impl<TXAF, RXAF> Serial<Pin<Alternate<TXAF>>, Pin<Alternate<RXAF>>> {
    /// Both bound pins are admitted by the capability relation.
    pub open spec fn wf(self) -> bool {
        spec_tx_pin_supported(self.id, self.pins.0.port, self.pins.0.index, self.pins.0.af)
            && spec_rx_pin_supported(self.id, self.pins.1.port, self.pins.1.index, self.pins.1.af)
    }

    /// Constructs a full-duplex driver; a pairing the capability relation
    /// does not admit gets the pins back, with no register touched.
    pub fn full_duplex(
        regs: &mut UsartRegisters,
        pmc: &mut PmcRegisters,
        pins: (Pin<Alternate<TXAF>>, Pin<Alternate<RXAF>>),
        config: Config,
        clock_hz: u32,
    ) -> (r: Result<Self, (Pin<Alternate<TXAF>>, Pin<Alternate<RXAF>>)>)
        requires
            config.baud_rate.0 >= 1,
        ensures
            match r {
                Ok(s) => spec_tx_pin_supported(
                    old(regs).id,
                    pins.0.port,
                    pins.0.index,
                    pins.0.af,
                ) && spec_rx_pin_supported(old(regs).id, pins.1.port, pins.1.index, pins.1.af)
                    && s.id == old(regs).id && s.pins == pins && s.wf() && *final(regs)
                    == spec_usart_configured(*old(regs), config, clock_hz, true, true) && *final(pmc)
                    == spec_enable_clock(*old(pmc), spec_usart_pid(old(regs).id)),
                Err(p) => p == pins && !(spec_tx_pin_supported(
                    old(regs).id,
                    pins.0.port,
                    pins.0.index,
                    pins.0.af,
                ) && spec_rx_pin_supported(old(regs).id, pins.1.port, pins.1.index, pins.1.af))
                    && *final(regs) == *old(regs) && *final(pmc) == *old(pmc),
            },
    {
        let tx_ok = tx_pin_supported(regs.id, pins.0.port, pins.0.index, pins.0.af);
        let rx_ok = rx_pin_supported(regs.id, pins.1.port, pins.1.index, pins.1.af);
        if !(tx_ok && rx_ok) {
            return Err(pins);
        }
        let id = regs.id;
        apply_construction_protocol(regs, pmc, config, clock_hz, true, true);
        Ok(Serial { id, pins })
    }

    /// Decomposes the driver into independently owned transmit and receive
    /// halves addressing the same instance. No register is touched.
    pub fn split(self) -> (r: (Tx, Rx))
        requires
            self.wf(),
        ensures
            r.0.id == self.id,
            r.1.id == self.id,
    {
        (Tx { id: self.id }, Rx { id: self.id })
    }
}

impl<TXAF> Serial<Pin<Alternate<TXAF>>, ()> {
    /// The bound transmit pin is admitted by the capability relation.
    pub open spec fn wf(self) -> bool {
        spec_tx_pin_supported(self.id, self.pins.0.port, self.pins.0.index, self.pins.0.af)
    }

    /// Constructs a transmit-only driver: only the transmitter is enabled.
    pub fn tx_only(
        regs: &mut UsartRegisters,
        pmc: &mut PmcRegisters,
        txpin: Pin<Alternate<TXAF>>,
        config: Config,
        clock_hz: u32,
    ) -> (r: Result<Self, Pin<Alternate<TXAF>>>)
        requires
            config.baud_rate.0 >= 1,
        ensures
            match r {
                Ok(s) => spec_tx_pin_supported(
                    old(regs).id,
                    txpin.port,
                    txpin.index,
                    txpin.af,
                ) && s.id == old(regs).id && s.pins.0 == txpin && s.wf() && *final(regs)
                    == spec_usart_configured(*old(regs), config, clock_hz, true, false) && *final(pmc)
                    == spec_enable_clock(*old(pmc), spec_usart_pid(old(regs).id)),
                Err(p) => p == txpin && !spec_tx_pin_supported(
                    old(regs).id,
                    txpin.port,
                    txpin.index,
                    txpin.af,
                ) && *final(regs) == *old(regs) && *final(pmc) == *old(pmc),
            },
    {
        if !tx_pin_supported(regs.id, txpin.port, txpin.index, txpin.af) {
            return Err(txpin);
        }
        let id = regs.id;
        apply_construction_protocol(regs, pmc, config, clock_hz, true, false);
        Ok(Serial { id, pins: (txpin, ()) })
    }
}

impl<RXAF> Serial<(), Pin<Alternate<RXAF>>> {
    /// The bound receive pin is admitted by the capability relation.
    pub open spec fn wf(self) -> bool {
        spec_rx_pin_supported(self.id, self.pins.1.port, self.pins.1.index, self.pins.1.af)
    }

    /// Constructs a receive-only driver: only the receiver is enabled.
    pub fn rx_only(
        regs: &mut UsartRegisters,
        pmc: &mut PmcRegisters,
        rxpin: Pin<Alternate<RXAF>>,
        config: Config,
        clock_hz: u32,
    ) -> (r: Result<Self, Pin<Alternate<RXAF>>>)
        requires
            config.baud_rate.0 >= 1,
        ensures
            match r {
                Ok(s) => spec_rx_pin_supported(
                    old(regs).id,
                    rxpin.port,
                    rxpin.index,
                    rxpin.af,
                ) && s.id == old(regs).id && s.pins.1 == rxpin && s.wf() && *final(regs)
                    == spec_usart_configured(*old(regs), config, clock_hz, false, true) && *final(pmc)
                    == spec_enable_clock(*old(pmc), spec_usart_pid(old(regs).id)),
                Err(p) => p == rxpin && !spec_rx_pin_supported(
                    old(regs).id,
                    rxpin.port,
                    rxpin.index,
                    rxpin.af,
                ) && *final(regs) == *old(regs) && *final(pmc) == *old(pmc),
            },
    {
        if !rx_pin_supported(regs.id, rxpin.port, rxpin.index, rxpin.af) {
            return Err(rxpin);
        }
        let id = regs.id;
        apply_construction_protocol(regs, pmc, config, clock_hz, false, true);
        Ok(Serial { id, pins: ((), rxpin) })
    }
}

impl<TXPIN, RXPIN> Serial<TXPIN, RXPIN> {
    /// Gives the instance and the original pin values back. No register is
    /// touched.
    pub fn release(self) -> (r: (UsartId, (TXPIN, RXPIN)))
        ensures
            r.0 == self.id,
            r.1 == self.pins,
    {
        (self.id, self.pins)
    }
}

impl<TXPIN, RXAF> Serial<TXPIN, Pin<Alternate<RXAF>>> {
    /// Non-blocking read: one poll of the channel status register in strict
    /// priority order — overrun, framing error, parity error, then a ready
    /// character (taking it releases receiver-ready), else "would block".
    pub fn read(&self, regs: &mut UsartRegisters) -> (r: Result<u16, NbError<UsartError>>)
        requires
            old(regs).id == self.id,
        ensures
            r == spec_serial_read_outcome(*old(regs)),
            *final(regs) == spec_serial_read_next(*old(regs)),
    {
        if regs.csr.ovre {
            Err(NbError::Other(UsartError::Overrun))
        } else if regs.csr.frame {
            Err(NbError::Other(UsartError::Framing))
        } else if regs.csr.pare {
            Err(NbError::Other(UsartError::Parity))
        } else if regs.csr.rxrdy {
            let value = regs.rhr;
            regs.csr.rxrdy = false;
            Ok(value)
        } else {
            Err(NbError::WouldBlock)
        }
    }
}

impl<TXAF, RXPIN> Serial<Pin<Alternate<TXAF>>, RXPIN> {
    /// Non-blocking write: when the transmitter is ready, exactly one copy of
    /// `data` enters the transmit holding register; otherwise nothing is
    /// written and the call reports "would block".
    pub fn write(&self, regs: &mut UsartRegisters, data: u16) -> (r: Result<
        (),
        NbError<UsartError>,
    >)
        requires
            old(regs).id == self.id,
        ensures
            r == spec_serial_write_outcome(*old(regs), data),
            *final(regs) == spec_serial_write_next(*old(regs), data),
    {
        if regs.csr.txrdy {
            regs.thr = data;
            Ok(())
        } else {
            Err(NbError::WouldBlock)
        }
    }

    /// One poll of the transmit-empty flag: succeeds exactly when the
    /// transmitter has fully drained; never a false success. No register is
    /// touched.
    pub fn flush(&self, regs: &mut UsartRegisters) -> (r: Result<(), NbError<UsartError>>)
        requires
            old(regs).id == self.id,
        ensures
            r == spec_serial_flush_outcome(*old(regs)),
            *final(regs) == *old(regs),
    {
        if regs.csr.txempty {
            Ok(())
        } else {
            Err(NbError::WouldBlock)
        }
    }
}

impl Rx {
    /// Non-blocking read through the receive half: the same poll, priority
    /// order and register effect as [`Serial::read`].
    pub fn read(&self, regs: &mut UsartRegisters) -> (r: Result<u16, NbError<UsartError>>)
        requires
            old(regs).id == self.id,
        ensures
            r == spec_rx_read_outcome(*old(regs)),
            *final(regs) == spec_rx_read_next(*old(regs)),
    {
        if regs.csr.ovre {
            Err(NbError::Other(UsartError::Overrun))
        } else if regs.csr.frame {
            Err(NbError::Other(UsartError::Framing))
        } else if regs.csr.pare {
            Err(NbError::Other(UsartError::Parity))
        } else if regs.csr.rxrdy {
            let value = regs.rhr;
            regs.csr.rxrdy = false;
            Ok(value)
        } else {
            Err(NbError::WouldBlock)
        }
    }
}

impl Tx {
    /// Non-blocking write through the transmit half: the same poll and
    /// register effect as [`Serial::write`].
    pub fn write(&self, regs: &mut UsartRegisters, data: u16) -> (r: Result<
        (),
        NbError<UsartError>,
    >)
        requires
            old(regs).id == self.id,
        ensures
            r == spec_tx_write_outcome(*old(regs), data),
            *final(regs) == spec_tx_write_next(*old(regs), data),
    {
        if regs.csr.txrdy {
            regs.thr = data;
            Ok(())
        } else {
            Err(NbError::WouldBlock)
        }
    }

    /// One poll of the transmit-empty flag through the transmit half.
    pub fn flush(&self, regs: &mut UsartRegisters) -> (r: Result<(), NbError<UsartError>>)
        requires
            old(regs).id == self.id,
        ensures
            r == spec_tx_flush_outcome(*old(regs)),
            *final(regs) == *old(regs),
    {
        if regs.csr.txempty {
            Ok(())
        } else {
            Err(NbError::WouldBlock)
        }
    }
}

/// Law: splitting a USART driver is transparent to byte transport, exactly as
/// for the UART: the transport steps are functions of the register state
/// alone, and the halves carry the whole driver's instance identity.
pub proof fn lemma_split_transport_agrees(regs: UsartRegisters, data: u16)
    ensures
        spec_rx_read_outcome(regs) == spec_serial_read_outcome(regs),
        spec_rx_read_next(regs) == spec_serial_read_next(regs),
        spec_tx_write_outcome(regs, data) == spec_serial_write_outcome(regs, data),
        spec_tx_write_next(regs, data) == spec_serial_write_next(regs, data),
        spec_tx_flush_outcome(regs) == spec_serial_flush_outcome(regs),
{
}

/// Law: `read` reports latched errors in fixed priority order: overrun beats
/// framing and parity, and framing beats parity.
pub proof fn lemma_read_error_priority(regs: UsartRegisters)
    ensures
        regs.csr.ovre ==> spec_serial_read_outcome(regs) == Err::<u16, NbError<UsartError>>(
            NbError::Other(UsartError::Overrun),
        ),
        !regs.csr.ovre && regs.csr.frame ==> spec_serial_read_outcome(regs) == Err::<
            u16,
            NbError<UsartError>,
        >(NbError::Other(UsartError::Framing)),
        !regs.csr.ovre && !regs.csr.frame && regs.csr.pare ==> spec_serial_read_outcome(regs)
            == Err::<u16, NbError<UsartError>>(NbError::Other(UsartError::Parity)),
{
}

} // verus!
