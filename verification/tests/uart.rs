use samv71_hal::gpio::{Alternate, Pin, PioRegisters, Port, PortId, AF0, AF2};
use samv71_hal::pmc::PmcRegisters;
use samv71_hal::serial::{baud_divisor, BaudRate, NbError, StatusFlags};
use samv71_hal::serial::uart::{
    channel_mode_code, parity_code, rx_pin_supported, tx_pin_supported, ChannelMode, Config,
    Parity, Serial, UartError, UartId, UartMr, UartRegisters,
};

fn fresh_pio(id: PortId) -> PioRegisters {
    PioRegisters {
        id,
        psr: 0,
        abcdsr0: 0,
        abcdsr1: 0,
        pusr: 0,
        ppdsr: 0,
        osr: 0,
        odsr: 0,
        pdsr: 0,
    }
}

fn fresh_uart(id: UartId) -> UartRegisters {
    UartRegisters {
        id,
        mr: UartMr { par: 0, chmode: 0, filter: false, periph_clk: false },
        brgr: 0,
        sr: StatusFlags::clear(),
        rhr: 0,
        thr: 0,
        tx_enabled: false,
        rx_enabled: false,
    }
}

/// The UART2 pin pair: transmit on PD26 and receive on PD25, both under
/// alternate function 2.
fn uart2_pins() -> (Pin<Alternate<AF2>>, Pin<Alternate<AF2>>) {
    let mut pmc = PmcRegisters { pcsr0: 0, pcsr1: 0 };
    let mut pio = fresh_pio(PortId::D);
    let mut pins = Port::new(PortId::D).split(&mut pmc);
    let pd26 = pins.remove(26);
    let pd25 = pins.remove(25);
    (pd26.into_alternate_af2(&mut pio), pd25.into_alternate_af2(&mut pio))
}

fn default_config() -> Config {
    Config::new(BaudRate(9600), Parity::NoParity, ChannelMode::Normal, false)
}

#[test]
fn baud_divisor_is_the_truncated_quotient() {
    // 150 MHz peripheral clock at 9600 baud
    assert_eq!(baud_divisor(150_000_000, 9600), 976);
    // 12 MHz peripheral clock: 12_000_000 / (16 * 9600) = 78.125, truncated
    assert_eq!(baud_divisor(12_000_000, 9600), 78);
    assert_eq!(baud_divisor(0, 1), 0);
    assert_eq!(baud_divisor(u32::MAX, 1), u32::MAX / 16);
}

#[test]
fn read_with_no_flags_reports_not_ready_and_writes_nothing() {
    let (tx, rx) = uart2_pins();
    let mut regs = fresh_uart(UartId::Uart2);
    let mut pmc = PmcRegisters { pcsr0: 0, pcsr1: 0 };
    let serial = Serial::full_duplex(&mut regs, &mut pmc, (tx, rx), default_config(), 150_000_000)
        .ok()
        .unwrap();
    regs.rhr = 0x77;
    let before = regs;
    let r = serial.read(&mut regs);
    assert_eq!(r, Err(NbError::WouldBlock));
    assert_eq!(regs, before);
}

#[test]
fn read_overrun_beats_framing() {
    let (tx, rx) = uart2_pins();
    let mut regs = fresh_uart(UartId::Uart2);
    let mut pmc = PmcRegisters { pcsr0: 0, pcsr1: 0 };
    let serial = Serial::full_duplex(&mut regs, &mut pmc, (tx, rx), default_config(), 150_000_000)
        .ok()
        .unwrap();
    regs.sr.ovre = true;
    regs.sr.frame = true;
    let before = regs;
    let r = serial.read(&mut regs);
    assert_eq!(r, Err(NbError::Other(UartError::Overrun)));
    assert_eq!(regs, before);
}

#[test]
fn read_framing_beats_parity() {
    let (tx, rx) = uart2_pins();
    let mut regs = fresh_uart(UartId::Uart2);
    let mut pmc = PmcRegisters { pcsr0: 0, pcsr1: 0 };
    let serial = Serial::full_duplex(&mut regs, &mut pmc, (tx, rx), default_config(), 150_000_000)
        .ok()
        .unwrap();
    regs.sr.frame = true;
    regs.sr.pare = true;
    let r = serial.read(&mut regs);
    assert_eq!(r, Err(NbError::Other(UartError::Framing)));
}

#[test]
fn read_parity_flag_reports_parity_error() {
    let (tx, rx) = uart2_pins();
    let mut regs = fresh_uart(UartId::Uart2);
    let mut pmc = PmcRegisters { pcsr0: 0, pcsr1: 0 };
    let serial = Serial::full_duplex(&mut regs, &mut pmc, (tx, rx), default_config(), 150_000_000)
        .ok()
        .unwrap();
    regs.sr.pare = true;
    regs.sr.rxrdy = true;
    let r = serial.read(&mut regs);
    assert_eq!(r, Err(NbError::Other(UartError::Parity)));
}

#[test]
fn read_ready_returns_the_held_byte_and_releases_readiness() {
    let (tx, rx) = uart2_pins();
    let mut regs = fresh_uart(UartId::Uart2);
    let mut pmc = PmcRegisters { pcsr0: 0, pcsr1: 0 };
    let serial = Serial::full_duplex(&mut regs, &mut pmc, (tx, rx), default_config(), 150_000_000)
        .ok()
        .unwrap();
    regs.sr.rxrdy = true;
    regs.rhr = 0x5A;
    let mut expected = regs;
    let r = serial.read(&mut regs);
    assert_eq!(r, Ok(0x5A));
    expected.sr.rxrdy = false;
    assert_eq!(regs, expected);
}

#[test]
fn write_not_ready_leaves_the_transmit_register() {
    let (tx, rx) = uart2_pins();
    let mut regs = fresh_uart(UartId::Uart2);
    let mut pmc = PmcRegisters { pcsr0: 0, pcsr1: 0 };
    let serial = Serial::full_duplex(&mut regs, &mut pmc, (tx, rx), default_config(), 150_000_000)
        .ok()
        .unwrap();
    regs.thr = 0x11;
    let before = regs;
    let r = serial.write(&mut regs, 0x28);
    assert_eq!(r, Err(NbError::WouldBlock));
    assert_eq!(regs.thr, 0x11);
    assert_eq!(regs, before);
}

#[test]
fn write_ready_places_exactly_the_byte() {
    let (tx, rx) = uart2_pins();
    let mut regs = fresh_uart(UartId::Uart2);
    let mut pmc = PmcRegisters { pcsr0: 0, pcsr1: 0 };
    let serial = Serial::full_duplex(&mut regs, &mut pmc, (tx, rx), default_config(), 150_000_000)
        .ok()
        .unwrap();
    regs.sr.txrdy = true;
    let mut expected = regs;
    let r = serial.write(&mut regs, 0x28);
    assert_eq!(r, Ok(()));
    expected.thr = 0x28;
    assert_eq!(regs, expected);
}

#[test]
fn flush_polls_until_the_transmitter_drains() {
    let (tx, rx) = uart2_pins();
    let mut regs = fresh_uart(UartId::Uart2);
    let mut pmc = PmcRegisters { pcsr0: 0, pcsr1: 0 };
    let serial = Serial::full_duplex(&mut regs, &mut pmc, (tx, rx), default_config(), 150_000_000)
        .ok()
        .unwrap();
    // while the flag is clear, flush must not report success
    assert_eq!(serial.flush(&mut regs), Err(NbError::WouldBlock));
    // the harness raises the flag after three more polls
    let mut blocked = 0;
    loop {
        match serial.flush(&mut regs) {
            Ok(()) => break,
            Err(NbError::WouldBlock) => {
                blocked += 1;
                if blocked == 3 {
                    regs.sr.txempty = true;
                }
            }
            Err(NbError::Other(e)) => panic!("flush reported a device error: {:?}", e),
        }
    }
    assert_eq!(blocked, 3);
}

#[test]
fn construction_programs_the_whole_protocol() {
    let (tx, rx) = uart2_pins();
    let mut regs = fresh_uart(UartId::Uart2);
    // stale state from an earlier session: latched errors, stale mode
    regs.sr.ovre = true;
    regs.sr.frame = true;
    regs.sr.pare = true;
    regs.sr.rxrdy = true;
    regs.rhr = 0x33;
    regs.thr = 0x44;
    let mut pmc = PmcRegisters { pcsr0: 0, pcsr1: 0 };
    let config = Config::new(BaudRate(9600), Parity::Even, ChannelMode::LocalLoopback, true);
    let serial = Serial::full_duplex(&mut regs, &mut pmc, (tx, rx), config, 150_000_000)
        .ok()
        .unwrap();
    // UART2 is peripheral 44: its gate sits in the second clock-status word
    assert_eq!(pmc.pcsr0, 0);
    assert_eq!(pmc.pcsr1, 1 << (44 - 32));
    assert_eq!(regs.mr, UartMr { par: 0, chmode: 2, filter: true, periph_clk: true });
    assert_eq!(regs.brgr, 976);
    // the status reset cleared the latched errors and kept receiver-ready
    assert!(!regs.sr.ovre && !regs.sr.frame && !regs.sr.pare);
    assert!(regs.sr.rxrdy);
    assert_eq!(regs.rhr, 0x33);
    assert_eq!(regs.thr, 0x44);
    assert!(regs.tx_enabled && regs.rx_enabled);
    assert_eq!(serial.id, UartId::Uart2);
}

#[test]
fn tx_only_enables_the_transmitter_alone() {
    let (tx, _rx) = uart2_pins();
    let mut regs = fresh_uart(UartId::Uart2);
    let mut pmc = PmcRegisters { pcsr0: 0, pcsr1: 0 };
    let serial = Serial::tx_only(&mut regs, &mut pmc, tx, default_config(), 150_000_000)
        .ok()
        .unwrap();
    assert!(regs.tx_enabled);
    assert!(!regs.rx_enabled);
    assert_eq!(serial.id, UartId::Uart2);
}

#[test]
fn rx_only_enables_the_receiver_alone() {
    let (_tx, rx) = uart2_pins();
    let mut regs = fresh_uart(UartId::Uart2);
    let mut pmc = PmcRegisters { pcsr0: 0, pcsr1: 0 };
    let serial = Serial::rx_only(&mut regs, &mut pmc, rx, default_config(), 150_000_000)
        .ok()
        .unwrap();
    assert!(!regs.tx_enabled);
    assert!(regs.rx_enabled);
    assert_eq!(serial.id, UartId::Uart2);
}

#[test]
fn split_halves_transport_exactly_as_the_whole_driver() {
    // one write and one read through the un-split driver
    let (tx, rx) = uart2_pins();
    let mut regs_whole = fresh_uart(UartId::Uart2);
    let mut pmc_whole = PmcRegisters { pcsr0: 0, pcsr1: 0 };
    let serial =
        Serial::full_duplex(&mut regs_whole, &mut pmc_whole, (tx, rx), default_config(), 150_000_000)
            .ok()
            .unwrap();
    regs_whole.sr.txrdy = true;
    regs_whole.sr.rxrdy = true;
    regs_whole.rhr = 0x42;
    let w_whole = serial.write(&mut regs_whole, 0x28);
    let r_whole = serial.read(&mut regs_whole);

    // the same two transfers through the split halves
    let (tx, rx) = uart2_pins();
    let mut regs_split = fresh_uart(UartId::Uart2);
    let mut pmc_split = PmcRegisters { pcsr0: 0, pcsr1: 0 };
    let serial =
        Serial::full_duplex(&mut regs_split, &mut pmc_split, (tx, rx), default_config(), 150_000_000)
            .ok()
            .unwrap();
    regs_split.sr.txrdy = true;
    regs_split.sr.rxrdy = true;
    regs_split.rhr = 0x42;
    let (tx_half, rx_half) = serial.split();
    assert_eq!(tx_half.id, UartId::Uart2);
    assert_eq!(rx_half.id, UartId::Uart2);
    let w_split = tx_half.write(&mut regs_split, 0x28);
    let r_split = rx_half.read(&mut regs_split);

    // identical outcomes and identical register interactions
    assert_eq!(w_whole, w_split);
    assert_eq!(r_whole, r_split);
    assert_eq!(r_split, Ok(0x42));
    assert_eq!(regs_whole, regs_split);
    assert_eq!(regs_split.thr, 0x28);
    assert_eq!(pmc_whole, pmc_split);
}

#[test]
fn rejected_binding_touches_no_register() {
    // PD24 under alternate function 2 is no UART2 line
    let mut pmc_gpio = PmcRegisters { pcsr0: 0, pcsr1: 0 };
    let mut pio = fresh_pio(PortId::D);
    let mut pins = Port::new(PortId::D).split(&mut pmc_gpio);
    let rx = pins.remove(25).into_alternate_af2(&mut pio);
    let bad_tx = pins.remove(24).into_alternate_af2(&mut pio);

    let mut regs = fresh_uart(UartId::Uart2);
    let mut pmc = PmcRegisters { pcsr0: 0, pcsr1: 0 };
    let regs_before = regs;
    let pmc_before = pmc;
    match Serial::full_duplex(&mut regs, &mut pmc, (bad_tx, rx), default_config(), 150_000_000) {
        Ok(_) => panic!("an unsupported pairing was admitted"),
        Err((returned_tx, returned_rx)) => {
            assert_eq!(returned_tx.index, 24);
            assert_eq!(returned_rx.index, 25);
        }
    }
    assert_eq!(regs, regs_before);
    assert_eq!(pmc, pmc_before);
}

#[test]
fn rejected_tx_only_binding_returns_the_pin() {
    // the right pin under the wrong alternate function
    let mut pmc_gpio = PmcRegisters { pcsr0: 0, pcsr1: 0 };
    let mut pio = fresh_pio(PortId::D);
    let mut pins = Port::new(PortId::D).split(&mut pmc_gpio);
    let bad_tx = pins.remove(26).into_alternate_af3(&mut pio);

    let mut regs = fresh_uart(UartId::Uart2);
    let mut pmc = PmcRegisters { pcsr0: 0, pcsr1: 0 };
    let regs_before = regs;
    match Serial::tx_only(&mut regs, &mut pmc, bad_tx, default_config(), 150_000_000) {
        Ok(_) => panic!("an unsupported pairing was admitted"),
        Err(pin) => {
            assert_eq!(pin.index, 26);
            assert_eq!(pin.af, 3);
        }
    }
    assert_eq!(regs, regs_before);
    assert_eq!(pmc, PmcRegisters { pcsr0: 0, pcsr1: 0 });
}

#[test]
fn release_returns_the_instance_and_the_pins() {
    let (tx, rx) = uart2_pins();
    let mut regs = fresh_uart(UartId::Uart2);
    let mut pmc = PmcRegisters { pcsr0: 0, pcsr1: 0 };
    let serial = Serial::full_duplex(&mut regs, &mut pmc, (tx, rx), default_config(), 150_000_000)
        .ok()
        .unwrap();
    let (id, (tx, rx)) = serial.release();
    assert_eq!(id, UartId::Uart2);
    assert_eq!((tx.port, tx.index, tx.af), (PortId::D, 26, 2));
    assert_eq!((rx.port, rx.index, rx.af), (PortId::D, 25, 2));
}

#[test]
fn capability_table_admits_every_wired_pairing() {
    // transmit lines
    assert!(tx_pin_supported(UartId::Uart0, PortId::A, 10, 0));
    assert!(tx_pin_supported(UartId::Uart1, PortId::A, 4, 2));
    assert!(tx_pin_supported(UartId::Uart1, PortId::A, 6, 2));
    assert!(tx_pin_supported(UartId::Uart1, PortId::D, 26, 3));
    assert!(tx_pin_supported(UartId::Uart2, PortId::D, 26, 2));
    assert!(tx_pin_supported(UartId::Uart3, PortId::D, 30, 0));
    assert!(tx_pin_supported(UartId::Uart3, PortId::D, 31, 1));
    assert!(tx_pin_supported(UartId::Uart4, PortId::D, 19, 2));
    assert!(tx_pin_supported(UartId::Uart4, PortId::D, 3, 2));
    // receive lines
    assert!(rx_pin_supported(UartId::Uart0, PortId::A, 9, 0));
    assert!(rx_pin_supported(UartId::Uart1, PortId::A, 5, 2));
    assert!(rx_pin_supported(UartId::Uart2, PortId::D, 25, 2));
    assert!(rx_pin_supported(UartId::Uart3, PortId::D, 28, 0));
    assert!(rx_pin_supported(UartId::Uart4, PortId::D, 18, 2));
}

#[test]
fn capability_table_rejects_unwired_pairings() {
    // right pin, wrong alternate function
    assert!(!tx_pin_supported(UartId::Uart0, PortId::A, 10, 1));
    // right pin, wrong instance
    assert!(!tx_pin_supported(UartId::Uart3, PortId::D, 26, 2));
    // roles do not commute
    assert!(!tx_pin_supported(UartId::Uart2, PortId::D, 25, 2));
    assert!(!rx_pin_supported(UartId::Uart2, PortId::D, 26, 2));
    // wrong port altogether
    assert!(!tx_pin_supported(UartId::Uart0, PortId::B, 10, 0));
}

#[test]
fn parity_encodings_match_the_fixed_table() {
    assert_eq!(parity_code(&Parity::Even), 0);
    assert_eq!(parity_code(&Parity::Odd), 1);
    assert_eq!(parity_code(&Parity::Space), 2);
    assert_eq!(parity_code(&Parity::Mark), 3);
    assert_eq!(parity_code(&Parity::NoParity), 4);
}

#[test]
fn channel_mode_encodings_match_the_fixed_table() {
    assert_eq!(channel_mode_code(&ChannelMode::Normal), 0);
    assert_eq!(channel_mode_code(&ChannelMode::Automatic), 1);
    assert_eq!(channel_mode_code(&ChannelMode::LocalLoopback), 2);
    assert_eq!(channel_mode_code(&ChannelMode::RemoteLoopback), 3);
}

#[test]
fn uart0_binds_on_port_a_under_alternate_function_zero() {
    let mut pmc_gpio = PmcRegisters { pcsr0: 0, pcsr1: 0 };
    let mut pio = fresh_pio(PortId::A);
    let mut pins = Port::new(PortId::A).split(&mut pmc_gpio);
    let tx: Pin<Alternate<AF0>> = pins.remove(10).into_alternate_af0(&mut pio);
    let rx: Pin<Alternate<AF0>> = pins.remove(9).into_alternate_af0(&mut pio);
    let mut regs = fresh_uart(UartId::Uart0);
    let mut pmc = PmcRegisters { pcsr0: 0, pcsr1: 0 };
    let serial = Serial::full_duplex(&mut regs, &mut pmc, (tx, rx), default_config(), 150_000_000)
        .ok()
        .unwrap();
    assert_eq!(serial.id, UartId::Uart0);
    // UART0 is peripheral 7
    assert_eq!(pmc.pcsr0, 1 << 7);
}
