use samv71_hal::gpio::{Pin, PioRegisters, Port, PortId, Input, Floating};
use samv71_hal::pmc::PmcRegisters;

fn fresh_pio(id: PortId) -> PioRegisters {
    PioRegisters {
        id,
        psr: 0,
        abcdsr0: 0,
        abcdsr1: 0,
        pusr: 0,
        ppdsr: 0,
        osr: 0,
        odsr: 0,
        pdsr: 0,
    }
}

fn take_pin(port: PortId, index: usize) -> Pin<Input<Floating>> {
    let mut pmc = PmcRegisters { pcsr0: 0, pcsr1: 0 };
    let mut pins = Port::new(port).split(&mut pmc);
    pins.remove(index)
}

#[test]
fn port_split_yields_thirty_two_floating_inputs() {
    let mut pmc = PmcRegisters { pcsr0: 0, pcsr1: 0 };
    let pins = Port::new(PortId::D).split(&mut pmc);
    assert_eq!(pins.len(), 32);
    for (i, pin) in pins.iter().enumerate() {
        assert_eq!(pin.port, PortId::D);
        assert_eq!(pin.index as usize, i);
        assert_eq!(pin.af, 0);
    }
    // port D's PIO controller is peripheral 16: split opens its clock gate
    assert_eq!(pmc.pcsr0, 1 << 16);
    assert_eq!(pmc.pcsr1, 0);
}

#[test]
fn port_split_enables_each_ports_own_clock() {
    let mut pmc = PmcRegisters { pcsr0: 0, pcsr1: 0 };
    Port::new(PortId::A).split(&mut pmc);
    assert_eq!(pmc.pcsr0, 1 << 10);
    Port::new(PortId::B).split(&mut pmc);
    assert_eq!(pmc.pcsr0, (1 << 10) | (1 << 11));
    Port::new(PortId::E).split(&mut pmc);
    assert_eq!(pmc.pcsr0, (1 << 10) | (1 << 11) | (1 << 17));
}

#[test]
fn enable_and_disable_touch_only_the_pins_psr_bit() {
    let mut pio = fresh_pio(PortId::A);
    pio.psr = 0x8000_0001;
    let pin = take_pin(PortId::A, 9);
    let pin = pin.enable(&mut pio);
    assert_eq!(pio.psr, 0x8000_0201);
    let _pin = pin.disable(&mut pio);
    assert_eq!(pio.psr, 0x8000_0001);
    // nothing else moved
    assert_eq!(pio.abcdsr0, 0);
    assert_eq!(pio.odsr, 0);
}

#[test]
fn alternate_function_two_programs_selector_bits() {
    let mut pio = fresh_pio(PortId::D);
    pio.abcdsr0 = 0xFFFF_FFFF;
    pio.abcdsr1 = 0;
    let pin = take_pin(PortId::D, 26);
    let pin = pin.into_alternate_af2(&mut pio);
    assert_eq!(pin.af, 2);
    assert_eq!(pin.port, PortId::D);
    assert_eq!(pin.index, 26);
    // alternate function 2: low selector bit 0, high selector bit 1
    assert_eq!(pio.abcdsr0, 0xFFFF_FFFF & !(1 << 26));
    assert_eq!(pio.abcdsr1, 1 << 26);
}

#[test]
fn alternate_function_three_sets_both_selector_bits() {
    let mut pio = fresh_pio(PortId::D);
    let pin = take_pin(PortId::D, 31);
    let pin = pin.into_alternate_af3(&mut pio);
    assert_eq!(pin.af, 3);
    assert_eq!(pio.abcdsr0, 1u32 << 31);
    assert_eq!(pio.abcdsr1, 1u32 << 31);
}

#[test]
fn alternate_function_zero_clears_both_selector_bits() {
    let mut pio = fresh_pio(PortId::A);
    pio.abcdsr0 = 1 << 10;
    pio.abcdsr1 = 1 << 10;
    let pin = take_pin(PortId::A, 10);
    let pin = pin.into_alternate_af0(&mut pio);
    assert_eq!(pin.af, 0);
    assert_eq!(pio.abcdsr0, 0);
    assert_eq!(pio.abcdsr1, 0);
}

#[test]
fn alternate_transition_leaves_other_pins_selectors_alone() {
    let mut pio = fresh_pio(PortId::A);
    pio.abcdsr0 = 0b1010_1010;
    pio.abcdsr1 = 0b0101_0101;
    let pin = take_pin(PortId::A, 4);
    let _pin = pin.into_alternate_af1(&mut pio);
    // alternate function 1: low bit set, high bit cleared, on bit 4 only
    assert_eq!(pio.abcdsr0, 0b1011_1010);
    assert_eq!(pio.abcdsr1, 0b0100_0101);
}

#[test]
fn pull_up_and_pull_down_inputs_set_their_bits() {
    let mut pio = fresh_pio(PortId::B);
    let up = take_pin(PortId::B, 0).into_pull_up_input(&mut pio);
    let down = take_pin(PortId::B, 1).into_pull_down_input(&mut pio);
    assert_eq!(pio.pusr, 1 << 0);
    assert_eq!(pio.ppdsr, 1 << 1);
    assert_eq!(up.index, 0);
    assert_eq!(down.index, 1);
}

#[test]
fn output_pin_drives_and_reads_back() {
    let mut pio = fresh_pio(PortId::C);
    let pin = take_pin(PortId::C, 7).into_output(&mut pio);
    assert_eq!(pio.osr, 1 << 7);
    assert!(pin.is_set_low(&pio));
    pin.set_high(&mut pio);
    assert_eq!(pio.odsr, 1 << 7);
    assert!(pin.is_set_high(&pio));
    pin.set_low(&mut pio);
    assert_eq!(pio.odsr, 0);
    assert!(pin.is_set_low(&pio));
}

#[test]
fn open_drain_output_reads_the_line_level() {
    let mut pio = fresh_pio(PortId::C);
    let pin = take_pin(PortId::C, 3).into_output(&mut pio);
    pin.set_high(&mut pio);
    // an external device holds the released line low
    pio.pdsr = 0;
    assert!(pin.is_low(&pio));
    pio.pdsr = 1 << 3;
    assert!(pin.is_high(&pio));
}

#[test]
fn input_pin_reads_the_pin_data_register() {
    let mut pio = fresh_pio(PortId::E);
    pio.pdsr = 1 << 12;
    let pin = take_pin(PortId::E, 12).into_pull_up_input(&mut pio);
    assert!(pin.is_high(&pio));
    pio.pdsr = 0;
    assert!(pin.is_low(&pio));
}
