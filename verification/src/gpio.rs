//! Pin state model for the parallel-I/O (PIO) controllers.
//!
//! A [`Pin`] carries its identity (port and index) at run time and its
//! electrical mode in its type, so that only the operations valid for the
//! current mode exist on the value. Every mode transition consumes the pin and
//! returns the newly-tagged value, and performs the same register effects on
//! the owning port's [`PioRegisters`] block that the hardware write sequence
//! would: the old value is gone, so two conflicting configurations of one
//! physical pin never coexist.
//!
//! The port's configuration registers are shared by all 32 pins, so every
//! transition takes the block by exclusive borrow: the borrow is the caller's
//! mutual-exclusion token, and it serializes the read-modify-write sequences
//! against anything else that could touch the port.

use vstd::prelude::*;
use core::marker::PhantomData;
use crate::pmc::{PmcRegisters, spec_enable_clock, enable_peripheral_clock};
use crate::pmc::{PID_PIOA, PID_PIOB, PID_PIOC, PID_PIOD, PID_PIOE};

verus! {

/// Identity of one parallel-I/O controller (one port of 32 pins).
#[derive(Clone, Copy, PartialEq, Eq, Structural, Debug)]
pub enum PortId {
    A,
    B,
    C,
    D,
    E,
}

/// The peripheral identifier of a port's PIO controller.
pub open spec fn spec_port_pid(port: PortId) -> u8 {
    match port {
        PortId::A => PID_PIOA,
        PortId::B => PID_PIOB,
        PortId::C => PID_PIOC,
        PortId::D => PID_PIOD,
        PortId::E => PID_PIOE,
    }
}

/// Returns the peripheral identifier of a port's PIO controller.
pub fn port_pid(port: PortId) -> (r: u8)
    ensures
        r == spec_port_pid(port),
{
    match port {
        PortId::A => PID_PIOA,
        PortId::B => PID_PIOB,
        PortId::C => PID_PIOC,
        PortId::D => PID_PIOD,
        PortId::E => PID_PIOE,
    }
}

/// Configuration and data state of one PIO controller, one bit per pin.
///
/// Each word mirrors the controller's status view after the write-only
/// set/clear register pairs have acted on it: `psr` (PIO enable, PER/PDR),
/// `abcdsr0`/`abcdsr1` (the two alternate-function selector bits), `pusr`
/// (pull-up enable, PUER), `ppdsr` (pull-down enable, PPDER), `osr` (output
/// driver enable, OER), `odsr` (output data, SODR/CODR) and `pdsr` (the pin
/// levels the hardware drives; this model only reads it).
#[derive(Clone, Copy, PartialEq, Eq, Structural, Debug)]
pub struct PioRegisters {
    pub id: PortId,
    pub psr: u32,
    pub abcdsr0: u32,
    pub abcdsr1: u32,
    pub pusr: u32,
    pub ppdsr: u32,
    pub osr: u32,
    pub odsr: u32,
    pub pdsr: u32,
}

/// `mask` with bit `index` set.
pub open spec fn spec_bit_set(mask: u32, index: u8) -> u32
    recommends
        index < 32,
{
    mask | (1u32 << (index as u32))
}

/// `mask` with bit `index` cleared.
pub open spec fn spec_bit_clear(mask: u32, index: u8) -> u32
    recommends
        index < 32,
{
    mask & !(1u32 << (index as u32))
}

/// Whether bit `index` of `mask` is set.
pub open spec fn spec_bit_is_set(mask: u32, index: u8) -> bool
    recommends
        index < 32,
{
    mask & (1u32 << (index as u32)) != 0
}

/// Alternate function 0 (peripheral line A).
pub struct AF0;

/// Alternate function 1 (peripheral line B).
pub struct AF1;

/// Alternate function 2 (peripheral line C).
pub struct AF2;

/// Alternate function 3 (peripheral line D).
pub struct AF3;

/// Open-drain output configuration.
pub struct OpenDrain;

/// Floating input configuration: neither pull resistor is engaged.
pub struct Floating;

/// Input configuration with the pull-down resistor engaged.
pub struct PullDown;

/// Input configuration with the pull-up resistor engaged.
pub struct PullUp;

/// Analog configuration (reserved: no transition into it is offered yet).
pub struct Analog;

/// Mode tag of a pin multiplexed to an alternate function `AF`.
pub struct Alternate<AF> {
    _af: PhantomData<AF>,
}

/// Mode tag of an input pin with pull configuration `MODE`.
pub struct Input<MODE> {
    _mode: PhantomData<MODE>,
}

/// Mode tag of an output pin with driver configuration `MODE`.
pub struct Output<MODE> {
    _mode: PhantomData<MODE>,
}

/// One physical pin, in the electrical mode named by `MODE`.
///
/// `port` and `index` identify the pin; `af` is the alternate-function
/// selector most recently programmed for it (meaningful while the mode is
/// `Alternate<_>`, retained across other transitions as the hardware retains
/// the selector field). Pins are created only by [`Port::split`], one value
/// per physical pin.
pub struct Pin<MODE> {
    pub port: PortId,
    pub index: u8,
    pub af: u8,
    pub _mode: PhantomData<MODE>,
}

impl<MODE> Pin<MODE> {
    /// The pin's index names one of the port's 32 lines, and its selector is
    /// one of the four alternate functions.
    pub open spec fn wf(self) -> bool {
        self.index < 32 && self.af < 4
    }

    /// Hands the pin's line to the PIO controller (a PER write): sets the
    /// pin's bit of `psr`, leaving the mode tag and every other bit unchanged.
    pub fn enable(self, regs: &mut PioRegisters) -> (r: Self)
        requires
            self.wf(),
            old(regs).id == self.port,
        ensures
            r == self,
            *final(regs) == (PioRegisters { psr: spec_bit_set(old(regs).psr, self.index), ..*old(
                regs,
            ) }),
    {
        regs.psr = regs.psr | (1u32 << (self.index as u32));
        self
    }

    /// Hands the pin's line back to the peripheral multiplexer (a PDR write):
    /// clears the pin's bit of `psr`, leaving everything else unchanged.
    pub fn disable(self, regs: &mut PioRegisters) -> (r: Self)
        requires
            self.wf(),
            old(regs).id == self.port,
        ensures
            r == self,
            *final(regs) == (PioRegisters { psr: spec_bit_clear(old(regs).psr, self.index), ..*old(
                regs,
            ) }),
    {
        regs.psr = regs.psr & !(1u32 << (self.index as u32));
        self
    }

    /// Moves the pin to alternate function 0.
    pub fn into_alternate_af0(self, regs: &mut PioRegisters) -> (r: Pin<Alternate<AF0>>)
        requires
            self.wf(),
            old(regs).id == self.port,
        ensures
            r.port == self.port && r.index == self.index && r.af == 0,
            *final(regs) == spec_set_alternate(*old(regs), self.index, 0),
    {
        set_alternate_mode(regs, self.index, 0);
        Pin { port: self.port, index: self.index, af: 0, _mode: PhantomData }
    }

    /// Moves the pin to alternate function 1.
    pub fn into_alternate_af1(self, regs: &mut PioRegisters) -> (r: Pin<Alternate<AF1>>)
        requires
            self.wf(),
            old(regs).id == self.port,
        ensures
            r.port == self.port && r.index == self.index && r.af == 1,
            *final(regs) == spec_set_alternate(*old(regs), self.index, 1),
    {
        set_alternate_mode(regs, self.index, 1);
        Pin { port: self.port, index: self.index, af: 1, _mode: PhantomData }
    }

    /// Moves the pin to alternate function 2.
    pub fn into_alternate_af2(self, regs: &mut PioRegisters) -> (r: Pin<Alternate<AF2>>)
        requires
            self.wf(),
            old(regs).id == self.port,
        ensures
            r.port == self.port && r.index == self.index && r.af == 2,
            *final(regs) == spec_set_alternate(*old(regs), self.index, 2),
    {
        set_alternate_mode(regs, self.index, 2);
        Pin { port: self.port, index: self.index, af: 2, _mode: PhantomData }
    }

    /// Moves the pin to alternate function 3.
    pub fn into_alternate_af3(self, regs: &mut PioRegisters) -> (r: Pin<Alternate<AF3>>)
        requires
            self.wf(),
            old(regs).id == self.port,
        ensures
            r.port == self.port && r.index == self.index && r.af == 3,
            *final(regs) == spec_set_alternate(*old(regs), self.index, 3),
    {
        set_alternate_mode(regs, self.index, 3);
        Pin { port: self.port, index: self.index, af: 3, _mode: PhantomData }
    }

    /// Moves the pin to pull-down input mode (a PPDER write): sets the pin's
    /// bit of `ppdsr`, leaving everything else unchanged.
    pub fn into_pull_down_input(self, regs: &mut PioRegisters) -> (r: Pin<Input<PullDown>>)
        requires
            self.wf(),
            old(regs).id == self.port,
        ensures
            r.port == self.port && r.index == self.index && r.af == self.af,
            *final(regs) == (PioRegisters {
                ppdsr: spec_bit_set(old(regs).ppdsr, self.index),
                ..*old(regs)
            }),
    {
        regs.ppdsr = regs.ppdsr | (1u32 << (self.index as u32));
        Pin { port: self.port, index: self.index, af: self.af, _mode: PhantomData }
    }

    /// Moves the pin to pull-up input mode (a PUER write): sets the pin's bit
    /// of `pusr`, leaving everything else unchanged.
    pub fn into_pull_up_input(self, regs: &mut PioRegisters) -> (r: Pin<Input<PullUp>>)
        requires
            self.wf(),
            old(regs).id == self.port,
        ensures
            r.port == self.port && r.index == self.index && r.af == self.af,
            *final(regs) == (PioRegisters {
                pusr: spec_bit_set(old(regs).pusr, self.index),
                ..*old(regs)
            }),
    {
        regs.pusr = regs.pusr | (1u32 << (self.index as u32));
        Pin { port: self.port, index: self.index, af: self.af, _mode: PhantomData }
    }

    /// Moves the pin to open-drain output mode (an OER write): sets the pin's
    /// bit of `osr`, leaving everything else unchanged.
    pub fn into_output(self, regs: &mut PioRegisters) -> (r: Pin<Output<OpenDrain>>)
        requires
            self.wf(),
            old(regs).id == self.port,
        ensures
            r.port == self.port && r.index == self.index && r.af == self.af,
            *final(regs) == (PioRegisters {
                osr: spec_bit_set(old(regs).osr, self.index),
                ..*old(regs)
            }),
    {
        regs.osr = regs.osr | (1u32 << (self.index as u32));
        Pin { port: self.port, index: self.index, af: self.af, _mode: PhantomData }
    }
}

/// The port state after pin `index` is multiplexed to alternate function
/// `af`: the pin's bit of each selector word takes the matching bit of `af`
/// (`abcdsr0` its low bit, `abcdsr1` its high bit), and no other bit moves.
pub open spec fn spec_set_alternate(regs: PioRegisters, index: u8, af: u8) -> PioRegisters
    recommends
        index < 32,
        af < 4,
{
    PioRegisters {
        abcdsr0: if af & 1 == 1 {
            spec_bit_set(regs.abcdsr0, index)
        } else {
            spec_bit_clear(regs.abcdsr0, index)
        },
        abcdsr1: if (af >> 1) & 1 == 1 {
            spec_bit_set(regs.abcdsr1, index)
        } else {
            spec_bit_clear(regs.abcdsr1, index)
        },
        ..regs
    }
}

/// Programs the two-bit alternate-function selector of pin `index`: one
/// read-modify-write on each selector word, touching only the pin's bit.
fn set_alternate_mode(regs: &mut PioRegisters, index: u8, af: u8)
    requires
        index < 32,
        af < 4,
    ensures
        *final(regs) == spec_set_alternate(*old(regs), index, af),
{
    let mask: u32 = 1u32 << (index as u32);
    if af & 1 == 1 {
        regs.abcdsr0 = regs.abcdsr0 | mask;
    } else {
        regs.abcdsr0 = regs.abcdsr0 & !mask;
    }
    if (af >> 1) & 1 == 1 {
        regs.abcdsr1 = regs.abcdsr1 | mask;
    } else {
        regs.abcdsr1 = regs.abcdsr1 & !mask;
    }
}

impl<MODE> Pin<Output<MODE>> {
    /// Drives the line high (a SODR write): sets the pin's bit of `odsr`.
    pub fn set_high(&self, regs: &mut PioRegisters)
        requires
            self.wf(),
            old(regs).id == self.port,
        ensures
            *final(regs) == (PioRegisters {
                odsr: spec_bit_set(old(regs).odsr, self.index),
                ..*old(regs)
            }),
    {
        regs.odsr = regs.odsr | (1u32 << (self.index as u32));
    }

    /// Drives the line low (a CODR write): clears the pin's bit of `odsr`.
    pub fn set_low(&self, regs: &mut PioRegisters)
        requires
            self.wf(),
            old(regs).id == self.port,
        ensures
            *final(regs) == (PioRegisters {
                odsr: spec_bit_clear(old(regs).odsr, self.index),
                ..*old(regs)
            }),
    {
        regs.odsr = regs.odsr & !(1u32 << (self.index as u32));
    }

    /// Whether the output data register drives this line high.
    pub fn is_set_high(&self, regs: &PioRegisters) -> (r: bool)
        requires
            self.wf(),
            regs.id == self.port,
        ensures
            r == spec_bit_is_set(regs.odsr, self.index),
    {
        regs.odsr & (1u32 << (self.index as u32)) != 0
    }

    /// Whether the output data register drives this line low.
    pub fn is_set_low(&self, regs: &PioRegisters) -> (r: bool)
        requires
            self.wf(),
            regs.id == self.port,
        ensures
            r == !spec_bit_is_set(regs.odsr, self.index),
    {
        regs.odsr & (1u32 << (self.index as u32)) == 0
    }
}

impl<MODE> Pin<Input<MODE>> {
    /// Whether the hardware reads this line as high.
    pub fn is_high(&self, regs: &PioRegisters) -> (r: bool)
        requires
            self.wf(),
            regs.id == self.port,
        ensures
            r == spec_bit_is_set(regs.pdsr, self.index),
    {
        regs.pdsr & (1u32 << (self.index as u32)) != 0
    }

    /// Whether the hardware reads this line as low.
    pub fn is_low(&self, regs: &PioRegisters) -> (r: bool)
        requires
            self.wf(),
            regs.id == self.port,
        ensures
            r == !spec_bit_is_set(regs.pdsr, self.index),
    {
        regs.pdsr & (1u32 << (self.index as u32)) == 0
    }
}

impl Pin<Output<OpenDrain>> {
    /// Whether the line itself reads high: an open-drain output can be read
    /// back, since an external device may hold the released line low.
    pub fn is_high(&self, regs: &PioRegisters) -> (r: bool)
        requires
            self.wf(),
            regs.id == self.port,
        ensures
            r == spec_bit_is_set(regs.pdsr, self.index),
    {
        regs.pdsr & (1u32 << (self.index as u32)) != 0
    }

    /// Whether the line itself reads low.
    pub fn is_low(&self, regs: &PioRegisters) -> (r: bool)
        requires
            self.wf(),
            regs.id == self.port,
        ensures
            r == !spec_bit_is_set(regs.pdsr, self.index),
    {
        regs.pdsr & (1u32 << (self.index as u32)) == 0
    }
}

/// Ownership of one whole port, before it is split into its pins.
pub struct Port {
    pub id: PortId,
}

impl Port {
    /// Claims a port. One value should exist per physical port; the caller
    /// owns that discipline, as it owns the register blocks themselves.
    pub fn new(id: PortId) -> (r: Port)
        ensures
            r.id == id,
    {
        Port { id }
    }

    /// Opens the port's clock gate and splits the port into its 32 pins, each
    /// starting as a floating input with selector 0. Consuming the port makes
    /// this the only source of pin values: one value per physical pin.
    pub fn split(self, pmc: &mut PmcRegisters) -> (pins: Vec<Pin<Input<Floating>>>)
        ensures
            *final(pmc) == spec_enable_clock(*old(pmc), spec_port_pid(self.id)),
            pins.len() == 32,
            forall|i: int|
                0 <= i < 32 ==> (#[trigger] pins[i]).port == self.id && pins[i].index == i
                    && pins[i].af == 0,
    {
        enable_peripheral_clock(pmc, port_pid(self.id));
        let mut pins: Vec<Pin<Input<Floating>>> = Vec::new();
        let mut index: u8 = 0;
        while index < 32
            invariant
                index <= 32,
                pins.len() == index,
                forall|i: int|
                    0 <= i < index ==> (#[trigger] pins[i]).port == self.id && pins[i].index == i
                        && pins[i].af == 0,
            decreases 32 - index,
        {
            pins.push(Pin { port: self.id, index, af: 0, _mode: PhantomData });
            index = index + 1;
        }
        pins
    }
}

} // verus!
