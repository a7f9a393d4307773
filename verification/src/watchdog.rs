//! Watchdog timer: the enable/disable/feed interface boundary.
//!
//! The timer's mode register holds a twelve-bit counter value `wdv` and the
//! disable bit `wddis`; restart commands go through the control register,
//! guarded by the fixed key password.

use vstd::prelude::*;

verus! {

/// The key a control-register write must carry for the watchdog to honour it.
pub const WDT_KEY_PASSWD: u8 = 0xA5;

/// The mask of the mode register's twelve-bit counter-value field.
pub const WDT_VALUE_MASK: u16 = 0x0FFF;

/// Register state of the watchdog timer: the mode register's counter value
/// and disable bit, and the key carried by the last control-register write.
#[derive(Clone, Copy, PartialEq, Eq, Structural, Debug)]
pub struct WdtRegisters {
    pub mr_wdv: u16,
    pub mr_wddis: bool,
    pub cr_key: u8,
}

/// Owns the watchdog timer's register block.
pub struct Watchdog {
    pub wdt: WdtRegisters,
}

impl Watchdog {
    /// Takes ownership of the watchdog's register block.
    pub fn new(wdt: WdtRegisters) -> (r: Watchdog)
        ensures
            r.wdt == wdt,
    {
        Watchdog { wdt }
    }

    /// Starts the watchdog: programs the mode register with the period,
    /// masked to the twelve-bit counter field, and clears the disable bit.
    pub fn start(&mut self, period: u16)
        ensures
            final(self).wdt == (WdtRegisters {
                mr_wdv: period & WDT_VALUE_MASK,
                mr_wddis: false,
                cr_key: old(self).wdt.cr_key,
            }),
    {
        self.wdt.mr_wdv = period & WDT_VALUE_MASK;
        self.wdt.mr_wddis = false;
    }

    /// Disables the watchdog: sets the mode register's disable bit, leaving
    /// the counter value as it was.
    pub fn disable(&mut self)
        ensures
            final(self).wdt == (WdtRegisters { mr_wddis: true, ..old(self).wdt }),
    {
        self.wdt.mr_wddis = true;
    }

    /// Feeds the watchdog: writes the key password to the control register,
    /// restarting the counter. The mode register does not move.
    pub fn feed(&mut self)
        ensures
            final(self).wdt == (WdtRegisters { cr_key: WDT_KEY_PASSWD, ..old(self).wdt }),
    {
        self.wdt.cr_key = WDT_KEY_PASSWD;
    }
}

} // verus!
