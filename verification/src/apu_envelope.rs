//! The volume envelope shared by the square and noise channels.
//!
//! The envelope either decays from 15 under its divider, looping when the
//! loop bit is set, or is bypassed for a constant volume taken from the
//! low nibble of its control byte.

use vstd::prelude::*;

use crate::bits::lemma_u8_and_le;

verus! {

pub struct APUEnvelope {
    /// Current decay level, 0 to 15.
    pub val: u8,
    /// Control byte: bit 5 loop, bit 4 constant volume, low nibble the
    /// divider period or the constant volume.
    pub cr: u8,
    /// Set by a length-register write; the next clock restarts the decay.
    pub reset: bool,
    /// Divider countdown.
    pub clock: u8,
}

/// One envelope tick.
pub open spec fn env_stepped(e: APUEnvelope) -> APUEnvelope {
    if e.reset {
        APUEnvelope { val: 0x0F, clock: e.cr & 0x0F, reset: false, ..e }
    } else if e.clock == 0 {
        if e.val == 0 {
            if e.cr & 0x20 != 0 {
                APUEnvelope { val: 0x0F, ..e }
            } else {
                e
            }
        } else {
            APUEnvelope { val: (e.val - 1) as u8, ..e }
        }
    } else {
        APUEnvelope { clock: (e.clock - 1) as u8, ..e }
    }
}

/// The audible volume: the decay level, or the constant volume when the
/// constant-volume bit is set.
pub open spec fn env_output(e: APUEnvelope) -> u8 {
    if e.cr & 0x10 == 0 {
        e.val
    } else {
        e.cr & 0x0F
    }
}

impl APUEnvelope {
    pub open spec fn wf(&self) -> bool {
        self.val <= 0x0F
    }

    pub fn new() -> (e: APUEnvelope)
        ensures
            e.wf(),
            e == (APUEnvelope { val: 0, cr: 0, reset: false, clock: 0 }),
    {
        APUEnvelope { val: 0, cr: 0, reset: false, clock: 0 }
    }

    pub fn set_cr(&mut self, v: u8)
        ensures
            *final(self) == (APUEnvelope { cr: v, ..*old(self) }),
    {
        self.cr = v;
    }

    pub fn clock(&mut self)
        requires
            old(self).wf(),
        ensures
            final(self).wf(),
            *final(self) == env_stepped(*old(self)),
    {
        if self.reset {
            self.val = 0x0F;
            self.clock = self.cr & 0x0F;
            self.reset = false;
        } else {
            if self.clock == 0 {
                if self.val == 0 {
                    if self.cr & 0x20 != 0 {
                        self.val = 0x0F;
                    }
                } else {
                    self.val -= 1;
                }
            } else {
                self.clock -= 1;
            }
        }
    }

    pub fn reset(&mut self)
        ensures
            *final(self) == (APUEnvelope { reset: true, ..*old(self) }),
    {
        self.reset = true;
    }

    pub fn val(&self) -> (r: u8)
        requires
            self.wf(),
        ensures
            r == env_output(*self),
            r <= 0x0F,
    {
        proof {
            lemma_u8_and_le(self.cr, 0x0F);
        }
        if self.cr & 0x10 == 0 {
            self.val
        } else {
            self.cr & 0x0F
        }
    }
}

} // verus!
