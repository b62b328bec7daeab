//! The noise channel: a 15-bit linear-feedback shift register stepped by
//! a timer whose period comes from a fixed 16-entry table.

use vstd::prelude::*;

use crate::apu::length_table;
use crate::apu::length_load;
use crate::apu_envelope::APUEnvelope;
use crate::apu_envelope::env_output;
use crate::apu_envelope::env_stepped;

verus! {

pub struct APUNoise {
    /// Current output level, 0 to 15.
    pub val: u8,
    /// Control register: loop/halt bit and the envelope nibble.
    pub cr: u8,
    /// Mode-and-period byte and the length byte.
    pub fq1: u8,
    pub fq2: u8,
    pub length_counter: u8,
    /// The 15-bit shift register, seeded with 1.
    pub shift_reg: u16,
    /// Timer countdown and its reload value.
    pub clock: u16,
    pub clock_div: u16,
    pub envelope: APUEnvelope,
}

/// One shift of the register: the feedback is the exclusive-or of bit 0
/// with bit 1 in long mode, or with bit 6 in short mode; the register
/// shifts right and the feedback enters at the top, bit 14.
pub open spec fn lfsr_stepped(s: u16, short: bool) -> u16 {
    let tap = if short {
        (s / 64) % 2
    } else {
        (s / 2) % 2
    };
    let feedback = s % 2 != tap;
    (s / 2 + if feedback {
        0x4000int
    } else {
        0int
    }) as u16
}

/// One LFSR step of the whole channel: the output is the envelope when
/// the new low bit reads 1, else silence.
pub open spec fn noise_seq_stepped(s: APUNoise) -> APUNoise {
    let sr = lfsr_stepped(s.shift_reg, s.fq1 & 0x80 != 0);
    APUNoise {
        shift_reg: sr,
        val: if sr % 2 == 1 {
            env_output(s.envelope)
        } else {
            0
        },
        ..s
    }
}

/// One timer tick: on expiry the register shifts if the length counter
/// still runs, and the timer reloads.
pub open spec fn noise_ticked(s: APUNoise) -> APUNoise {
    if s.clock == 0 {
        let s1 = if s.length_counter != 0 {
            noise_seq_stepped(s)
        } else {
            s
        };
        APUNoise { clock: s1.clock_div, ..s1 }
    } else {
        APUNoise { clock: (s.clock - 1) as u16, ..s }
    }
}

/// One length-counter tick: it counts down unless halted by the loop bit.
pub open spec fn noise_length_stepped(s: APUNoise) -> APUNoise {
    if s.cr & 0x20 == 0 && s.length_counter > 0 {
        APUNoise { length_counter: (s.length_counter - 1) as u8, ..s }
    } else {
        s
    }
}

/// The frame-sequencer work for one step.
pub open spec fn noise_frame_applied(s: APUNoise, half: bool, quarter: bool) -> APUNoise {
    let s1 = if half {
        noise_length_stepped(s)
    } else {
        s
    };
    if quarter {
        APUNoise { envelope: env_stepped(s1.envelope), ..s1 }
    } else {
        s1
    }
}

/// The 16-entry timer-period table, indexed by the low nibble of the
/// mode-and-period byte.
pub open spec fn noise_period(i: int) -> u16 {
    if i == 0 {
        0x0004
    } else if i == 1 {
        0x0008
    } else if i == 2 {
        0x0010
    } else if i == 3 {
        0x0020
    } else if i == 4 {
        0x0040
    } else if i == 5 {
        0x0060
    } else if i == 6 {
        0x0080
    } else if i == 7 {
        0x00A0
    } else if i == 8 {
        0x00CA
    } else if i == 9 {
        0x00FE
    } else if i == 10 {
        0x017C
    } else if i == 11 {
        0x01FC
    } else if i == 12 {
        0x02FA
    } else if i == 13 {
        0x03F8
    } else if i == 14 {
        0x07F2
    } else {
        0x0FE4
    }
}

impl APUNoise {
    pub open spec fn wf(&self) -> bool {
        &&& self.val <= 0x0F
        &&& 0 < self.shift_reg < 0x8000
        &&& self.envelope.wf()
    }

    pub open spec fn idle() -> APUNoise {
        APUNoise {
            val: 0,
            cr: 0,
            fq1: 0,
            fq2: 0,
            length_counter: 0,
            shift_reg: 1,
            clock: 0,
            clock_div: 0,
            envelope: APUEnvelope { val: 0, cr: 0, reset: false, clock: 0 },
        }
    }

    pub open spec fn with_cr(&self, v: u8) -> APUNoise {
        APUNoise { cr: v, envelope: APUEnvelope { cr: v, ..self.envelope }, ..*self }
    }

    pub open spec fn with_fq1(&self, v: u8) -> APUNoise {
        APUNoise { fq1: v, clock_div: noise_period(v as int % 16), ..*self }
    }

    pub open spec fn with_fq2(&self, v: u8) -> APUNoise {
        APUNoise {
            fq2: v,
            length_counter: length_table(v as int / 8),
            envelope: APUEnvelope { reset: true, ..self.envelope },
            ..*self
        }
    }

    pub open spec fn with_enable(&self, v: u8) -> APUNoise {
        if v & 0x08 == 0 {
            APUNoise { length_counter: 0, ..*self }
        } else {
            *self
        }
    }

    pub fn new() -> (n: APUNoise)
        ensures
            n.wf(),
            n == Self::idle(),
    {
        APUNoise {
            val: 0,
            cr: 0,
            fq1: 0,
            fq2: 0,
            length_counter: 0,
            shift_reg: 1,
            clock: 0,
            clock_div: 0,
            envelope: APUEnvelope::new(),
        }
    }

    pub fn clock(&mut self)
        requires
            old(self).wf(),
        ensures
            final(self).wf(),
            *final(self) == noise_ticked(*old(self)),
    {
        if self.clock == 0 {
            if self.length_counter != 0 {
                self.next_seq();
            }
            self.clock = self.clock_div;
        } else {
            self.clock = self.clock - 1;
        }
    }

    pub fn length_clock(&mut self)
        requires
            old(self).wf(),
        ensures
            final(self).wf(),
            *final(self) == noise_length_stepped(*old(self)),
    {
        if self.cr & 0x20 == 0 && self.length_counter > 0 {
            self.length_counter = self.length_counter - 1;
        }
    }

    pub fn envelope_clock(&mut self)
        requires
            old(self).wf(),
        ensures
            final(self).wf(),
            *final(self) == (APUNoise { envelope: env_stepped(old(self).envelope), ..*old(self) }),
    {
        self.envelope.clock();
    }

    pub fn set_cr(&mut self, v: u8) -> (r: u8)
        requires
            old(self).wf(),
        ensures
            final(self).wf(),
            *final(self) == old(self).with_cr(v),
            r == v,
    {
        self.cr = v;
        self.envelope.set_cr(v);
        self.cr
    }

    pub fn set_fq1(&mut self, v: u8) -> (r: u8)
        requires
            old(self).wf(),
        ensures
            final(self).wf(),
            *final(self) == old(self).with_fq1(v),
            r == v,
    {
        self.fq1 = v;
        self.clock_div = match v % 16 {
            0 => 0x0004,
            1 => 0x0008,
            2 => 0x0010,
            3 => 0x0020,
            4 => 0x0040,
            5 => 0x0060,
            6 => 0x0080,
            7 => 0x00A0,
            8 => 0x00CA,
            9 => 0x00FE,
            10 => 0x017C,
            11 => 0x01FC,
            12 => 0x02FA,
            13 => 0x03F8,
            14 => 0x07F2,
            _ => 0x0FE4,
        };
        self.fq1
    }

    /// Writing the length byte reloads the length counter from the table
    /// entry picked by the top five bits and restarts the envelope.
    pub fn set_fq2(&mut self, v: u8) -> (r: u8)
        requires
            old(self).wf(),
        ensures
            final(self).wf(),
            *final(self) == old(self).with_fq2(v),
            final(self).length_counter == length_table(v as int / 8),
            r == v,
    {
        self.fq2 = v;
        self.length_counter = length_load(v);
        self.envelope.reset();
        self.fq2
    }

    /// A cleared channel-enable bit zeroes the length counter.
    pub fn set_ch_ctrl(&mut self, v: u8)
        requires
            old(self).wf(),
        ensures
            final(self).wf(),
            *final(self) == old(self).with_enable(v),
    {
        if v & 0x08 == 0 {
            self.length_counter = 0;
        }
    }

    /// One shift of the register, from the mode picked by bit 7 of the
    /// mode-and-period byte.
    pub fn next_seq(&mut self)
        requires
            old(self).wf(),
        ensures
            final(self).wf(),
            *final(self) == noise_seq_stepped(*old(self)),
    {
        let tap: u16 = if self.fq1 & 0x80 != 0 {
            (self.shift_reg / 64) % 2
        } else {
            (self.shift_reg / 2) % 2
        };
        let feedback: bool = self.shift_reg % 2 != tap;
        self.shift_reg = self.shift_reg / 2 + if feedback {
            0x4000
        } else {
            0
        };
        if self.shift_reg % 2 == 1 {
            self.val = self.envelope.val();
        } else {
            self.val = 0;
        }
    }
}

} // verus!
