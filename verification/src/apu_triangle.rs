//! The triangle channel: a 32-step waveform that runs only while both the
//! length counter and the linear counter are non-zero.

use vstd::prelude::*;

use crate::apu::length_table;
use crate::apu::length_load;
use crate::bits::lemma_u8_and_le;

verus! {

pub struct APUTriangle {
    /// Current output level, 0 to 15.
    pub val: u8,
    /// Control register: bit 7 halts the length counter and keeps the
    /// reload flag, the low seven bits reload the linear counter.
    pub cr1: u8,
    /// Timer low byte and the length/timer-high byte.
    pub fq1: u8,
    pub fq2: u8,
    /// Timer countdown and its 11-bit reload value.
    pub clock: u16,
    pub clock_div: u16,
    pub length_counter: u8,
    pub linear_counter: u8,
    /// Set by a length-register write; the next linear clock reloads.
    pub linear_reload: bool,
    /// Position in the 32-step waveform.
    pub seq: u8,
}

/// The 32-step triangle waveform: 15 down to 0, then 0 up to 15.
pub open spec fn tri_wave(s: u8) -> u8 {
    if s < 16 {
        (15 - s) as u8
    } else {
        (s - 16) as u8
    }
}

/// One waveform step.
pub open spec fn tri_seq_stepped(s: APUTriangle) -> APUTriangle {
    APUTriangle { val: tri_wave(s.seq), seq: ((s.seq + 1) % 32) as u8, ..s }
}

/// One timer tick: on expiry the waveform advances when both counters
/// run, and the timer reloads either way.
pub open spec fn tri_ticked(s: APUTriangle) -> APUTriangle {
    if s.clock == 0 {
        let s1 = if s.length_counter != 0 && s.linear_counter != 0 {
            tri_seq_stepped(s)
        } else {
            s
        };
        APUTriangle { clock: s1.clock_div, ..s1 }
    } else {
        APUTriangle { clock: (s.clock - 1) as u16, ..s }
    }
}

/// One length-counter tick: it counts down unless halted by bit 7.
pub open spec fn tri_length_stepped(s: APUTriangle) -> APUTriangle {
    if s.cr1 & 0x80 == 0 && s.length_counter > 0 {
        APUTriangle { length_counter: (s.length_counter - 1) as u8, ..s }
    } else {
        s
    }
}

/// One linear-counter tick: reload when the flag is set, else count
/// down; the flag clears only while the control-halt bit is clear.
pub open spec fn tri_linear_stepped(s: APUTriangle) -> APUTriangle {
    let s1 = if s.linear_reload {
        APUTriangle { linear_counter: s.cr1 & 0x7F, ..s }
    } else if s.linear_counter > 0 {
        APUTriangle { linear_counter: (s.linear_counter - 1) as u8, ..s }
    } else {
        s
    };
    if s1.cr1 & 0x80 == 0 {
        APUTriangle { linear_reload: false, ..s1 }
    } else {
        s1
    }
}

/// The frame-sequencer work for one step: the length counter on
/// half-frames, the linear counter on quarter-frames.
pub open spec fn tri_frame_applied(s: APUTriangle, half: bool, quarter: bool) -> APUTriangle {
    let s1 = if half {
        tri_length_stepped(s)
    } else {
        s
    };
    if quarter {
        tri_linear_stepped(s1)
    } else {
        s1
    }
}

impl APUTriangle {
    pub open spec fn wf(&self) -> bool {
        &&& self.seq < 32
        &&& self.val <= 0x0F
        &&& self.clock_div <= 0x7FF
    }

    pub open spec fn idle() -> APUTriangle {
        APUTriangle {
            val: 0,
            cr1: 0,
            fq1: 0,
            fq2: 0,
            clock: 0,
            clock_div: 0,
            length_counter: 0,
            linear_counter: 0,
            linear_reload: false,
            seq: 0,
        }
    }

    pub open spec fn with_cr1(&self, v: u8) -> APUTriangle {
        APUTriangle { cr1: v, linear_counter: v & 0x7F, ..*self }
    }

    pub open spec fn period_of(fq1: u8, fq2: u8) -> u16 {
        ((fq2 & 0x07) * 256 + fq1) as u16
    }

    pub open spec fn with_fq1(&self, v: u8) -> APUTriangle {
        APUTriangle { fq1: v, clock_div: Self::period_of(v, self.fq2), ..*self }
    }

    pub open spec fn with_fq2(&self, v: u8) -> APUTriangle {
        APUTriangle {
            fq2: v,
            clock_div: Self::period_of(self.fq1, v),
            length_counter: length_table(v as int / 8),
            linear_reload: true,
            ..*self
        }
    }

    pub open spec fn with_enable(&self, v: u8) -> APUTriangle {
        if v & 0x04 == 0 {
            APUTriangle { length_counter: 0, ..*self }
        } else {
            *self
        }
    }

    pub fn new() -> (t: APUTriangle)
        ensures
            t.wf(),
            t == Self::idle(),
    {
        APUTriangle {
            val: 0,
            cr1: 0,
            fq1: 0,
            fq2: 0,
            clock: 0,
            clock_div: 0,
            length_counter: 0,
            linear_counter: 0,
            linear_reload: false,
            seq: 0,
        }
    }

    pub fn clock(&mut self)
        requires
            old(self).wf(),
        ensures
            final(self).wf(),
            *final(self) == tri_ticked(*old(self)),
    {
        if self.clock == 0 {
            if self.length_counter != 0 && self.linear_counter != 0 {
                self.next_seq();
            }
            self.clock = self.clock_div;
        } else {
            self.clock = self.clock - 1;
        }
    }

    pub fn length_clock(&mut self)
        requires
            old(self).wf(),
        ensures
            final(self).wf(),
            *final(self) == tri_length_stepped(*old(self)),
    {
        if self.cr1 & 0x80 == 0 && self.length_counter > 0 {
            self.length_counter = self.length_counter - 1;
        }
    }

    pub fn linear_clock(&mut self)
        requires
            old(self).wf(),
        ensures
            final(self).wf(),
            *final(self) == tri_linear_stepped(*old(self)),
    {
        if self.linear_reload {
            proof {
                lemma_u8_and_le(self.cr1, 0x7F);
            }
            self.linear_counter = self.cr1 & 0x7F;
        } else {
            if self.linear_counter > 0 {
                self.linear_counter = self.linear_counter - 1;
            }
        }
        if self.cr1 & 0x80 == 0 {
            self.linear_reload = false;
        }
    }

    pub fn set_cr1(&mut self, v: u8) -> (r: u8)
        requires
            old(self).wf(),
        ensures
            final(self).wf(),
            *final(self) == old(self).with_cr1(v),
            r == v,
    {
        self.cr1 = v;
        self.linear_counter = v & 0x7F;
        self.cr1
    }

    pub fn set_fq1(&mut self, v: u8) -> (r: u8)
        requires
            old(self).wf(),
        ensures
            final(self).wf(),
            *final(self) == old(self).with_fq1(v),
            r == v,
    {
        self.fq1 = v;
        proof {
            lemma_u8_and_le(self.fq2, 0x07);
        }
        self.clock_div = (self.fq2 & 0x07) as u16 * 256 + self.fq1 as u16;
        self.fq1
    }

    /// Writing the length/timer-high byte reloads the length counter from
    /// the table entry picked by the top five bits and flags the linear
    /// counter for reload.
    pub fn set_fq2(&mut self, v: u8) -> (r: u8)
        requires
            old(self).wf(),
        ensures
            final(self).wf(),
            *final(self) == old(self).with_fq2(v),
            final(self).length_counter == length_table(v as int / 8),
            r == v,
    {
        self.fq2 = v;
        proof {
            lemma_u8_and_le(self.fq2, 0x07);
        }
        self.clock_div = (self.fq2 & 0x07) as u16 * 256 + self.fq1 as u16;
        self.linear_reload = true;
        self.length_counter = length_load(v);
        self.fq2
    }

    /// A cleared channel-enable bit zeroes the length counter.
    pub fn set_ch_ctrl(&mut self, v: u8)
        requires
            old(self).wf(),
        ensures
            final(self).wf(),
            *final(self) == old(self).with_enable(v),
    {
        if v & 0x04 == 0 {
            self.length_counter = 0;
        }
    }

    fn next_seq(&mut self)
        requires
            old(self).wf(),
        ensures
            final(self).wf(),
            *final(self) == tri_seq_stepped(*old(self)),
    {
        if self.seq < 16 {
            self.val = 15 - self.seq;
        } else {
            self.val = self.seq - 16;
        }
        self.seq = (self.seq + 1) % 32;
    }
}

} // verus!
