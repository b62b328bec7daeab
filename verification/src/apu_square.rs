//! A square-wave channel: an 8-phase duty sequence under an 11-bit timer,
//! silenced by its length counter, shaped by an envelope, and retuned by
//! the sweep unit.

use vstd::prelude::*;

use crate::apu::length_table;
use crate::apu::length_load;
use crate::apu_envelope::APUEnvelope;
use crate::apu_envelope::env_output;
use crate::apu_envelope::env_stepped;
use crate::bits::lemma_u16_shr_le;
use crate::bits::lemma_u8_and_le;
use crate::bits::lemma_u8_sweep_period;

verus! {

pub struct APUSquare {
    /// Current output level, 0 to 15.
    pub val: u8,
    /// Which of the two square channels this is, 1 or 2.
    pub n: u8,
    /// Duty, loop/halt and volume register.
    pub cr1: u8,
    /// Sweep register.
    pub cr2: u8,
    /// Timer low byte and the length/timer-high byte.
    pub fq1: u8,
    pub fq2: u8,
    pub length_counter: u8,
    /// Timer countdown and its 11-bit reload value.
    pub clock: u16,
    pub clock_div: u16,
    /// Position in the 8-phase duty sequence.
    pub seq: u8,
    pub envelope: APUEnvelope,
    /// Sweep divider countdown and its restart flag.
    pub sweep_clock: u8,
    pub sweep_reset: bool,
}

/// Whether the duty sequence reads 1 at phase `s` for the duty bits of
/// `cr1`: 12.5%, 25%, 50% or 75% of the eight phases.
pub open spec fn duty_on(cr1: u8, s: u8) -> bool {
    let d = cr1 & 0xC0;
    if d == 0x00 {
        s == 1
    } else if d == 0x40 {
        1 <= s <= 2
    } else if d == 0x80 {
        1 <= s <= 4
    } else {
        1 <= s <= 6
    }
}

/// One step of the duty sequence: the output follows the duty pattern,
/// scaled by the envelope, and the phase advances.
pub open spec fn sq_seq_stepped(s: APUSquare) -> APUSquare {
    APUSquare {
        val: if duty_on(s.cr1, s.seq) {
            env_output(s.envelope)
        } else {
            0
        },
        seq: ((s.seq + 1) % 8) as u8,
        ..s
    }
}

/// One timer tick: on expiry the sequence advances if the length counter
/// still runs, and the timer reloads.
pub open spec fn sq_ticked(s: APUSquare) -> APUSquare {
    if s.clock == 0 {
        let s1 = if s.length_counter != 0 {
            sq_seq_stepped(s)
        } else {
            s
        };
        APUSquare { clock: s1.clock_div, ..s1 }
    } else {
        APUSquare { clock: (s.clock - 1) as u16, ..s }
    }
}

/// One length-counter tick: it counts down unless halted by the loop bit.
pub open spec fn sq_length_stepped(s: APUSquare) -> APUSquare {
    if s.cr1 & 0x20 == 0 && s.length_counter > 0 {
        APUSquare { length_counter: (s.length_counter - 1) as u8, ..s }
    } else {
        s
    }
}

/// Whether the sweep unit acts at all: enabled, with a shift, on a
/// running channel.
pub open spec fn sweep_active(s: APUSquare) -> bool {
    s.cr2 & 0x80 != 0 && s.cr2 & 0x07 != 0 && s.length_counter != 0
}

/// The period the sweep aims for: the timer adjusted by `t >> shift`,
/// upward or downward by the direction bit.
pub open spec fn sweep_target(s: APUSquare) -> int {
    if sweep_active(s) {
        if s.cr2 & 0x08 == 0 {
            s.clock_div + (s.clock_div >> (s.cr2 & 0x07) as u16)
        } else {
            s.clock_div - (s.clock_div >> (s.cr2 & 0x07) as u16)
        }
    } else {
        s.clock_div as int
    }
}

/// One sweep tick: a pending restart only reloads the divider; on expiry
/// the target period is applied, or the channel is muted and the sweep
/// disabled when the target leaves 8 to 0x7FF.
pub open spec fn sq_sweep_stepped(s: APUSquare) -> APUSquare {
    if s.sweep_reset {
        APUSquare { sweep_clock: (s.cr2 & 0x70) >> 4, sweep_reset: false, ..s }
    } else if s.sweep_clock == 0 {
        let t = sweep_target(s);
        if t < 8 || t > 0x7FF {
            let s1 = APUSquare { length_counter: 0, cr2: s.cr2 & 0x7F, ..s };
            APUSquare { sweep_clock: (s1.cr2 & 0x70) >> 4, ..s1 }
        } else {
            APUSquare {
                clock_div: t as u16,
                clock: t as u16,
                sweep_clock: (s.cr2 & 0x70) >> 4,
                ..s
            }
        }
    } else {
        APUSquare { sweep_clock: (s.sweep_clock - 1) as u8, ..s }
    }
}

/// The half-frame work: length counter, then sweep.
pub open spec fn sq_half(s: APUSquare) -> APUSquare {
    sq_sweep_stepped(sq_length_stepped(s))
}

/// The quarter-frame work: the envelope.
pub open spec fn sq_quarter(s: APUSquare) -> APUSquare {
    APUSquare { envelope: env_stepped(s.envelope), ..s }
}

/// The frame-sequencer work for one step: half-frame first, then
/// quarter-frame, as selected.
pub open spec fn sq_frame_applied(s: APUSquare, half: bool, quarter: bool) -> APUSquare {
    let s1 = if half {
        sq_half(s)
    } else {
        s
    };
    if quarter {
        sq_quarter(s1)
    } else {
        s1
    }
}

impl APUSquare {
    pub open spec fn wf(&self) -> bool {
        &&& self.seq < 8
        &&& self.val <= 0x0F
        &&& self.clock_div <= 0x7FF
        &&& self.envelope.wf()
    }

    /// The power-on state of channel `n`.
    pub open spec fn idle(n: u8) -> APUSquare {
        APUSquare {
            val: 0,
            n,
            cr1: 0,
            cr2: 0,
            fq1: 0,
            fq2: 0,
            length_counter: 0,
            clock: 0,
            clock_div: 0,
            seq: 0,
            envelope: APUEnvelope { val: 0, cr: 0, reset: false, clock: 0 },
            sweep_clock: 0,
            sweep_reset: false,
        }
    }

    pub open spec fn with_cr1(&self, v: u8) -> APUSquare {
        APUSquare { cr1: v, envelope: APUEnvelope { cr: v, ..self.envelope }, ..*self }
    }

    pub open spec fn with_cr2(&self, v: u8) -> APUSquare {
        APUSquare { cr2: v, sweep_reset: true, ..*self }
    }

    /// The 11-bit timer period encoded by the two frequency bytes.
    pub open spec fn period_of(fq1: u8, fq2: u8) -> u16 {
        ((fq2 & 0x07) * 256 + fq1) as u16
    }

    pub open spec fn with_fq1(&self, v: u8) -> APUSquare {
        APUSquare { fq1: v, clock_div: Self::period_of(v, self.fq2), ..*self }
    }

    pub open spec fn with_fq2(&self, v: u8) -> APUSquare {
        APUSquare {
            fq2: v,
            clock_div: Self::period_of(self.fq1, v),
            length_counter: length_table(v as int / 8),
            envelope: APUEnvelope { reset: true, ..self.envelope },
            ..*self
        }
    }

    /// This channel's bit in the channel-enable register.
    pub open spec fn enable_mask(&self) -> u8 {
        if self.n == 1 {
            0x01
        } else {
            0x02
        }
    }

    pub open spec fn with_enable(&self, v: u8) -> APUSquare {
        if v & self.enable_mask() == 0 {
            APUSquare { length_counter: 0, ..*self }
        } else {
            *self
        }
    }

    pub fn new(n: u8) -> (s: APUSquare)
        ensures
            s.wf(),
            s == Self::idle(n),
    {
        APUSquare {
            val: 0,
            n,
            cr1: 0,
            cr2: 0,
            fq1: 0,
            fq2: 0,
            length_counter: 0,
            clock: 0,
            clock_div: 0,
            seq: 0,
            envelope: APUEnvelope::new(),
            sweep_clock: 0,
            sweep_reset: false,
        }
    }

    pub fn clock(&mut self)
        requires
            old(self).wf(),
        ensures
            final(self).wf(),
            *final(self) == sq_ticked(*old(self)),
    {
        if self.clock == 0 {
            if self.length_counter != 0 {
                self.next_seq();
            }
            self.clock = self.clock_div;
        } else {
            self.clock = self.clock - 1;
        }
    }

    pub fn length_clock(&mut self)
        requires
            old(self).wf(),
        ensures
            final(self).wf(),
            *final(self) == sq_length_stepped(*old(self)),
    {
        if self.cr1 & 0x20 == 0 && self.length_counter > 0 {
            self.length_counter = self.length_counter - 1;
        }
    }

    pub fn sweep_clock(&mut self)
        requires
            old(self).wf(),
        ensures
            final(self).wf(),
            *final(self) == sq_sweep_stepped(*old(self)),
    {
        if self.sweep_reset {
            self.sweep_clock = (self.cr2 & 0x70) >> 4;
            self.sweep_reset = false;
            proof {
                lemma_u8_sweep_period(self.cr2);
            }
        } else if self.sweep_clock == 0 {
            proof {
                lemma_u8_and_le(self.cr2, 0x07);
                lemma_u16_shr_le(self.clock_div, (self.cr2 & 0x07) as u16);
            }
            let shifted: u16 = self.clock_div >> (self.cr2 & 0x07) as u16;
            let new_fq: u16 = if self.cr2 & 0x80 != 0 && self.cr2 & 0x07 != 0
                && self.length_counter != 0 {
                if self.cr2 & 0x08 == 0 {
                    self.clock_div + shifted
                } else {
                    self.clock_div - shifted
                }
            } else {
                self.clock_div
            };
            if new_fq < 8 || new_fq > 0x7FF {
                self.length_counter = 0;
                self.cr2 = self.cr2 & 0x7F;
            } else {
                self.clock_div = new_fq;
                self.clock = new_fq;
            }
            self.sweep_clock = (self.cr2 & 0x70) >> 4;
            proof {
                lemma_u8_sweep_period(self.cr2);
            }
        } else {
            self.sweep_clock = self.sweep_clock - 1;
        }
    }

    pub fn envelope_clock(&mut self)
        requires
            old(self).wf(),
        ensures
            final(self).wf(),
            *final(self) == sq_quarter(*old(self)),
    {
        self.envelope.clock();
    }

    pub fn set_cr1(&mut self, v: u8) -> (r: u8)
        requires
            old(self).wf(),
        ensures
            final(self).wf(),
            *final(self) == old(self).with_cr1(v),
            r == v,
    {
        self.cr1 = v;
        self.envelope.set_cr(v);
        self.cr1
    }

    pub fn set_cr2(&mut self, v: u8) -> (r: u8)
        requires
            old(self).wf(),
        ensures
            final(self).wf(),
            *final(self) == old(self).with_cr2(v),
            r == v,
    {
        self.cr2 = v;
        self.sweep_reset = true;
        self.cr2
    }

    pub fn set_fq1(&mut self, v: u8) -> (r: u8)
        requires
            old(self).wf(),
        ensures
            final(self).wf(),
            *final(self) == old(self).with_fq1(v),
            r == v,
    {
        self.fq1 = v;
        proof {
            lemma_u8_and_le(self.fq2, 0x07);
        }
        self.clock_div = (self.fq2 & 0x07) as u16 * 256 + self.fq1 as u16;
        self.fq1
    }

    /// Writing the length/timer-high byte reloads the length counter from
    /// the table entry picked by the top five bits and restarts the
    /// envelope.
    pub fn set_fq2(&mut self, v: u8) -> (r: u8)
        requires
            old(self).wf(),
        ensures
            final(self).wf(),
            *final(self) == old(self).with_fq2(v),
            final(self).length_counter == length_table(v as int / 8),
            r == v,
    {
        self.fq2 = v;
        proof {
            lemma_u8_and_le(self.fq2, 0x07);
        }
        self.clock_div = (self.fq2 & 0x07) as u16 * 256 + self.fq1 as u16;
        self.length_counter = length_load(v);
        self.envelope.reset();
        self.fq2
    }

    /// A cleared channel-enable bit zeroes the length counter.
    pub fn set_ch_ctrl(&mut self, v: u8)
        requires
            old(self).wf(),
        ensures
            final(self).wf(),
            *final(self) == old(self).with_enable(v),
    {
        let mask: u8 = if self.n == 1 {
            0x01
        } else {
            0x02
        };
        if v & mask == 0 {
            self.length_counter = 0;
        }
    }

    fn next_seq(&mut self)
        requires
            old(self).wf(),
        ensures
            final(self).wf(),
            *final(self) == sq_seq_stepped(*old(self)),
    {
        let d = self.cr1 & 0xC0;
        let on: bool = if d == 0x00 {
            self.seq == 1
        } else if d == 0x40 {
            1 <= self.seq && self.seq <= 2
        } else if d == 0x80 {
            1 <= self.seq && self.seq <= 4
        } else {
            1 <= self.seq && self.seq <= 6
        };
        if on {
            self.val = self.envelope.val();
        } else {
            self.val = 0;
        }
        self.seq = (self.seq + 1) % 8;
    }
}

} // verus!
