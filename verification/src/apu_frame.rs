//! The frame sequencer: the low-rate clock that paces envelopes, length
//! counters, sweeps and the linear counter, in a four-step cycle that can
//! raise the frame interrupt or a five-step cycle that never does.

use vstd::prelude::*;

use crate::apu_noise::APUNoise;
use crate::apu_noise::noise_frame_applied;
use crate::apu_square::APUSquare;
use crate::apu_square::sq_frame_applied;
use crate::apu_triangle::APUTriangle;
use crate::apu_triangle::tri_frame_applied;
use crate::events::Event;
use crate::events::EventQueue;
use crate::events::EventType;

verus! {

pub struct APUFrame {
    /// Whether the sequencer has raised the frame interrupt.
    pub interrupted: bool,
    /// Frame-counter register: bit 7 picks the five-step cycle, bit 6
    /// masks the interrupt.
    pub cr: u8,
    /// Position in the cycle.
    pub seq: u8,
}

/// Whether step `seq` does the half-frame work: length counters and
/// sweeps. Steps 1 and 3 of the four-step cycle, 0 and 2 of the
/// five-step one.
pub open spec fn frame_half_on(cr: u8, seq: u8) -> bool {
    if cr & 0x80 == 0 {
        seq == 1 || seq == 3
    } else {
        seq == 0 || seq == 2
    }
}

/// Whether step `seq` does the quarter-frame work: envelopes and the
/// linear counter. Every step of the four-step cycle, all but the idle
/// last step of the five-step one.
pub open spec fn frame_quarter_on(cr: u8, seq: u8) -> bool {
    if cr & 0x80 == 0 {
        true
    } else {
        seq <= 3
    }
}

/// Whether step `seq` raises the frame interrupt: only the last step of
/// the four-step cycle, and only while bit 6 leaves it unmasked.
pub open spec fn frame_irq_on(cr: u8, seq: u8) -> bool {
    cr & 0x80 == 0 && seq == 3 && cr & 0x40 == 0
}

/// The step after `seq`, around the four- or five-step cycle.
pub open spec fn frame_seq_next(cr: u8, seq: u8) -> u8 {
    if cr & 0x80 == 0 {
        ((seq + 1) as int % 4) as u8
    } else {
        ((seq + 1) as int % 5) as u8
    }
}

impl APUFrame {
    pub open spec fn wf(&self) -> bool {
        self.seq < 5
    }

    pub fn new() -> (f: APUFrame)
        ensures
            f.wf(),
            f == (APUFrame { interrupted: false, cr: 0, seq: 0 }),
    {
        APUFrame { interrupted: false, cr: 0, seq: 0 }
    }

    /// One sequencer step: apply this step's half- and quarter-frame work
    /// to every channel, raise the frame interrupt when due, advance.
    /// The five-step cycle never touches the event queue.
    pub fn clock(
        &mut self,
        square1: &mut APUSquare,
        square2: &mut APUSquare,
        triangle: &mut APUTriangle,
        noise: &mut APUNoise,
        event_queue: &mut EventQueue,
    )
        requires
            old(self).wf(),
            old(square1).wf(),
            old(square2).wf(),
            old(triangle).wf(),
            old(noise).wf(),
        ensures
            final(self).wf(),
            final(square1).wf(),
            final(square2).wf(),
            final(triangle).wf(),
            final(noise).wf(),
            ({
                let half = frame_half_on(old(self).cr, old(self).seq);
                let quarter = frame_quarter_on(old(self).cr, old(self).seq);
                let irq = frame_irq_on(old(self).cr, old(self).seq);
                &&& *final(square1) == sq_frame_applied(*old(square1), half, quarter)
                &&& *final(square2) == sq_frame_applied(*old(square2), half, quarter)
                &&& *final(triangle) == tri_frame_applied(*old(triangle), half, quarter)
                &&& *final(noise) == noise_frame_applied(*old(noise), half, quarter)
                &&& *final(self) == (APUFrame {
                    seq: frame_seq_next(old(self).cr, old(self).seq),
                    interrupted: old(self).interrupted || irq,
                    ..*old(self)
                })
                &&& irq ==> final(event_queue)@ == old(event_queue)@.push(
                    Event { event_type: EventType::Irq },
                )
                &&& !irq ==> final(event_queue)@ == old(event_queue)@
            }),
    {
        let five_step = self.cr & 0x80 != 0;
        let half: bool = if five_step {
            self.seq == 0 || self.seq == 2
        } else {
            self.seq == 1 || self.seq == 3
        };
        let quarter: bool = if five_step {
            self.seq <= 3
        } else {
            true
        };
        if half {
            square1.length_clock();
            square1.sweep_clock();
            square2.length_clock();
            square2.sweep_clock();
            triangle.length_clock();
            noise.length_clock();
        }
        if quarter {
            square1.envelope_clock();
            square2.envelope_clock();
            triangle.linear_clock();
            noise.envelope_clock();
        }
        if !five_step && self.seq == 3 && self.cr & 0x40 == 0 {
            event_queue.push(Event::new(EventType::Irq));
            self.interrupted = true;
        }
        if five_step {
            self.seq = (self.seq + 1) % 5;
        } else {
            self.seq = (self.seq + 1) % 4;
        }
    }

    /// Select the cycle and restart it from its first step.
    pub fn set_cr(&mut self, v: u8) -> (r: u8)
        ensures
            final(self).wf(),
            *final(self) == (APUFrame { cr: v, seq: 0, ..*old(self) }),
            r == v,
    {
        self.cr = v;
        self.seq = 0;
        self.cr
    }
}

} // verus!
