//! The audio unit: two square channels, a triangle, a noise channel, the
//! frame sequencer that paces their envelopes and counters, and the
//! resampler that feeds the audio ring.

use vstd::prelude::*;

use crate::apu_frame::APUFrame;
use crate::apu_frame::frame_half_on;
use crate::apu_frame::frame_irq_on;
use crate::apu_frame::frame_quarter_on;
use crate::apu_frame::frame_seq_next;
use crate::apu_noise::APUNoise;
use crate::apu_noise::noise_frame_applied;
use crate::apu_noise::noise_ticked;
use crate::apu_square::APUSquare;
use crate::apu_square::sq_frame_applied;
use crate::apu_square::sq_ticked;
use crate::apu_triangle::APUTriangle;
use crate::apu_triangle::tri_frame_applied;
use crate::apu_triangle::tri_ticked;
use crate::events::Event;
use crate::events::EventType;
use crate::events::EventQueue;
use crate::io::IO;

verus! {

pub const CH_CTRL_SQUARE_1: u8 = 0x01;

pub const CH_CTRL_SQUARE_2: u8 = 0x02;

pub const CH_CTRL_TRIANGLE: u8 = 0x04;

pub const CH_CTRL_NOISE: u8 = 0x08;

pub const CH_CTRL_DMC: u8 = 0x10;

/// CPU-rate ticks between frame-sequencer steps.
pub const CLOCK_DIV_FRAME: u32 = 7457;

/// The NTSC CPU frequency and the audio render rate.
pub const CLOCK_FQ: u32 = 1789772;

pub const RENDER_FQ: u32 = 44100;

/// The length-counter reload table, indexed by the top five bits of a
/// length-register write.
pub open spec fn length_table(i: int) -> u8 {
    if i == 0 {
        0x0A
    } else if i == 1 {
        0xFE
    } else if i == 2 {
        0x14
    } else if i == 3 {
        0x02
    } else if i == 4 {
        0x28
    } else if i == 5 {
        0x04
    } else if i == 6 {
        0x50
    } else if i == 7 {
        0x06
    } else if i == 8 {
        0xA0
    } else if i == 9 {
        0x08
    } else if i == 10 {
        0x3C
    } else if i == 11 {
        0x0A
    } else if i == 12 {
        0x0E
    } else if i == 13 {
        0x0C
    } else if i == 14 {
        0x1A
    } else if i == 15 {
        0x0E
    } else if i == 16 {
        0x0C
    } else if i == 17 {
        0x10
    } else if i == 18 {
        0x18
    } else if i == 19 {
        0x12
    } else if i == 20 {
        0x30
    } else if i == 21 {
        0x14
    } else if i == 22 {
        0x60
    } else if i == 23 {
        0x16
    } else if i == 24 {
        0xC0
    } else if i == 25 {
        0x18
    } else if i == 26 {
        0x48
    } else if i == 27 {
        0x1A
    } else if i == 28 {
        0x10
    } else if i == 29 {
        0x1C
    } else if i == 30 {
        0x20
    } else {
        0x1E
    }
}

/// The length-counter value loaded by writing `v` to a length register:
/// the table entry picked by the top five bits.
pub fn length_load(v: u8) -> (r: u8)
    ensures
        r == length_table(v as int / 8),
{
    match v / 8 {
        0 => 0x0A,
        1 => 0xFE,
        2 => 0x14,
        3 => 0x02,
        4 => 0x28,
        5 => 0x04,
        6 => 0x50,
        7 => 0x06,
        8 => 0xA0,
        9 => 0x08,
        10 => 0x3C,
        11 => 0x0A,
        12 => 0x0E,
        13 => 0x0C,
        14 => 0x1A,
        15 => 0x0E,
        16 => 0x0C,
        17 => 0x10,
        18 => 0x18,
        19 => 0x12,
        20 => 0x30,
        21 => 0x14,
        22 => 0x60,
        23 => 0x16,
        24 => 0xC0,
        25 => 0x18,
        26 => 0x48,
        27 => 0x1A,
        28 => 0x10,
        29 => 0x1C,
        30 => 0x20,
        _ => 0x1E,
    }
}

pub struct APU {
    pub square1: APUSquare,
    pub square2: APUSquare,
    pub triangle: APUTriangle,
    pub noise: APUNoise,
    pub frame: APUFrame,
    /// Channel-enable register, 0x4015.
    pub ch_ctrl: u8,
    /// Frame-counter register, 0x4017.
    pub frame_cr: u8,
    /// DMC placeholder registers.
    pub dmc1: u8,
    pub dmc2: u8,
    /// Countdown to the next frame-sequencer step.
    pub clock_frame: u32,
    /// Countdown to the next audio sample.
    pub render_clock: u32,
    /// Set while the audio ring refuses samples; channel work pauses.
    pub stall: bool,
}

/// What one APU tick does, as a relation between the unit, the output
/// surfaces and the event queue before and after it: the channel
/// timers, the frame sequencer, the pushed sample and the stall of
/// `APU::clock`.
pub open spec fn apu_tick_rel(a0: APU, io0: IO, ev0: Seq<Event>, a1: APU, io1: IO, ev1: Seq<Event>) -> bool {
    &&& (io1.vram == io0.vram)
    &&& (io1.stencil == io0.stencil)
    &&& (io1.pad == io0.pad)
    &&& (({
                let sq1 = if !a0.stall { sq_ticked(a0.square1) } else { a0.square1 };
                let sq2 = if !a0.stall { sq_ticked(a0.square2) } else { a0.square2 };
                let tri = if !a0.stall { tri_ticked(a0.triangle) } else { a0.triangle };
                let noi = if !a0.stall { noise_ticked(a0.noise) } else { a0.noise };
                let half = frame_half_on(a0.frame.cr, a0.frame.seq);
                let quarter = frame_quarter_on(a0.frame.cr, a0.frame.seq);
                let irq = frame_irq_on(a0.frame.cr, a0.frame.seq);
                let fire = a0.clock_frame == 0;
                &&& a1.square1 == if fire { sq_frame_applied(sq1, half, quarter) } else { sq1 }
                &&& a1.square2 == if fire { sq_frame_applied(sq2, half, quarter) } else { sq2 }
                &&& a1.triangle == if fire { tri_frame_applied(tri, half, quarter) } else { tri }
                &&& a1.noise == if fire { noise_frame_applied(noi, half, quarter) } else { noi }
                &&& a1.clock_frame == if fire { CLOCK_DIV_FRAME - 1 } else { a0.clock_frame - 1 }
                &&& a1.frame == if fire {
                    APUFrame {
                        seq: frame_seq_next(a0.frame.cr, a0.frame.seq),
                        interrupted: a0.frame.interrupted || irq,
                        ..a0.frame
                    }
                } else { a0.frame }
                &&& ev1 == if fire && irq {
                    ev0.push(Event { event_type: EventType::Irq })
                } else { ev0 }
            }))
    &&& (a0.render_clock > 0 ==> io1.audio == io0.audio && a1.stall
                == a0.stall && a1.render_clock == a0.render_clock - 1)
    &&& (a0.render_clock == 0 ==> a1.render_clock == CLOCK_FQ / RENDER_FQ - 1
                && a1.stall == !(io0.audio@.len() < io0.audio.cap))
    &&& (a0.render_clock == 0 && io0.audio@.len() < io0.audio.cap ==> io1.audio@ == io0.audio@.push(a1.mix()))
    &&& (a0.render_clock == 0 && io0.audio@.len() >= io0.audio.cap ==> io1.audio == io0.audio)
}

impl APU {
    pub open spec fn wf(&self) -> bool {
        &&& self.square1.wf()
        &&& self.square2.wf()
        &&& self.triangle.wf()
        &&& self.noise.wf()
        &&& self.frame.wf()
    }

    /// The mixed sample: the plain sum of the four channel levels.
    pub open spec fn mix(&self) -> u16 {
        (self.square1.val + self.square2.val + self.triangle.val + self.noise.val) as u16
    }

    pub fn new() -> (a: APU)
        ensures
            a.wf(),
            a.square1 == APUSquare::idle(1),
            a.square2 == APUSquare::idle(2),
            a.triangle == APUTriangle::idle(),
            a.noise == APUNoise::idle(),
            a.frame.seq == 0 && a.frame.cr == 0 && !a.frame.interrupted,
            a.ch_ctrl == 0 && a.frame_cr == 0,
            a.clock_frame == 0 && a.render_clock == 0 && !a.stall,
    {
        APU {
            square1: APUSquare::new(1),
            square2: APUSquare::new(2),
            triangle: APUTriangle::new(),
            noise: APUNoise::new(),
            frame: APUFrame::new(),
            ch_ctrl: 0,
            frame_cr: 0,
            dmc1: 0,
            dmc2: 0,
            clock_frame: 0,
            render_clock: 0,
            stall: false,
        }
    }

    /// Return the unit to its power-on pacing: dividers rewound, the
    /// stall flag dropped. Register state is left to the program.
    pub fn reset(&mut self)
        ensures
            *final(self) == (APU {
                clock_frame: 0,
                render_clock: 0,
                stall: false,
                ..*old(self)
            }),
    {
        self.clock_frame = 0;
        self.render_clock = 0;
        self.stall = false;
    }

    /// One CPU-rate tick: the channel timers run unless the ring stalled
    /// them, the frame sequencer fires on its divider, and every
    /// `CLOCK_FQ / RENDER_FQ` ticks one mixed sample is offered to the
    /// ring, whose refusal sets the stall flag.
    pub fn clock(&mut self, io: &mut IO, events: &mut EventQueue)
        requires
            old(self).wf(),
            old(io).wf(),
        ensures
            final(self).wf(),
            final(io).wf(),
            apu_tick_rel(*old(self), *old(io), old(events)@, *final(self), *final(io), final(events)@),
    {
        if !self.stall {
            self.square1.clock();
            self.square2.clock();
            self.triangle.clock();
            self.noise.clock();
        }
        if self.clock_frame == 0 {
            self.frame.clock(
                &mut self.square1,
                &mut self.square2,
                &mut self.triangle,
                &mut self.noise,
                events,
            );
            self.clock_frame = CLOCK_DIV_FRAME - 1;
        } else {
            self.clock_frame = self.clock_frame - 1;
        }
        if self.render_clock == 0 {
            let val: u16 = self.square1.val as u16 + self.square2.val as u16 + self.triangle.val
                as u16 + self.noise.val as u16;
            if io.write_audio(val) {
                self.stall = false;
            } else {
                self.stall = true;
            }
            self.render_clock = CLOCK_FQ / RENDER_FQ - 1;
        } else {
            self.render_clock = self.render_clock - 1;
        }
    }

    pub fn set_sw1_cr1(&mut self, v: u8)
        requires
            old(self).wf(),
        ensures
            final(self).wf(),
            *final(self) == (APU { square1: old(self).square1.with_cr1(v), ..*old(self) }),
    {
        self.square1.set_cr1(v);
    }

    pub fn set_sw1_cr2(&mut self, v: u8)
        requires
            old(self).wf(),
        ensures
            final(self).wf(),
            *final(self) == (APU { square1: old(self).square1.with_cr2(v), ..*old(self) }),
    {
        self.square1.set_cr2(v);
    }

    pub fn set_sw1_fq1(&mut self, v: u8)
        requires
            old(self).wf(),
        ensures
            final(self).wf(),
            *final(self) == (APU { square1: old(self).square1.with_fq1(v), ..*old(self) }),
    {
        self.square1.set_fq1(v);
    }

    pub fn set_sw1_fq2(&mut self, v: u8)
        requires
            old(self).wf(),
        ensures
            final(self).wf(),
            *final(self) == (APU { square1: old(self).square1.with_fq2(v), ..*old(self) }),
            final(self).square1.length_counter == length_table(v as int / 8),
    {
        self.square1.set_fq2(v);
    }

    pub fn set_sw2_cr1(&mut self, v: u8)
        requires
            old(self).wf(),
        ensures
            final(self).wf(),
            *final(self) == (APU { square2: old(self).square2.with_cr1(v), ..*old(self) }),
    {
        self.square2.set_cr1(v);
    }

    pub fn set_sw2_cr2(&mut self, v: u8)
        requires
            old(self).wf(),
        ensures
            final(self).wf(),
            *final(self) == (APU { square2: old(self).square2.with_cr2(v), ..*old(self) }),
    {
        self.square2.set_cr2(v);
    }

    pub fn set_sw2_fq1(&mut self, v: u8)
        requires
            old(self).wf(),
        ensures
            final(self).wf(),
            *final(self) == (APU { square2: old(self).square2.with_fq1(v), ..*old(self) }),
    {
        self.square2.set_fq1(v);
    }

    pub fn set_sw2_fq2(&mut self, v: u8)
        requires
            old(self).wf(),
        ensures
            final(self).wf(),
            *final(self) == (APU { square2: old(self).square2.with_fq2(v), ..*old(self) }),
            final(self).square2.length_counter == length_table(v as int / 8),
    {
        self.square2.set_fq2(v);
    }

    pub fn set_tw_cr1(&mut self, v: u8)
        requires
            old(self).wf(),
        ensures
            final(self).wf(),
            *final(self) == (APU { triangle: old(self).triangle.with_cr1(v), ..*old(self) }),
    {
        self.triangle.set_cr1(v);
    }

    pub fn set_tw_cr2(&mut self, v: u8)
        requires
            old(self).wf(),
        ensures
            final(self).wf(),
            *final(self) == *old(self),
    {
        // 0x4009 is unused on the machine.
        let _ = v;
    }

    pub fn set_tw_fq1(&mut self, v: u8)
        requires
            old(self).wf(),
        ensures
            final(self).wf(),
            *final(self) == (APU { triangle: old(self).triangle.with_fq1(v), ..*old(self) }),
    {
        self.triangle.set_fq1(v);
    }

    pub fn set_tw_fq2(&mut self, v: u8)
        requires
            old(self).wf(),
        ensures
            final(self).wf(),
            *final(self) == (APU { triangle: old(self).triangle.with_fq2(v), ..*old(self) }),
            final(self).triangle.length_counter == length_table(v as int / 8),
    {
        self.triangle.set_fq2(v);
    }

    pub fn set_noise_cr1(&mut self, v: u8)
        requires
            old(self).wf(),
        ensures
            final(self).wf(),
            *final(self) == (APU { noise: old(self).noise.with_cr(v), ..*old(self) }),
    {
        self.noise.set_cr(v);
    }

    pub fn set_noise_cr2(&mut self, v: u8)
        requires
            old(self).wf(),
        ensures
            final(self).wf(),
            *final(self) == *old(self),
    {
        // 0x400D is unused on the machine.
        let _ = v;
    }

    pub fn set_noise_fq1(&mut self, v: u8)
        requires
            old(self).wf(),
        ensures
            final(self).wf(),
            *final(self) == (APU { noise: old(self).noise.with_fq1(v), ..*old(self) }),
    {
        self.noise.set_fq1(v);
    }

    pub fn set_noise_fq2(&mut self, v: u8)
        requires
            old(self).wf(),
        ensures
            final(self).wf(),
            *final(self) == (APU { noise: old(self).noise.with_fq2(v), ..*old(self) }),
            final(self).noise.length_counter == length_table(v as int / 8),
    {
        self.noise.set_fq2(v);
    }

    pub fn set_dmc1(&mut self, v: u8)
        requires
            old(self).wf(),
        ensures
            final(self).wf(),
            *final(self) == (APU { dmc1: v, ..*old(self) }),
    {
        self.dmc1 = v;
    }

    pub fn set_dmc2(&mut self, v: u8)
        requires
            old(self).wf(),
        ensures
            final(self).wf(),
            *final(self) == (APU { dmc2: v, ..*old(self) }),
    {
        self.dmc2 = v;
    }

    /// Channel-enable register: a cleared bit zeroes that channel's
    /// length counter at once.
    pub fn set_ch_ctrl(&mut self, v: u8)
        requires
            old(self).wf(),
        ensures
            final(self).wf(),
            *final(self) == (APU {
                ch_ctrl: v,
                square1: old(self).square1.with_enable(v),
                square2: old(self).square2.with_enable(v),
                triangle: old(self).triangle.with_enable(v),
                noise: old(self).noise.with_enable(v),
                ..*old(self)
            }),
    {
        self.ch_ctrl = v;
        self.square1.set_ch_ctrl(v);
        self.square2.set_ch_ctrl(v);
        self.triangle.set_ch_ctrl(v);
        self.noise.set_ch_ctrl(v);
    }

    /// Frame-counter register: bit 7 picks the five-step sequence and
    /// immediately clocks the length, sweep, linear and envelope units;
    /// the sequencer restarts either way.
    pub fn set_frame_cr(&mut self, v: u8)
        requires
            old(self).wf(),
        ensures
            final(self).wf(),
            final(self).frame_cr == v,
            final(self).frame.cr == v,
            final(self).frame.seq == 0,
            final(self).clock_frame == CLOCK_DIV_FRAME - 1,
            v & 0x80 == 0 ==> final(self).square1 == old(self).square1 && final(self).square2
                == old(self).square2 && final(self).triangle == old(self).triangle && final(self).noise == old(self).noise,
            v & 0x80 != 0 ==> final(self).square1 == sq_frame_applied(old(self).square1, true, true)
                && final(self).square2 == sq_frame_applied(old(self).square2, true, true) && final(self).triangle == tri_frame_applied(old(self).triangle, true, true) && final(self).noise
                == noise_frame_applied(old(self).noise, true, true),
    {
        self.frame_cr = v;
        self.frame.set_cr(v);
        self.clock_frame = CLOCK_DIV_FRAME - 1;
        if v & 0x80 != 0 {
            self.square1.length_clock();
            self.square1.sweep_clock();
            self.square1.envelope_clock();
            self.square2.length_clock();
            self.square2.sweep_clock();
            self.square2.envelope_clock();
            self.triangle.length_clock();
            self.triangle.linear_clock();
            self.noise.length_clock();
            self.noise.envelope_clock();
        }
    }
}

} // verus!
