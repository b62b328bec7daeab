//! The shared output surfaces: framebuffer, stencil plane, audio ring, and
//! the controller ports.
//!
//! The picture unit hands completed scanlines to `draw_line`; the audio
//! unit pushes one mixed sample at a time through `write_audio`, which
//! reports back-pressure when the ring is full. The presentation side
//! drains both from outside the core.

use vstd::prelude::*;

use crate::pad::Pad;
use crate::ringbuffer::RingBuffer;

verus! {

/// Stencil codes, lowest to highest priority: universal background color,
/// behind-background sprite, opaque background tile, front sprite.
pub const STENCIL_NONE: u8 = 0;

pub const STENCIL_BACK_SPRITE: u8 = 1;

pub const STENCIL_BG: u8 = 2;

pub const STENCIL_FRONT_SPRITE: u8 = 3;

pub const AUDIO_BUFFER_SIZE: usize = 4096;

pub struct IO {
    /// 256 x 240 RGB24 image.
    pub vram: Vec<u8>,
    /// 256 x 240 stencil codes.
    pub stencil: Vec<u8>,
    /// Mixed audio samples: each is the plain sum of the four channel
    /// levels, 0 to 60. Mapping the sum to a signed float stream is the
    /// audio device's business.
    pub audio: RingBuffer<u16>,
    pub pad: Pad,
}

pub struct VBR {
    /// Whether the presentation side is inside vertical retrace.
    pub in_vbr: bool,
    pub frames: u32,
}

/// Pixel `x` of row `y` of `vram` and `sten` holds the R, G, B, stencil
/// group `x` of `line`.
pub open spec fn line_pixel_copied(vram: Seq<u8>, sten: Seq<u8>, line: Seq<u8>, y: int, x: int) -> bool {
    let p = y * 256 + x;
    &&& vram[p * 3] == line[x * 4]
    &&& vram[p * 3 + 1] == line[x * 4 + 1]
    &&& vram[p * 3 + 2] == line[x * 4 + 2]
    &&& sten[p] == line[x * 4 + 3]
}

/// Pixel `q` of the image holds the color (`r`, `g`, `b`) with a cleared
/// stencil code.
pub open spec fn pixel_filled(vram: Seq<u8>, sten: Seq<u8>, r: u8, g: u8, b: u8, q: int) -> bool {
    &&& sten[q] == STENCIL_NONE
    &&& vram[3 * q] == r
    &&& vram[3 * q + 1] == g
    &&& vram[3 * q + 2] == b
}

/// `io` and `other` agree on everything but the image planes.
pub open spec fn same_but_planes(io: IO, other: IO) -> bool {
    &&& io.audio == other.audio
    &&& io.pad == other.pad
}

impl IO {
    pub open spec fn wf(&self) -> bool {
        &&& self.vram@.len() == 256 * 240 * 3
        &&& self.stencil@.len() == 256 * 240
        &&& self.audio.wf()
        &&& self.pad.wf()
    }

    pub fn new() -> (io: IO)
        ensures
            io.wf(),
            io.audio@ == Seq::<u16>::empty(),
            io.audio.cap == AUDIO_BUFFER_SIZE,
            io.pad.in_count_1 == 0 && io.pad.in_count_2 == 0 && io.pad.last_out == 0,
    {
        IO {
            vram: vec![0u8; 256 * 240 * 3],
            stencil: vec![0u8; 256 * 240],
            audio: RingBuffer::new(AUDIO_BUFFER_SIZE, 0u16),
            pad: Pad::new(),
        }
    }

    /// Repaint the whole image with one color and clear the stencil plane.
    pub fn clear(&mut self, r: u8, g: u8, b: u8)
        requires
            old(self).wf(),
        ensures
            final(self).wf(),
            same_but_planes(*final(self), *old(self)),
            forall|p: int|
                0 <= p < 256 * 240 ==> #[trigger] pixel_filled(
                    final(self).vram@,
                    final(self).stencil@,
                    r,
                    g,
                    b,
                    p,
                ),
    {
        let mut p: usize = 0;
        while p < 256 * 240
            invariant
                self.vram@.len() == 256 * 240 * 3,
                self.stencil@.len() == 256 * 240,
                self.audio == old(self).audio,
                self.pad == old(self).pad,
                p <= 256 * 240,
                forall|q: int|
                    0 <= q < p ==> #[trigger] pixel_filled(self.vram@, self.stencil@, r, g, b, q),
            decreases 256 * 240 - p,
        {
            let ghost prev = *self;
            self.vram[3 * p] = r;
            self.vram[3 * p + 1] = g;
            self.vram[3 * p + 2] = b;
            self.stencil[p] = STENCIL_NONE;
            proof {
                assert forall|q: int| 0 <= q < p + 1 implies #[trigger] pixel_filled(
                    self.vram@,
                    self.stencil@,
                    r,
                    g,
                    b,
                    q,
                ) by {
                    if q < p {
                        assert(pixel_filled(prev.vram@, prev.stencil@, r, g, b, q));
                    }
                }
            }
            p += 1;
        }
    }

    pub fn get_stencil(&self, x: u32, y: u32) -> (s: u8)
        requires
            self.wf(),
            x < 256,
            y < 240,
        ensures
            s == self.stencil@[y * 256 + x],
    {
        self.stencil[(y * 256 + x) as usize]
    }

    /// Copy one completed scanline, pixels and stencil codes, into row `y`.
    /// `line` holds 256 groups of R, G, B, stencil.
    pub fn draw_line(&mut self, y: u32, line: &Vec<u8>)
        requires
            old(self).wf(),
            y < 240,
            line@.len() == 256 * 4,
        ensures
            final(self).wf(),
            same_but_planes(*final(self), *old(self)),
            forall|x: int|
                0 <= x < 256 ==> #[trigger] line_pixel_copied(
                    final(self).vram@,
                    final(self).stencil@,
                    line@,
                    y as int,
                    x,
                ),
            forall|p: int|
                0 <= p < 256 * 240 && !(y * 256 <= p < y * 256 + 256) ==> final(self).stencil@[p]
                    == old(self).stencil@[p],
            forall|j: int|
                0 <= j < 256 * 240 * 3 && !(y * 256 * 3 <= j < y * 256 * 3 + 768) ==> final(self).vram@[j] == old(self).vram@[j],
    {
        let mut x: usize = 0;
        while x < 256
            invariant
                self.vram@.len() == 256 * 240 * 3,
                self.stencil@.len() == 256 * 240,
                self.audio == old(self).audio,
                self.pad == old(self).pad,
                y < 240,
                line@.len() == 256 * 4,
                x <= 256,
                forall|q: int|
                    0 <= q < x ==> #[trigger] line_pixel_copied(
                        self.vram@,
                        self.stencil@,
                        line@,
                        y as int,
                        q,
                    ),
                forall|p: int|
                    0 <= p < 256 * 240 && !(y * 256 <= p < y * 256 + x) ==> self.stencil@[p] == old(self).stencil@[p],
                forall|j: int|
                    0 <= j < 256 * 240 * 3 && !(y * 256 * 3 <= j < y * 256 * 3 + 3 * x) ==> self
                        .vram@[j] == old(self).vram@[j],
            decreases 256 - x,
        {
            let ghost prev = *self;
            let base = (y as usize * 256 + x) * 3;
            self.vram[base] = line[x * 4];
            self.vram[base + 1] = line[x * 4 + 1];
            self.vram[base + 2] = line[x * 4 + 2];
            self.stencil[y as usize * 256 + x] = line[x * 4 + 3];
            proof {
                assert forall|q: int| 0 <= q < x + 1 implies #[trigger] line_pixel_copied(
                    self.vram@,
                    self.stencil@,
                    line@,
                    y as int,
                    q,
                ) by {
                    if q < x {
                        assert(line_pixel_copied(prev.vram@, prev.stencil@, line@, y as int, q));
                    }
                }
            }
            x += 1;
        }
    }

    /// Paint a behind-background sprite pixel: it lands only where nothing
    /// but the universal background color or another such sprite sits.
    pub fn draw_back_sprite(&mut self, x: u32, y: u32, r: u8, g: u8, b: u8) -> (wrote: bool)
        requires
            old(self).wf(),
            x < 256,
            y < 240,
        ensures
            final(self).wf(),
            same_but_planes(*final(self), *old(self)),
            wrote == (old(self).stencil@[y * 256 + x] <= STENCIL_BACK_SPRITE),
            wrote ==> pixel_put(*old(self), *final(self), x as int, y as int, r, g, b, STENCIL_BACK_SPRITE),
            !wrote ==> *final(self) == *old(self),
    {
        let p = (y * 256 + x) as usize;
        if self.stencil[p] <= STENCIL_BACK_SPRITE {
            self.vram[p * 3] = r;
            self.vram[p * 3 + 1] = g;
            self.vram[p * 3 + 2] = b;
            self.stencil[p] = STENCIL_BACK_SPRITE;
            true
        } else {
            false
        }
    }

    /// Paint a front sprite pixel: it covers anything below a front sprite.
    pub fn draw_front_sprite(&mut self, x: u32, y: u32, r: u8, g: u8, b: u8) -> (wrote: bool)
        requires
            old(self).wf(),
            x < 256,
            y < 240,
        ensures
            final(self).wf(),
            same_but_planes(*final(self), *old(self)),
            wrote == (old(self).stencil@[y * 256 + x] <= STENCIL_FRONT_SPRITE),
            wrote ==> pixel_put(*old(self), *final(self), x as int, y as int, r, g, b, STENCIL_FRONT_SPRITE),
            !wrote ==> *final(self) == *old(self),
    {
        let p = (y * 256 + x) as usize;
        if self.stencil[p] <= STENCIL_FRONT_SPRITE {
            self.vram[p * 3] = r;
            self.vram[p * 3 + 1] = g;
            self.vram[p * 3 + 2] = b;
            self.stencil[p] = STENCIL_FRONT_SPRITE;
            true
        } else {
            false
        }
    }

    /// Paint an opaque background tile pixel: it covers the universal
    /// background color and behind-background sprites, never a sprite above.
    pub fn draw_pixel(&mut self, x: u32, y: u32, r: u8, g: u8, b: u8) -> (wrote: bool)
        requires
            old(self).wf(),
            x < 256,
            y < 240,
        ensures
            final(self).wf(),
            same_but_planes(*final(self), *old(self)),
            wrote == (old(self).stencil@[y * 256 + x] <= STENCIL_BG),
            wrote ==> pixel_put(*old(self), *final(self), x as int, y as int, r, g, b, STENCIL_BG),
            !wrote ==> *final(self) == *old(self),
    {
        let p = (y * 256 + x) as usize;
        if self.stencil[p] <= STENCIL_BG {
            self.vram[p * 3] = r;
            self.vram[p * 3 + 1] = g;
            self.vram[p * 3 + 2] = b;
            self.stencil[p] = STENCIL_BG;
            true
        } else {
            false
        }
    }

    /// Offer one mixed sample to the audio ring; `false` reports that the
    /// ring is full and the sample was dropped, so the producer can stall.
    pub fn write_audio(&mut self, v: u16) -> (ok: bool)
        requires
            old(self).wf(),
        ensures
            final(self).wf(),
            final(self).vram == old(self).vram,
            final(self).stencil == old(self).stencil,
            final(self).pad == old(self).pad,
            final(self).audio.cap == old(self).audio.cap,
            ok == (old(self).audio@.len() < old(self).audio.cap),
            ok ==> final(self).audio@ == old(self).audio@.push(v),
            !ok ==> final(self).audio == old(self).audio,
    {
        self.audio.write(v)
    }

    /// Drain one sample for the audio device, oldest first.
    pub fn read_audio(&mut self) -> (r: Option<u16>)
        requires
            old(self).wf(),
        ensures
            final(self).wf(),
            final(self).vram == old(self).vram,
            final(self).stencil == old(self).stencil,
            final(self).pad == old(self).pad,
            final(self).audio.cap == old(self).audio.cap,
            old(self).audio@.len() == 0 ==> r is None && final(self).audio == old(self).audio,
            old(self).audio@.len() > 0 ==> r == Some(old(self).audio@[0]) && final(self).audio@
                == old(self).audio@.drop_first(),
    {
        self.audio.read()
    }
}

/// `next` is `prev` with the pixel at (`x`, `y`) set to the given color and
/// stencil code, and nothing else changed.
pub open spec fn pixel_put(prev: IO, next: IO, x: int, y: int, r: u8, g: u8, b: u8, s: u8) -> bool {
    let p = y * 256 + x;
    &&& next.vram@ == prev.vram@.update(p * 3, r).update(p * 3 + 1, g).update(p * 3 + 2, b)
    &&& next.stencil@ == prev.stencil@.update(p, s)
}

impl VBR {
    pub fn new() -> (v: VBR)
        ensures
            !v.in_vbr,
            v.frames == 0,
    {
        VBR { in_vbr: false, frames: 0 }
    }
}

} // verus!
