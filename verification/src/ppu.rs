//! The picture unit: a 262-line by 341-dot timing grid driving a per-dot
//! background and sprite pipeline, with the memory-mapped register
//! protocol of addresses 0x2000 to 0x2007.
//!
//! One call of `clock` processes the current dot and advances the grid.
//! Visible lines paint into a private line buffer that is handed to the
//! framebuffer at the end of the line; line 241 raises VBlank, the
//! pre-render line 261 clears VBlank and the sprite-0 hit.

use vstd::prelude::*;

use crate::bits::lemma_u8_clear_status;
use crate::bits::lemma_u8_clear_top;
use crate::bits::lemma_u8_and_le;
use crate::events::Event;
use crate::events::EventQueue;
use crate::events::EventType;
use crate::io::IO;

verus! {

#[derive(Clone, Copy, Debug, PartialEq, Eq, Structural)]
pub enum Mirror {
    Horizontal,
    Vertical,
}

pub struct PPU {
    /// PPUCTRL: nametable select, address increment, pattern bases, NMI
    /// enable.
    pub cr1: u8,
    /// PPUMASK: background and sprite enables.
    pub cr2: u8,
    /// PPUSTATUS: bit 7 VBlank, bit 6 sprite-0 hit.
    pub sr: u8,
    pub scroll_x: u8,
    pub scroll_y: u8,
    /// Current scanline and dot.
    pub line: u32,
    pub line_clock: u32,
    /// The shared two-write latch toggle of PPUSCROLL and PPUADDR.
    pub write_mode: u8,
    /// The VRAM address of PPUADDR/PPUDATA.
    pub write_addr: u16,
    /// OAM write address of OAMADDR/OAMDATA.
    pub sprite_write_addr: u8,
    /// The prefetch byte behind buffered PPUDATA reads.
    pub read_buffer: u8,
    /// 16 KiB of VRAM: pattern tables, nametables, palette.
    pub mem: Vec<u8>,
    /// 256 bytes of sprite attributes.
    pub sprite_mem: Vec<u8>,
    /// Per-scanline sprite evaluation: up to seven entries of four bytes,
    /// their sprite numbers, and how many are filled.
    pub sprite_buffer: Vec<u8>,
    pub sprite_id_buffer: Vec<u8>,
    pub sprite_buffer_len: usize,
    pub mirror: Mirror,
    /// The line being painted: 256 groups of R, G, B, stencil.
    pub line_buffer: Vec<u8>,
    pub frames: u64,
}

/// The palette cell that an address in 0x3F00 to 0x3FFF lands on: the
/// 32-byte palette repeats, and 0x10, 0x14, 0x18, 0x1C inside it are the
/// mirrors of 0x00, 0x04, 0x08, 0x0C.
pub open spec fn pal_slot(s: int) -> int {
    if s == 0x10 || s == 0x14 || s == 0x18 || s == 0x1C {
        s - 0x10
    } else {
        s
    }
}

pub open spec fn pal_cell(a: int) -> int {
    0x3F00 + pal_slot((a - 0x3F00) % 0x20)
}

/// The PPUDATA address increment selected by PPUCTRL bit 2.
pub open spec fn addr_inc(cr1: u8) -> int {
    if cr1 & 0x04 == 0 {
        1
    } else {
        32
    }
}

/// The two-bit pattern value of pattern bytes `hi` and `lo` at column
/// `x`, counted from the left.
pub open spec fn pattern_bits(hi: u8, lo: u8, x: u8) -> u8 {
    (((hi >> ((7 - x) as u8)) % 2) * 2 + ((lo >> ((7 - x) as u8)) % 2)) as u8
}

/// What one PPUDATA read returns: the prefetch byte below the palette,
/// palette bytes directly.
pub open spec fn read_value(p: PPU) -> u8 {
    let a = p.write_addr % 0x4000;
    if a < 0x3F00 {
        p.read_buffer
    } else {
        p.mem@[pal_cell(a as int)]
    }
}

/// The unit after one PPUDATA read: the prefetch byte refills from the
/// address just read, and the address moves by the selected increment.
pub open spec fn read_stepped(p: PPU) -> PPU {
    let a = p.write_addr % 0x4000;
    PPU {
        read_buffer: if a < 0x3F00 {
            p.mem@[a as int]
        } else {
            p.read_buffer
        },
        write_addr: ((p.write_addr + addr_inc(p.cr1)) % 0x10000) as u16,
        ..p
    }
}

/// The VRAM cell that a PPUDATA access under address `a` lands on, and
/// the byte a write of `v` stores there: palette stores are masked to
/// six bits and land on the mirrored cell.
pub open spec fn write_cell(p: PPU) -> int {
    let a = p.write_addr % 0x4000;
    if a >= 0x3F00 {
        pal_cell(a as int)
    } else {
        a as int
    }
}

pub open spec fn write_byte(p: PPU, v: u8) -> u8 {
    if p.write_addr % 0x4000 >= 0x3F00 {
        v & 0x3F
    } else {
        v
    }
}

impl PPU {
    pub open spec fn wf(&self) -> bool {
        &&& self.line < 262
        &&& self.line_clock < 341
        &&& self.write_mode < 2
        &&& self.mem@.len() == 0x4000
        &&& self.sprite_mem@.len() == 256
        &&& self.sprite_buffer@.len() == 28
        &&& self.sprite_id_buffer@.len() == 7
        &&& self.sprite_buffer_len <= 7
        &&& self.line_buffer@.len() == 1024
        &&& (forall|i: int| 0x3F00 <= i < 0x3F20 ==> self.mem@[i] < 0x40)
    }

    pub fn new() -> (p: PPU)
        ensures
            p.wf(),
            p.cr1 == 0 && p.cr2 == 0 && p.sr == 0,
            p.scroll_x == 0 && p.scroll_y == 0,
            p.line == 0 && p.line_clock == 0 && p.frames == 0,
            p.write_mode == 0 && p.write_addr == 0 && p.sprite_write_addr == 0,
            p.read_buffer == 0,
            p.mem@ == Seq::new(0x4000nat, |i: int| 0u8),
            p.sprite_mem@ == Seq::new(256nat, |i: int| 0u8),
            p.sprite_buffer_len == 0,
            p.mirror == Mirror::Vertical,
    {
        let p = PPU {
            cr1: 0,
            cr2: 0,
            sr: 0,
            scroll_x: 0,
            scroll_y: 0,
            line: 0,
            line_clock: 0,
            write_mode: 0,
            write_addr: 0,
            sprite_write_addr: 0,
            read_buffer: 0,
            mem: vec![0u8; 0x4000],
            sprite_mem: vec![0u8; 256],
            sprite_buffer: vec![0u8; 28],
            sprite_id_buffer: vec![0u8; 7],
            sprite_buffer_len: 0,
            mirror: Mirror::Vertical,
            line_buffer: vec![0u8; 1024],
            frames: 0,
        };
        proof {
            assert(p.mem@ =~= Seq::new(0x4000nat, |i: int| 0u8));
            assert(p.sprite_mem@ =~= Seq::new(256nat, |i: int| 0u8));
        }
        p
    }

    /// Rewind the timing grid to the top of the frame.
    pub fn reset(&mut self)
        requires
            old(self).wf(),
        ensures
            final(self).wf(),
            *final(self) == (PPU { line: 0, line_clock: 0, ..*old(self) }),
    {
        self.line = 0;
        self.line_clock = 0;
    }

    pub fn set_mirror(&mut self, m: Mirror)
        ensures
            *final(self) == (PPU { mirror: m, ..*old(self) }),
    {
        self.mirror = m;
    }

    pub fn set_cr1(&mut self, n: u8)
        ensures
            *final(self) == (PPU { cr1: n, ..*old(self) }),
    {
        self.cr1 = n;
    }

    pub fn set_cr2(&mut self, n: u8)
        ensures
            *final(self) == (PPU { cr2: n, ..*old(self) }),
    {
        self.cr2 = n;
    }

    pub fn set_sprite_write_addr(&mut self, n: u8)
        ensures
            *final(self) == (PPU { sprite_write_addr: n, ..*old(self) }),
    {
        self.sprite_write_addr = n;
    }

    /// OAMDATA write: store at the OAM address, which then advances.
    pub fn sprite_write(&mut self, n: u8)
        requires
            old(self).wf(),
        ensures
            final(self).wf(),
            final(self).sprite_mem@ == old(self).sprite_mem@.update(
                old(self).sprite_write_addr as int,
                n,
            ),
            final(self).sprite_write_addr == (old(self).sprite_write_addr + 1) % 256,
            *final(self) == (PPU {
                sprite_mem: final(self).sprite_mem,
                sprite_write_addr: final(self).sprite_write_addr,
                ..*old(self)
            }),
    {
        let a = self.sprite_write_addr as usize;
        self.sprite_mem[a] = n;
        self.sprite_write_addr = ((self.sprite_write_addr as u16 + 1) % 256) as u8;
    }

    /// OAMDATA read: the byte at the OAM address, with no side effect.
    pub fn sprite_read(&self) -> (r: u8)
        requires
            self.wf(),
        ensures
            r == self.sprite_mem@[self.sprite_write_addr as int],
    {
        self.sprite_mem[self.sprite_write_addr as usize]
    }

    /// PPUSTATUS read: hand out the status byte, then clear VBlank and
    /// the shared write latch.
    pub fn get_sr(&mut self) -> (r: u8)
        requires
            old(self).wf(),
        ensures
            final(self).wf(),
            r == old(self).sr,
            *final(self) == (PPU { sr: old(self).sr & 0x7F, write_mode: 0, ..*old(self) }),
            final(self).sr & 0x80 == 0,
    {
        let sr = self.sr;
        self.write_mode = 0;
        self.sr = self.sr & 0x7F;
        proof {
            lemma_u8_clear_top(old(self).sr);
        }
        sr
    }

    /// PPUSCROLL write: X on the first write, Y on the second, under the
    /// shared latch toggle.
    pub fn set_scroll(&mut self, v: u8)
        requires
            old(self).wf(),
        ensures
            final(self).wf(),
            old(self).write_mode == 0 ==> *final(self) == (PPU {
                scroll_x: v,
                write_mode: 1,
                ..*old(self)
            }),
            old(self).write_mode != 0 ==> *final(self) == (PPU {
                scroll_y: v,
                write_mode: 0,
                ..*old(self)
            }),
    {
        if self.write_mode == 0 {
            self.scroll_x = v;
            self.write_mode = 1;
        } else {
            self.scroll_y = v;
            self.write_mode = 0;
        }
    }

    /// PPUADDR write: high byte on the first write, low byte on the
    /// second, under the shared latch toggle.
    pub fn set_write_addr(&mut self, v: u8)
        requires
            old(self).wf(),
        ensures
            final(self).wf(),
            old(self).write_mode == 0 ==> *final(self) == (PPU {
                write_addr: (old(self).write_addr % 256 + v * 256) as u16,
                write_mode: 1,
                ..*old(self)
            }),
            old(self).write_mode != 0 ==> *final(self) == (PPU {
                write_addr: (old(self).write_addr / 256 * 256 + v) as u16,
                write_mode: 0,
                ..*old(self)
            }),
    {
        if self.write_mode == 0 {
            self.write_addr = self.write_addr % 256 + v as u16 * 256;
            self.write_mode = 1;
        } else {
            self.write_addr = self.write_addr / 256 * 256 + v as u16;
            self.write_mode = 0;
        }
    }

    /// PPUDATA write.
    pub fn write(&mut self, v: u8)
        requires
            old(self).wf(),
        ensures
            final(self).wf(),
            final(self).mem@ == old(self).mem@.update(write_cell(*old(self)), write_byte(*old(self), v)),
            final(self).write_addr == (old(self).write_addr + addr_inc(old(self).cr1)) % 0x10000,
            *final(self) == (PPU {
                mem: final(self).mem,
                write_addr: final(self).write_addr,
                ..*old(self)
            }),
    {
        let addr = self.write_addr % 0x4000;
        if addr >= 0x3F00 {
            let cell = pal_cell_at(addr);
            proof {
                lemma_u8_and_le(v, 0x3F);
            }
            self.mem[cell as usize] = v & 0x3F;
        } else {
            self.mem[addr as usize] = v;
        }
        let inc: u16 = if self.cr1 & 0x04 == 0 {
            1
        } else {
            32
        };
        self.write_addr = ((self.write_addr as u32 + inc as u32) % 0x10000) as u16;
    }

    /// PPUDATA read.
    pub fn read(&mut self) -> (r: u8)
        requires
            old(self).wf(),
        ensures
            final(self).wf(),
            r == read_value(*old(self)),
            *final(self) == read_stepped(*old(self)),
    {
        let addr = self.write_addr % 0x4000;
        let ret: u8;
        if addr < 0x3F00 {
            ret = self.read_buffer;
            self.read_buffer = self.mem[addr as usize];
        } else {
            let cell = pal_cell_at(addr);
            ret = self.mem[cell as usize];
        }
        let inc: u16 = if self.cr1 & 0x04 == 0 {
            1
        } else {
            32
        };
        self.write_addr = ((self.write_addr as u32 + inc as u32) % 0x10000) as u16;
        ret
    }

    /// A read-only view of the sprite memory.
    pub fn get_sprite_mem(&self) -> (r: &Vec<u8>)
        ensures
            r == &self.sprite_mem,
    {
        &self.sprite_mem
    }

    /// Replace the whole sprite memory: the OAM DMA transfer.
    pub fn sprite_dma(&mut self, data: &Vec<u8>)
        requires
            old(self).wf(),
            data@.len() == 256,
        ensures
            final(self).wf(),
            final(self).sprite_mem@ == data@,
            *final(self) == (PPU { sprite_mem: final(self).sprite_mem, ..*old(self) }),
    {
        let mut i: usize = 0;
        while i < 256
            invariant
                old(self).wf(),
                data@.len() == 256,
                i <= 256,
                self.sprite_mem@.len() == 256,
                forall|j: int| 0 <= j < i ==> self.sprite_mem@[j] == data@[j],
                *self == (PPU { sprite_mem: self.sprite_mem, ..*old(self) }),
            decreases 256 - i,
        {
            let b = data[i];
            self.sprite_mem[i] = b;
            i += 1;
        }
        proof {
            assert(self.sprite_mem@ =~= data@);
        }
    }

    /// Load the pattern tables from CHR-ROM: up to 8 KiB from the front.
    pub fn set_crom(&mut self, crom: &Vec<u8>)
        requires
            old(self).wf(),
        ensures
            final(self).wf(),
            final(self).mem@.len() == 0x4000,
            ({
                let n = if crom@.len() < 0x2000 {
                    crom@.len() as int
                } else {
                    0x2000
                };
                &&& (forall|i: int| 0 <= i < n ==> final(self).mem@[i] == crom@[i])
                &&& (forall|i: int| n <= i < 0x4000 ==> final(self).mem@[i] == old(self).mem@[i])
            }),
            *final(self) == (PPU { mem: final(self).mem, ..*old(self) }),
    {
        let n: usize = if crom.len() < 0x2000 {
            crom.len()
        } else {
            0x2000
        };
        let mut i: usize = 0;
        while i < n
            invariant
                old(self).wf(),
                n <= 0x2000,
                n <= crom@.len(),
                i <= n,
                self.mem@.len() == 0x4000,
                forall|j: int| 0 <= j < i ==> self.mem@[j] == crom@[j],
                forall|j: int| i <= j < 0x4000 ==> self.mem@[j] == old(self).mem@[j],
                *self == (PPU { mem: self.mem, ..*old(self) }),
            decreases n - i,
        {
            let b = crom[i];
            self.mem[i] = b;
            i += 1;
        }
    }
}

/// The palette mirror cells coincide both ways: a write to 0x3F10,
/// 0x3F14, 0x3F18 or 0x3F1C lands on the cell that 0x3F00, 0x3F04,
/// 0x3F08 or 0x3F0C reads, and the other way round, at every repetition
/// of the 32-byte palette.
pub proof fn lemma_palette_mirror(a: int)
    requires
        0x3F00 <= a < 0x4000,
        (a - 0x3F00) % 0x20 == 0x10 || (a - 0x3F00) % 0x20 == 0x14 || (a - 0x3F00) % 0x20 == 0x18
            || (a - 0x3F00) % 0x20 == 0x1C,
    ensures
        pal_cell(a) == pal_cell(a - 0x10),
        pal_cell(a - 0x10) == 0x3F00 + (a - 0x3F00) % 0x20 - 0x10,
{
}

/// The buffered-read law: with the address set to `A` below the palette,
/// two successive PPUDATA reads return the old prefetch byte and then
/// the byte at `A` itself, provided the incremented address stays below
/// the palette too.
pub proof fn lemma_buffered_read(p: PPU)
    requires
        p.wf(),
        p.write_addr % 0x4000 < 0x3F00,
        ((p.write_addr + addr_inc(p.cr1)) % 0x10000) % 0x4000 < 0x3F00,
    ensures
        read_value(p) == p.read_buffer,
        read_value(read_stepped(p)) == p.mem@[(p.write_addr % 0x4000) as int],
{
}

/// The exec counterpart of `pal_cell`.
fn pal_cell_at(addr: u16) -> (r: u16)
    requires
        0x3F00 <= addr < 0x4000,
    ensures
        r == pal_cell(addr as int),
        0x3F00 <= r < 0x3F20,
{
    let s = (addr - 0x3F00) % 0x20;
    let slot = if s == 0x10 || s == 0x14 || s == 0x18 || s == 0x1C {
        s - 0x10
    } else {
        s
    };
    0x3F00 + slot
}


/// The 64-entry NTSC master palette, as RGB triples.
pub open spec fn color_table(i: int) -> (u8, u8, u8) {
    if i == 0 {
        (0x6B, 0x6B, 0x6B)
    } else if i == 1 {
        (0x00, 0x10, 0x84)
    } else if i == 2 {
        (0x08, 0x00, 0x8C)
    } else if i == 3 {
        (0x42, 0x00, 0x7B)
    } else if i == 4 {
        (0x63, 0x00, 0x5A)
    } else if i == 5 {
        (0x6B, 0x00, 0x10)
    } else if i == 6 {
        (0x60, 0x00, 0x00)
    } else if i == 7 {
        (0x4F, 0x35, 0x00)
    } else if i == 8 {
        (0x31, 0x4E, 0x18)
    } else if i == 9 {
        (0x00, 0x5A, 0x21)
    } else if i == 10 {
        (0x21, 0x5A, 0x10)
    } else if i == 11 {
        (0x08, 0x52, 0x42)
    } else if i == 12 {
        (0x00, 0x39, 0x73)
    } else if i == 13 {
        (0x00, 0x00, 0x00)
    } else if i == 14 {
        (0x00, 0x00, 0x00)
    } else if i == 15 {
        (0x00, 0x00, 0x00)
    } else if i == 16 {
        (0xA5, 0xA5, 0xA5)
    } else if i == 17 {
        (0x00, 0x42, 0xC6)
    } else if i == 18 {
        (0x42, 0x29, 0xCE)
    } else if i == 19 {
        (0x6B, 0x00, 0xBD)
    } else if i == 20 {
        (0x94, 0x29, 0x94)
    } else if i == 21 {
        (0x9C, 0x10, 0x42)
    } else if i == 22 {
        (0x9C, 0x39, 0x00)
    } else if i == 23 {
        (0x84, 0x5E, 0x21)
    } else if i == 24 {
        (0x5F, 0x7B, 0x21)
    } else if i == 25 {
        (0x2D, 0x8C, 0x29)
    } else if i == 26 {
        (0x18, 0x8E, 0x10)
    } else if i == 27 {
        (0x2E, 0x86, 0x63)
    } else if i == 28 {
        (0x29, 0x73, 0x9C)
    } else if i == 29 {
        (0x00, 0x00, 0x00)
    } else if i == 30 {
        (0x00, 0x00, 0x00)
    } else if i == 31 {
        (0x00, 0x00, 0x00)
    } else if i == 32 {
        (0xEF, 0xEF, 0xEF)
    } else if i == 33 {
        (0x5A, 0x8C, 0xFF)
    } else if i == 34 {
        (0x7B, 0x6B, 0xFF)
    } else if i == 35 {
        (0xA5, 0x5A, 0xFF)
    } else if i == 36 {
        (0xD6, 0x4A, 0xFF)
    } else if i == 37 {
        (0xE7, 0x63, 0x9C)
    } else if i == 38 {
        (0xDE, 0x7B, 0x52)
    } else if i == 39 {
        (0xCE, 0x9C, 0x29)
    } else if i == 40 {
        (0xAD, 0xB5, 0x31)
    } else if i == 41 {
        (0x7B, 0xCE, 0x31)
    } else if i == 42 {
        (0x5A, 0xCE, 0x52)
    } else if i == 43 {
        (0x4A, 0xC6, 0x94)
    } else if i == 44 {
        (0x4A, 0xB5, 0xCE)
    } else if i == 45 {
        (0x52, 0x52, 0x52)
    } else if i == 46 {
        (0x00, 0x00, 0x00)
    } else if i == 47 {
        (0x00, 0x00, 0x00)
    } else if i == 48 {
        (0xEF, 0xEF, 0xEF)
    } else if i == 49 {
        (0xAD, 0xC6, 0xFF)
    } else if i == 50 {
        (0xBD, 0xBD, 0xFF)
    } else if i == 51 {
        (0xCE, 0xB5, 0xFF)
    } else if i == 52 {
        (0xE7, 0xB5, 0xFF)
    } else if i == 53 {
        (0xF9, 0xBB, 0xDF)
    } else if i == 54 {
        (0xF7, 0xC6, 0xB5)
    } else if i == 55 {
        (0xDE, 0xC6, 0x9C)
    } else if i == 56 {
        (0xD6, 0xD6, 0x94)
    } else if i == 57 {
        (0xC6, 0xE7, 0x9C)
    } else if i == 58 {
        (0xB5, 0xE7, 0xAD)
    } else if i == 59 {
        (0xAD, 0xE7, 0xC6)
    } else if i == 60 {
        (0xAD, 0xDE, 0xE7)
    } else if i == 61 {
        (0xAD, 0xAD, 0xAD)
    } else if i == 62 {
        (0x00, 0x00, 0x00)
    } else {
        (0x00, 0x00, 0x00)
    }
}

/// Look up a master-palette entry.
pub fn color_rgb(col: u8) -> (rgb: (u8, u8, u8))
    requires
        col < 0x40,
    ensures
        rgb == color_table(col as int),
{
    match col {
        0 => (0x6B, 0x6B, 0x6B),
        1 => (0x00, 0x10, 0x84),
        2 => (0x08, 0x00, 0x8C),
        3 => (0x42, 0x00, 0x7B),
        4 => (0x63, 0x00, 0x5A),
        5 => (0x6B, 0x00, 0x10),
        6 => (0x60, 0x00, 0x00),
        7 => (0x4F, 0x35, 0x00),
        8 => (0x31, 0x4E, 0x18),
        9 => (0x00, 0x5A, 0x21),
        10 => (0x21, 0x5A, 0x10),
        11 => (0x08, 0x52, 0x42),
        12 => (0x00, 0x39, 0x73),
        13 => (0x00, 0x00, 0x00),
        14 => (0x00, 0x00, 0x00),
        15 => (0x00, 0x00, 0x00),
        16 => (0xA5, 0xA5, 0xA5),
        17 => (0x00, 0x42, 0xC6),
        18 => (0x42, 0x29, 0xCE),
        19 => (0x6B, 0x00, 0xBD),
        20 => (0x94, 0x29, 0x94),
        21 => (0x9C, 0x10, 0x42),
        22 => (0x9C, 0x39, 0x00),
        23 => (0x84, 0x5E, 0x21),
        24 => (0x5F, 0x7B, 0x21),
        25 => (0x2D, 0x8C, 0x29),
        26 => (0x18, 0x8E, 0x10),
        27 => (0x2E, 0x86, 0x63),
        28 => (0x29, 0x73, 0x9C),
        29 => (0x00, 0x00, 0x00),
        30 => (0x00, 0x00, 0x00),
        31 => (0x00, 0x00, 0x00),
        32 => (0xEF, 0xEF, 0xEF),
        33 => (0x5A, 0x8C, 0xFF),
        34 => (0x7B, 0x6B, 0xFF),
        35 => (0xA5, 0x5A, 0xFF),
        36 => (0xD6, 0x4A, 0xFF),
        37 => (0xE7, 0x63, 0x9C),
        38 => (0xDE, 0x7B, 0x52),
        39 => (0xCE, 0x9C, 0x29),
        40 => (0xAD, 0xB5, 0x31),
        41 => (0x7B, 0xCE, 0x31),
        42 => (0x5A, 0xCE, 0x52),
        43 => (0x4A, 0xC6, 0x94),
        44 => (0x4A, 0xB5, 0xCE),
        45 => (0x52, 0x52, 0x52),
        46 => (0x00, 0x00, 0x00),
        47 => (0x00, 0x00, 0x00),
        48 => (0xEF, 0xEF, 0xEF),
        49 => (0xAD, 0xC6, 0xFF),
        50 => (0xBD, 0xBD, 0xFF),
        51 => (0xCE, 0xB5, 0xFF),
        52 => (0xE7, 0xB5, 0xFF),
        53 => (0xF9, 0xBB, 0xDF),
        54 => (0xF7, 0xC6, 0xB5),
        55 => (0xDE, 0xC6, 0x9C),
        56 => (0xD6, 0xD6, 0x94),
        57 => (0xC6, 0xE7, 0x9C),
        58 => (0xB5, 0xE7, 0xAD),
        59 => (0xAD, 0xE7, 0xC6),
        60 => (0xAD, 0xDE, 0xE7),
        61 => (0xAD, 0xAD, 0xAD),
        62 => (0x00, 0x00, 0x00),
        _ => (0x00, 0x00, 0x00),
    }
}

/// The horizontally or vertically mirrored nametable that logical
/// nametable `id` collapses to.
pub open spec fn mirrored_nt(m: Mirror, id: int) -> int {
    match m {
        Mirror::Horizontal => id / 2 * 2,
        Mirror::Vertical => id % 2,
    }
}

/// The scrolled background coordinates of screen dot (`x`, `y`) on the
/// 512 x 480 toroidal plane, with the PPUCTRL nametable bits as coarse
/// offsets.
pub open spec fn bg_xx(p: PPU, x: int) -> int {
    (x + p.scroll_x + (p.cr1 & 0x03) % 2 * 256) % 512
}

pub open spec fn bg_yy(p: PPU, y: int) -> int {
    (y + p.scroll_y + (p.cr1 & 0x03) / 2 * 240) % 480
}

/// The nametable the scrolled coordinates fall in, after mirroring.
pub open spec fn bg_nt(p: PPU, xx: int, yy: int) -> int {
    mirrored_nt(
        p.mirror,
        (if xx >= 256 {
            1int
        } else {
            0int
        }) + (if yy >= 240 {
            2int
        } else {
            0int
        }),
    )
}

/// The two-bit pattern value of the background pixel at dot (`x`, `y`):
/// tile id from the nametable, pattern bytes from the PPUCTRL-selected
/// table, column from the fine scroll.
pub open spec fn bg_bits(p: PPU, x: int, y: int) -> u8 {
    let xx = bg_xx(p, x);
    let yy = bg_yy(p, y);
    let nt = bg_nt(p, xx, yy);
    let tile_addr = 0x2000 + nt * 0x400 + yy / 8 % 30 * 32 + xx / 8 % 32;
    let pat_id = p.mem@[tile_addr];
    let base: int = if p.cr1 & 0x10 == 0 {
        0
    } else {
        0x1000
    };
    let lo = p.mem@[base + pat_id * 16 + yy % 8];
    let hi = p.mem@[base + pat_id * 16 + yy % 8 + 8];
    pattern_bits(hi, lo, (xx % 8) as u8)
}

/// The two attribute bits of the background pixel: the 4 x 4 metatile
/// quadrant of the attribute byte.
pub open spec fn bg_attr_bits(p: PPU, x: int, y: int) -> u8 {
    let xx = bg_xx(p, x);
    let yy = bg_yy(p, y);
    let nt = bg_nt(p, xx, yy);
    let u = xx / 8 % 32;
    let v = yy / 8 % 30;
    let attr = p.mem@[0x23C0 + nt * 0x400 + v / 4 * 8 + u / 4];
    let quad: int = (if u % 4 >= 2 {
        1int
    } else {
        0int
    }) + (if v % 4 >= 2 {
        2int
    } else {
        0int
    });
    if quad == 0 {
        attr % 4
    } else if quad == 1 {
        (attr / 4) % 4
    } else if quad == 2 {
        (attr / 16) % 4
    } else {
        (attr / 64) % 4
    }
}

/// The color of an opaque background pixel: palette entry picked by the
/// pattern and attribute bits, resolved through the master palette.
pub open spec fn bg_color(p: PPU, x: int, y: int) -> (u8, u8, u8) {
    color_table(p.mem@[0x3F00 + bg_bits(p, x, y) + bg_attr_bits(p, x, y) * 4] as int)
}

/// Fields of the sprite at slot `j` of the evaluation buffer.
pub open spec fn buf_y(p: PPU, j: int) -> u8 {
    p.sprite_buffer@[4 * j]
}

pub open spec fn buf_n(p: PPU, j: int) -> u8 {
    p.sprite_buffer@[4 * j + 1]
}

pub open spec fn buf_attr(p: PPU, j: int) -> u8 {
    p.sprite_buffer@[4 * j + 2]
}

pub open spec fn buf_x(p: PPU, j: int) -> u8 {
    p.sprite_buffer@[4 * j + 3]
}

/// Whether the buffered sprite at slot `j` covers dot `x`.
pub open spec fn sprite_covers_x(p: PPU, j: int, x: int) -> bool {
    buf_x(p, j) <= x < buf_x(p, j) + 8
}

/// The two-bit pattern value of the buffered sprite at slot `j` at dot
/// (`x`, `y`), honoring the horizontal and vertical flip attributes.
pub open spec fn sprite_bits_at(p: PPU, j: int, x: int, y: int) -> u8 {
    let a = buf_attr(p, j);
    let u0 = (x - buf_x(p, j)) as u8;
    let u = if a & 0x40 != 0 {
        (7 - u0) as u8
    } else {
        u0
    };
    let v0 = vstd::wrapping::u8_specs::wrapping_sub(y as u8, buf_y(p, j));
    let v = if a & 0x80 != 0 {
        vstd::wrapping::u8_specs::wrapping_sub(7, v0)
    } else {
        v0
    };
    let base: int = if p.cr1 & 0x08 == 0 {
        0
    } else {
        0x1000
    };
    let lo = p.mem@[base + buf_n(p, j) * 16 + v];
    let hi = p.mem@[base + buf_n(p, j) * 16 + v + 8];
    pattern_bits(hi, lo, u)
}

/// The color of an opaque sprite pixel: sprite palette entry picked by
/// the pattern bits and the attribute palette select.
pub open spec fn sprite_color(p: PPU, j: int, x: int, y: int) -> (u8, u8, u8) {
    let pat = sprite_bits_at(p, j, x, y) + (buf_attr(p, j) & 0x03) * 4;
    color_table(p.mem@[0x3F10 + pat] as int)
}

/// The sprite-0 hit at dot (`x`, `y`): sprite 0 sits first in the
/// evaluation buffer, covers the dot with an opaque pixel, and the
/// background is enabled.
pub open spec fn sprite0_hit_cond(p: PPU, x: int, y: int) -> bool {
    &&& p.sprite_buffer_len > 0
    &&& p.sprite_id_buffer@[0] == 0
    &&& p.cr2 & 0x08 != 0
    &&& sprite_covers_x(p, 0, x)
    &&& sprite_bits_at(p, 0, x, y) != 0
    &&& p.line_buffer@[4 * x + 3] == 2
}

/// Whether the sprite with OAM byte `sp_y` covers scanline `y`: its
/// eight rows span `sp_y` to `sp_y + 7`.
pub open spec fn sprite_covers_line(sp_y: u8, y: int) -> bool {
    sp_y <= y < sp_y + 8
}

/// The line-buffer pixel at `x` as an R, G, B, stencil group.
pub open spec fn lb_pixel(lb: Seq<u8>, x: int) -> (u8, u8, u8, u8) {
    (lb[4 * x], lb[4 * x + 1], lb[4 * x + 2], lb[4 * x + 3])
}

/// The background pixel of dot (`x`, `y`) painted over `below`: an
/// opaque pattern pixel covers stencil codes 0 and 1 under code 2, a
/// transparent one leaves the pixel alone.
pub open spec fn bg_applied(p: PPU, x: int, y: int, below: (u8, u8, u8, u8)) -> (u8, u8, u8, u8) {
    if bg_bits(p, x, y) != 0 && below.3 < 2 {
        let rgb = bg_color(p, x, y);
        (rgb.0, rgb.1, rgb.2, 2u8)
    } else {
        below
    }
}

/// One buffered sprite applied over a pixel: a covering, opaque sprite
/// pixel paints its color, behind-background sprites only over stencil
/// codes 0 and 1 (leaving code 1), front sprites over anything (leaving
/// code 3); everything else leaves the pixel alone.
pub open spec fn sprite_applied(p: PPU, j: int, x: int, y: int, below: (u8, u8, u8, u8)) -> (
    u8,
    u8,
    u8,
    u8,
) {
    if sprite_covers_x(p, j, x) && sprite_bits_at(p, j, x, y) != 0 {
        let rgb = sprite_color(p, j, x, y);
        if buf_attr(p, j) & 0x20 != 0 {
            if below.3 <= 1 {
                (rgb.0, rgb.1, rgb.2, 1u8)
            } else {
                below
            }
        } else {
            (rgb.0, rgb.1, rgb.2, 3u8)
        }
    } else {
        below
    }
}

/// The pixel after the buffered sprites from slot `j` on have been
/// painted over `below`, last slot first, so the lowest OAM index wins.
pub open spec fn sprite_fold(p: PPU, x: int, y: int, j: int, below: (u8, u8, u8, u8)) -> (
    u8,
    u8,
    u8,
    u8,
)
    decreases p.sprite_buffer_len - j,
{
    if j >= p.sprite_buffer_len {
        below
    } else {
        sprite_applied(p, j, x, y, sprite_fold(p, x, y, j + 1, below))
    }
}

/// The sprite fold reads only the evaluation buffer, the pattern
/// memory and the control register: two states that agree there fold
/// alike.
pub proof fn lemma_sprite_fold_frame(
    p1: PPU,
    p2: PPU,
    x: int,
    y: int,
    j: int,
    below: (u8, u8, u8, u8),
)
    requires
        p1.sprite_buffer == p2.sprite_buffer,
        p1.sprite_buffer_len == p2.sprite_buffer_len,
        p1.mem == p2.mem,
        p1.cr1 == p2.cr1,
    ensures
        sprite_fold(p1, x, y, j, below) == sprite_fold(p2, x, y, j, below),
    decreases p1.sprite_buffer_len - j,
{
    if j < p1.sprite_buffer_len {
        lemma_sprite_fold_frame(p1, p2, x, y, j + 1, below);
    }
}

/// Pixel `x` of a line buffer holds the given color with a cleared
/// stencil code.
pub open spec fn lb_init_at(lb: Seq<u8>, x: int, rgb: (u8, u8, u8)) -> bool {
    &&& lb[4 * x] == rgb.0
    &&& lb[4 * x + 1] == rgb.1
    &&& lb[4 * x + 2] == rgb.2
    &&& lb[4 * x + 3] == 0
}

/// The exec counterpart of `pattern_bits`.
fn pattern_bits_at(hi: u8, lo: u8, x: u8) -> (r: u8)
    requires
        x < 8,
    ensures
        r == pattern_bits(hi, lo, x),
        r < 4,
{
    ((hi >> (7 - x)) % 2) * 2 + ((lo >> (7 - x)) % 2)
}


impl PPU {
    /// Fill the line buffer with the universal background color, the
    /// palette byte at 0x3F00, under a cleared stencil plane.
    fn line_start(&mut self)
        requires
            old(self).wf(),
        ensures
            final(self).wf(),
            *final(self) == (PPU { line_buffer: final(self).line_buffer, ..*old(self) }),
            final(self).line_buffer@.len() == 1024,
            forall|x: int|
                0 <= x < 256 ==> #[trigger] lb_init_at(
                    final(self).line_buffer@,
                    x,
                    color_table(old(self).mem@[0x3F00] as int),
                ),
    {
        let col = self.mem[0x3F00];
        let rgb = color_rgb(col);
        let mut x: usize = 0;
        while x < 256
            invariant
                old(self).wf(),
                *self == (PPU { line_buffer: self.line_buffer, ..*old(self) }),
                self.line_buffer@.len() == 1024,
                rgb == color_table(old(self).mem@[0x3F00] as int),
                x <= 256,
                forall|q: int|
                    0 <= q < x ==> #[trigger] lb_init_at(self.line_buffer@, q, rgb),
            decreases 256 - x,
        {
            let ghost prev = self.line_buffer@;
            self.line_buffer[x * 4] = rgb.0;
            self.line_buffer[x * 4 + 1] = rgb.1;
            self.line_buffer[x * 4 + 2] = rgb.2;
            self.line_buffer[x * 4 + 3] = 0;
            proof {
                assert forall|q: int| 0 <= q < x + 1 implies #[trigger] lb_init_at(
                    self.line_buffer@,
                    q,
                    rgb,
                ) by {
                    if q < x {
                        assert(lb_init_at(prev, q, rgb));
                    }
                }
            }
            x += 1;
        }
    }

    /// Evaluate the sprites for scanline `y`: the first seven whose eight
    /// rows cover the line move into the evaluation buffer, in OAM order,
    /// and the rest are dropped.
    fn buffer_sprite(&mut self, y: u32)
        requires
            old(self).wf(),
            y < 240,
        ensures
            final(self).wf(),
            *final(self) == (PPU {
                sprite_buffer: final(self).sprite_buffer,
                sprite_id_buffer: final(self).sprite_id_buffer,
                sprite_buffer_len: final(self).sprite_buffer_len,
                ..*old(self)
            }),
            final(self).sprite_buffer_len <= 7,
            forall|k: int|
                0 <= k < final(self).sprite_buffer_len ==> #[trigger] final(self).sprite_id_buffer@[k] < 64 && sprite_covers_line(
                    final(self).sprite_buffer@[4 * k],
                    y as int,
                ),
            sprite_covers_line(old(self).sprite_mem@[0], y as int) ==> final(self).sprite_buffer_len > 0 && final(self).sprite_id_buffer@[0] == 0 && final(self).sprite_buffer@[0] == old(self).sprite_mem@[0] && final(self).sprite_buffer@[1] == old(self).sprite_mem@[1] && final(self).sprite_buffer@[2] == old(self).sprite_mem@[2] && final(self).sprite_buffer@[3] == old(self).sprite_mem@[3],
    {
        self.sprite_buffer_len = 0;
        let mut sprite_id: usize = 0;
        while sprite_id < 64
            invariant
                old(self).wf(),
                y < 240,
                sprite_id <= 64,
                *self == (PPU {
                    sprite_buffer: self.sprite_buffer,
                    sprite_id_buffer: self.sprite_id_buffer,
                    sprite_buffer_len: self.sprite_buffer_len,
                    ..*old(self)
                }),
                self.sprite_buffer@.len() == 28,
                self.sprite_id_buffer@.len() == 7,
                self.sprite_buffer_len <= 7,
                self.sprite_buffer_len <= sprite_id,
                forall|k: int|
                    0 <= k < self.sprite_buffer_len ==> #[trigger] self.sprite_id_buffer@[k] < 64
                        && sprite_covers_line(self.sprite_buffer@[4 * k], y as int),
                sprite_covers_line(old(self).sprite_mem@[0], y as int) && sprite_id >= 1 ==> self
                    .sprite_buffer_len > 0 && self.sprite_id_buffer@[0] == 0 && self
                    .sprite_buffer@[0] == old(self).sprite_mem@[0] && self.sprite_buffer@[1] == old(self).sprite_mem@[1] && self.sprite_buffer@[2] == old(self).sprite_mem@[2] && self
                    .sprite_buffer@[3] == old(self).sprite_mem@[3],
            decreases 64 - sprite_id,
        {
            if self.sprite_buffer_len < 7 {
                let sp_y = self.sprite_mem[sprite_id * 4];
                if y >= sp_y as u32 && y < sp_y as u32 + 8 {
                    let ghost prev = *self;
                    let l = self.sprite_buffer_len;
                    self.sprite_buffer[l * 4] = sp_y;
                    let b1 = self.sprite_mem[sprite_id * 4 + 1];
                    self.sprite_buffer[l * 4 + 1] = b1;
                    let b2 = self.sprite_mem[sprite_id * 4 + 2];
                    self.sprite_buffer[l * 4 + 2] = b2;
                    let b3 = self.sprite_mem[sprite_id * 4 + 3];
                    self.sprite_buffer[l * 4 + 3] = b3;
                    self.sprite_id_buffer[l] = sprite_id as u8;
                    self.sprite_buffer_len = l + 1;
                    proof {
                        assert forall|k: int|
                            0 <= k < self.sprite_buffer_len implies #[trigger] self
                            .sprite_id_buffer@[k] < 64 && sprite_covers_line(
                            self.sprite_buffer@[4 * k],
                            y as int,
                        ) by {
                            if k < l {
                                assert(prev.sprite_id_buffer@[k] < 64 && sprite_covers_line(
                                    prev.sprite_buffer@[4 * k],
                                    y as int,
                                ));
                            } else {
                                assert(self.sprite_buffer@[4 * k] == sp_y);
                            }
                        }
                    }
                }
            }
            sprite_id += 1;
        }
    }

    /// Resolve and paint the background pixel of dot (`x`, `y`): an
    /// opaque pattern pixel lands where no opaque tile sits yet, under
    /// stencil code 2.
    fn render_bg(&mut self, x: u32, y: u32)
        requires
            old(self).wf(),
            x < 256,
            y < 240,
        ensures
            final(self).wf(),
            *final(self) == (PPU { line_buffer: final(self).line_buffer, ..*old(self) }),
            final(self).line_buffer@.len() == 1024,
            forall|i: int|
                0 <= i < 1024 && !(4 * x <= i < 4 * x + 4) ==> final(self).line_buffer@[i] == old(self).line_buffer@[i],
            ({
                let painted = bg_bits(*old(self), x as int, y as int) != 0 && old(self).line_buffer@[4 * x + 3] < 2;
                let rgb = bg_color(*old(self), x as int, y as int);
                &&& painted ==> final(self).line_buffer@[4 * x] == rgb.0 && final(self).line_buffer@[4 * x + 1] == rgb.1 && final(self).line_buffer@[4 * x + 2] == rgb.2
                    && final(self).line_buffer@[4 * x + 3] == 2
                &&& !painted ==> final(self).line_buffer@ == old(self).line_buffer@
            }),
            lb_pixel(final(self).line_buffer@, x as int) == bg_applied(
                *old(self),
                x as int,
                y as int,
                lb_pixel(old(self).line_buffer@, x as int),
            ),
    {
        let nt_bits: u32 = (self.cr1 & 0x03) as u32;
        let xx: u32 = (x + self.scroll_x as u32 + (nt_bits % 2) * 256) % 512;
        let yy: u32 = (y + self.scroll_y as u32 + (nt_bits / 2) * 240) % 480;
        proof {
            assert(xx == bg_xx(*self, x as int));
            assert(yy == bg_yy(*self, y as int));
        }
        let nt0: u32 = (if xx >= 256 {
            1
        } else {
            0
        }) + (if yy >= 240 {
            2
        } else {
            0
        });
        let nt: u32 = match self.mirror {
            Mirror::Horizontal => nt0 / 2 * 2,
            Mirror::Vertical => nt0 % 2,
        };
        proof {
            assert(nt == bg_nt(*self, xx as int, yy as int));
        }
        let tile_addr: usize = (0x2000 + nt * 0x400 + yy / 8 % 30 * 32 + xx / 8 % 32) as usize;
        let pat_id = self.mem[tile_addr];
        let base: usize = if self.cr1 & 0x10 == 0 {
            0
        } else {
            0x1000
        };
        let lo = self.mem[base + pat_id as usize * 16 + (yy % 8) as usize];
        let hi = self.mem[base + pat_id as usize * 16 + (yy % 8) as usize + 8];
        let pat = pattern_bits_at(hi, lo, (xx % 8) as u8);
        proof {
            assert(pat == bg_bits(*self, x as int, y as int));
        }
        let u: u32 = xx / 8 % 32;
        let v: u32 = yy / 8 % 30;
        let attr = self.mem[(0x23C0 + nt * 0x400 + v / 4 * 8 + u / 4) as usize];
        let quad: u32 = (if u % 4 >= 2 {
            1
        } else {
            0
        }) + (if v % 4 >= 2 {
            2
        } else {
            0
        });
        let attr_bits: u8 = if quad == 0 {
            attr % 4
        } else if quad == 1 {
            (attr / 4) % 4
        } else if quad == 2 {
            (attr / 16) % 4
        } else {
            (attr / 64) % 4
        };
        proof {
            assert(attr_bits == bg_attr_bits(*self, x as int, y as int));
        }
        if pat != 0 {
            let sten = self.line_buffer[(x * 4 + 3) as usize];
            if sten < 2 {
                let col = self.mem[0x3F00 + pat as usize + attr_bits as usize * 4];
                let rgb = color_rgb(col);
                self.line_buffer[(x * 4) as usize] = rgb.0;
                self.line_buffer[(x * 4 + 1) as usize] = rgb.1;
                self.line_buffer[(x * 4 + 2) as usize] = rgb.2;
                self.line_buffer[(x * 4 + 3) as usize] = 2;
            }
        }
    }

    /// Paint the sprite pixels of dot (`x`, `y`) from the evaluation
    /// buffer, last slot first so that lower OAM sprites win.
    /// Behind-background sprites land only on stencil codes 0 and 1;
    /// front sprites cover whatever was below. An opaque sprite-0 pixel
    /// over an opaque background pixel raises the sprite-0 hit when the
    /// background is enabled.
    fn render_sprite(&mut self, x: u32, y: u32)
        requires
            old(self).wf(),
            x < 256,
            y < 240,
        ensures
            final(self).wf(),
            *final(self) == (PPU {
                line_buffer: final(self).line_buffer,
                sr: final(self).sr,
                ..*old(self)
            }),
            final(self).line_buffer@.len() == 1024,
            forall|i: int|
                0 <= i < 1024 && !(4 * x <= i < 4 * x + 4) ==> final(self).line_buffer@[i] == old(self).line_buffer@[i],
            final(self).sr == old(self).sr || final(self).sr == old(self).sr | 0x40,
            sprite0_hit_cond(*old(self), x as int, y as int) ==> final(self).sr & 0x40 == 0x40,
            lb_pixel(final(self).line_buffer@, x as int) == sprite_fold(
                *old(self),
                x as int,
                y as int,
                0,
                lb_pixel(old(self).line_buffer@, x as int),
            ),
    {
        let ghost p0 = *old(self);
        let bg_sten = self.line_buffer[(x * 4 + 3) as usize];
        let mut j: usize = self.sprite_buffer_len;
        while j > 0
            invariant
                p0.wf(),
                x < 256,
                y < 240,
                j <= p0.sprite_buffer_len,
                *self == (PPU { line_buffer: self.line_buffer, sr: self.sr, ..p0 }),
                self.line_buffer@.len() == 1024,
                forall|i: int|
                    0 <= i < 1024 && !(4 * x <= i < 4 * x + 4) ==> self.line_buffer@[i]
                        == p0.line_buffer@[i],
                self.sr == p0.sr || self.sr == p0.sr | 0x40,
                bg_sten == p0.line_buffer@[4 * x + 3],
                j == 0 && sprite0_hit_cond(p0, x as int, y as int) ==> self.sr & 0x40 == 0x40,
                lb_pixel(self.line_buffer@, x as int) == sprite_fold(
                    p0,
                    x as int,
                    y as int,
                    j as int,
                    lb_pixel(p0.line_buffer@, x as int),
                ),
            decreases j,
        {
            j -= 1;
            let sp_y = self.sprite_buffer[j * 4];
            let sp_n = self.sprite_buffer[j * 4 + 1];
            let sp_a = self.sprite_buffer[j * 4 + 2];
            let sp_x = self.sprite_buffer[j * 4 + 3];
            if x >= sp_x as u32 && x < sp_x as u32 + 8 {
                let u0: u8 = (x as u8) - sp_x;
                let u: u8 = if sp_a & 0x40 != 0 {
                    7 - u0
                } else {
                    u0
                };
                let v0: u8 = (y as u8).wrapping_sub(sp_y);
                let v: u8 = if sp_a & 0x80 != 0 {
                    7u8.wrapping_sub(v0)
                } else {
                    v0
                };
                let base: usize = if self.cr1 & 0x08 == 0 {
                    0
                } else {
                    0x1000
                };
                let pat_lo = self.mem[base + sp_n as usize * 16 + v as usize];
                let pat_hi = self.mem[base + sp_n as usize * 16 + v as usize + 8];
                let pat = pattern_bits_at(pat_hi, pat_lo, u);
                proof {
                    assert(pat == sprite_bits_at(p0, j as int, x as int, y as int));
                }
                if pat != 0 {
                    proof {
                        crate::bits::lemma_u8_and_le(sp_a, 0x03);
                    }
                    let pal: u8 = pat + (sp_a & 0x03) * 4;
                    let col = self.mem[0x3F10 + pal as usize];
                    let rgb = color_rgb(col);
                    if sp_a & 0x20 != 0 {
                        let sten = self.line_buffer[(x * 4 + 3) as usize];
                        if sten <= 1 {
                            self.line_buffer[(x * 4) as usize] = rgb.0;
                            self.line_buffer[(x * 4 + 1) as usize] = rgb.1;
                            self.line_buffer[(x * 4 + 2) as usize] = rgb.2;
                            self.line_buffer[(x * 4 + 3) as usize] = 1;
                        }
                    } else {
                        self.line_buffer[(x * 4) as usize] = rgb.0;
                        self.line_buffer[(x * 4 + 1) as usize] = rgb.1;
                        self.line_buffer[(x * 4 + 2) as usize] = rgb.2;
                        self.line_buffer[(x * 4 + 3) as usize] = 3;
                    }
                    if j == 0 && self.cr2 & 0x08 != 0 && bg_sten == 2 {
                        proof {
                            crate::bits::lemma_u8_set_status(self.sr);
                            crate::bits::lemma_u8_or_idem(p0.sr, 0x40);
                        }
                        self.sr = self.sr | 0x40;
                    }
                }
            }
        }
    }
}


/// What one PPU tick does, as a relation between the unit, the output
/// surfaces and the event queue before and after it: the timing grid,
/// the status edges, the NMI, the painted pixel and the line handoff
/// of `PPU::clock`.
pub open spec fn ppu_tick_rel(p0: PPU, io0: IO, ev0: Seq<Event>, p1: PPU, io1: IO, ev1: Seq<Event>) -> bool {
    &&& (p0.line_clock < 340 ==> p1.line_clock == p0.line_clock + 1
                && p1.line == p0.line && p1.frames == p0.frames)
    &&& (p0.line_clock == 340 ==> p1.line_clock == 0)
    &&& (p0.line_clock == 340 && p0.line < 261 ==> p1.line == p0.line + 1 && p1.frames == p0.frames)
    &&& (p0.line_clock == 340 && p0.line == 261 ==> p1.line == 0
                && p1.frames == p0.frames + 1)
    &&& (p1 == (PPU {
                sr: p1.sr,
                line: p1.line,
                line_clock: p1.line_clock,
                frames: p1.frames,
                line_buffer: p1.line_buffer,
                sprite_buffer: p1.sprite_buffer,
                sprite_id_buffer: p1.sprite_id_buffer,
                sprite_buffer_len: p1.sprite_buffer_len,
                ..p0
            }))
    &&& (p0.line == 241 && p0.line_clock == 1 ==> p1.sr & 0x80 == 0x80
                && p1.sr & 0x40 == p0.sr & 0x40)
    &&& (p0.line == 261 && p0.line_clock == 1 ==> p1.sr & 0x80 == 0
                && p1.sr & 0x40 == 0)
    &&& (p0.line >= 240 && !(p0.line == 241 && p0.line_clock == 1) && !(
            p0.line == 261 && p0.line_clock == 1) ==> p1.sr == p0.sr)
    &&& (p0.line < 240 ==> p1.sr == p0.sr || p1.sr == p0.sr | 0x40)
    &&& (p0.line == 241 && p0.line_clock == 1 && p0.cr1 & 0x80 != 0
                ==> ev1 == ev0.push(Event { event_type: EventType::Nmi }))
    &&& (!(p0.line == 241 && p0.line_clock == 1 && p0.cr1 & 0x80 != 0)
                ==> ev1 == ev0)
    &&& (({
                let x = p0.line_clock as int;
                let y = p0.line as int;
                (p0.line < 240 && 1 <= p0.line_clock < 256 && p0.cr2 & 0x10
                    != 0 && p0.cr2 & 0x08 != 0 && p0.sprite_buffer_len > 0 && p0.sprite_id_buffer@[0] == 0 && sprite_covers_x(p0, 0, x) && sprite_bits_at(
                    p0,
                    0,
                    x,
                    y,
                ) != 0 && bg_bits(p0, x, y) != 0 && p0.line_buffer@[4 * x + 3] < 2)
                    ==> p1.sr & 0x40 == 0x40
            }))
    &&& (p0.line < 240 && p0.line_clock < 256 ==> ({
                let x = p0.line_clock as int;
                let y = p0.line as int;
                let fill = color_table(p0.mem@[0x3F00] as int);
                let below = if p0.line_clock == 0 {
                    (fill.0, fill.1, fill.2, 0u8)
                } else {
                    lb_pixel(p0.line_buffer@, x)
                };
                let bgp = bg_applied(p0, x, y, below);
                lb_pixel(p1.line_buffer@, x) == if p0.cr2 & 0x10 != 0 {
                    sprite_fold(p1, x, y, 0, bgp)
                } else {
                    bgp
                }
            }))
    &&& (p0.line < 240 && p0.line_clock == 0 ==> (forall|x: int|
                1 <= x < 256 ==> #[trigger] lb_init_at(
                    p1.line_buffer@,
                    x,
                    color_table(p0.mem@[0x3F00] as int),
                )))
    &&& (!(p0.line < 240 && p0.line_clock == 340) ==> io1 == io0)
    &&& (p0.line < 240 && p0.line_clock == 340 ==> crate::io::same_but_planes(
                io1,
                io0,
            ) && (forall|x: int|
                0 <= x < 256 ==> #[trigger] crate::io::line_pixel_copied(
                    io1.vram@,
                    io1.stencil@,
                    p1.line_buffer@,
                    p0.line as int,
                    x,
                )))
}

impl PPU {
    /// One PPU tick: process the current dot, then advance the grid.
    ///
    /// Visible lines evaluate sprites and repaint the line buffer at dot
    /// 0, resolve one background and one sprite pixel per dot through
    /// dot 255, and hand the completed line to the framebuffer at dot
    /// 340. Dot 1 of line 241 raises VBlank, and an NMI when PPUCTRL
    /// enables it; dot 1 of the pre-render line 261 clears VBlank and
    /// the sprite-0 hit. The frame counter advances when line 261 ends.
    pub fn clock(&mut self, io: &mut IO, events: &mut EventQueue)
        requires
            old(self).wf(),
            old(io).wf(),
            old(self).frames < u64::MAX,
        ensures
            final(self).wf(),
            final(io).wf(),
            ppu_tick_rel(*old(self), *old(io), old(events)@, *final(self), *final(io), final(events)@),
    {
        let ghost mut rendered: PPU = *old(self);
        if self.line < 240 {
            if self.line_clock == 0 {
                let y = self.line;
                self.buffer_sprite(y);
                self.line_start();
            }
            let ghost pre_bg = *self;
            if self.line_clock < 256 {
                let x = self.line_clock;
                let y = self.line;
                self.render_bg(x, y);
                let ghost after_bg = *self;
                if self.cr2 & 0x10 != 0 {
                    self.render_sprite(x, y);
                }
                proof {
                    rendered = *self;
                    let xi = x as int;
                    let yi = y as int;
                    let fill = color_table(old(self).mem@[0x3F00] as int);
                    let below = if old(self).line_clock == 0 {
                        (fill.0, fill.1, fill.2, 0u8)
                    } else {
                        lb_pixel(old(self).line_buffer@, xi)
                    };
                    if old(self).line_clock == 0 {
                        assert(lb_init_at(pre_bg.line_buffer@, xi, fill));
                        assert forall|x2: int|
                            1 <= x2 < 256 implies #[trigger] lb_init_at(
                            self.line_buffer@,
                            x2,
                            fill,
                        ) by {
                            assert(lb_init_at(pre_bg.line_buffer@, x2, fill));
                        }
                    }
                    assert(lb_pixel(pre_bg.line_buffer@, xi) == below);
                    let bgp = bg_applied(*old(self), xi, yi, below);
                    assert(bg_applied(pre_bg, xi, yi, below) == bgp);
                    assert(lb_pixel(after_bg.line_buffer@, xi) == bgp);
                    if old(self).cr2 & 0x10 != 0 {
                        assert(lb_pixel(self.line_buffer@, xi) == sprite_fold(
                            after_bg,
                            xi,
                            yi,
                            0,
                            bgp,
                        ));
                        lemma_sprite_fold_frame(after_bg, *self, xi, yi, 0, bgp);
                    }
                }
            }
            if self.line_clock == 340 {
                let y = self.line;
                io.draw_line(y, &self.line_buffer);
            }
        }
        if self.line == 241 && self.line_clock == 1 {
            proof {
                crate::bits::lemma_u8_set_status(self.sr);
            }
            self.sr = self.sr | 0x80;
            if self.cr1 & 0x80 != 0 {
                events.push(Event::new(EventType::Nmi));
            }
        }
        if self.line == 261 && self.line_clock == 1 {
            proof {
                crate::bits::lemma_u8_clear_status(self.sr);
            }
            self.sr = self.sr & 0x3F;
        }
        if self.line_clock < 340 {
            self.line_clock = self.line_clock + 1;
        } else {
            self.line_clock = 0;
            if self.line < 261 {
                self.line = self.line + 1;
            } else {
                self.line = 0;
                self.frames = self.frames + 1;
            }
        }
        proof {
            if old(self).line < 240 && old(self).line_clock < 256 && old(self).cr2 & 0x10 != 0 {
                let xi = old(self).line_clock as int;
                let yi = old(self).line as int;
                let fill = color_table(old(self).mem@[0x3F00] as int);
                let below = if old(self).line_clock == 0 {
                    (fill.0, fill.1, fill.2, 0u8)
                } else {
                    lb_pixel(old(self).line_buffer@, xi)
                };
                let bgp = bg_applied(*old(self), xi, yi, below);
                lemma_sprite_fold_frame(rendered, *self, xi, yi, 0, bgp);
            }
        }
    }
}

} // verus!
