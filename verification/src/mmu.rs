//! The memory-management unit: every CPU bus access decodes here and
//! routes to work RAM, PRG-ROM, the picture and audio registers, the pad
//! ports, or the sprite-DMA trigger.
//!
//! Reads can have side effects: a status read clears latches, a data-port
//! read cycles the prefetch buffer, a pad read advances its shift count.
//! `mmu_read_val` and `mmu_read_stepped` say exactly what every read
//! returns and does; writes are pinned address by address.

use vstd::prelude::*;

use crate::apu::APU;
use crate::apu::length_table;
use crate::events::Event;
use crate::events::EventQueue;
use crate::events::EventType;
use crate::io::IO;
use crate::pad::Pad;
use crate::ppu::PPU;
use crate::ppu::read_stepped;
use crate::ppu::read_value;
use crate::ppu::write_byte;
use crate::ppu::write_cell;

verus! {

pub struct MMU {
    pub mapper: u8,
    /// 2 KiB of work RAM, mirrored through 0x1FFF.
    pub wram: Vec<u8>,
    /// The 32 KiB PRG window at 0x8000; a 16 KiB cartridge occupies both
    /// halves.
    pub prom: Vec<u8>,
    /// The raw CHR image as loaded.
    pub crom: Vec<u8>,
    pub ppu: PPU,
    pub apu: APU,
    pub io: IO,
    pub events: EventQueue,
}

/// What a read of `addr` returns.
pub open spec fn mmu_read_val(m: MMU, addr: u16) -> u8 {
    if addr < 0x2000 {
        m.wram@[addr as int % 0x800]
    } else if addr == 0x2002 {
        m.ppu.sr
    } else if addr == 0x2004 {
        m.ppu.sprite_mem@[m.ppu.sprite_write_addr as int]
    } else if addr == 0x2007 {
        read_value(m.ppu)
    } else if addr == 0x4016 {
        m.io.pad.button(0, m.io.pad.in_count_1 as int)
    } else if addr == 0x4017 {
        m.io.pad.button(1, m.io.pad.in_count_2 as int)
    } else if addr >= 0x8000 {
        m.prom@[addr - 0x8000]
    } else {
        0xFF
    }
}

/// The machine after a read of `addr`: only the status read, the data
/// port and the pad ports have side effects.
pub open spec fn mmu_read_stepped(m: MMU, addr: u16) -> MMU {
    if addr == 0x2002 {
        MMU { ppu: PPU { sr: m.ppu.sr & 0x7F, write_mode: 0, ..m.ppu }, ..m }
    } else if addr == 0x2007 {
        MMU { ppu: read_stepped(m.ppu), ..m }
    } else if addr == 0x4016 {
        MMU {
            io: IO {
                pad: Pad { in_count_1: ((m.io.pad.in_count_1 + 1) % 8) as u8, ..m.io.pad },
                ..m.io
            },
            ..m
        }
    } else if addr == 0x4017 {
        MMU {
            io: IO {
                pad: Pad { in_count_2: ((m.io.pad.in_count_2 + 1) % 8) as u8, ..m.io.pad },
                ..m.io
            },
            ..m
        }
    } else {
        m
    }
}

/// What a little-endian 16-bit read of `addr` returns, and the machine
/// after it: two single reads, the second at the wrapped successor.
pub open spec fn mmu_read16_val(m: MMU, addr: u16) -> u16 {
    (mmu_read_val(m, addr) + 256 * mmu_read_val(
        mmu_read_stepped(m, addr),
        ((addr + 1) % 0x10000) as u16,
    )) as u16
}

pub open spec fn mmu_read16_stepped(m: MMU, addr: u16) -> MMU {
    mmu_read_stepped(mmu_read_stepped(m, addr), ((addr + 1) % 0x10000) as u16)
}

/// The high byte of a pointer read honors the 6502 page-boundary quirk:
/// a pointer whose low byte is 0xFF wraps within its page.
pub open spec fn indirect_hi_addr(p: u16) -> u16 {
    if p % 256 == 255 {
        (p - 255) as u16
    } else {
        (p + 1) as u16
    }
}

/// What the JMP-indirect pointer resolution returns: the 16-bit pointer
/// at `addr`, then the 16-bit value at that pointer with the
/// page-boundary quirk.
pub open spec fn mmu_indirect_val(m: MMU, addr: u16) -> u16 {
    let p = mmu_read16_val(m, addr);
    let m1 = mmu_read16_stepped(m, addr);
    (mmu_read_val(m1, p) + 256 * mmu_read_val(
        mmu_read_stepped(m1, p),
        indirect_hi_addr(p),
    )) as u16
}

pub open spec fn mmu_indirect_stepped(m: MMU, addr: u16) -> MMU {
    let p = mmu_read16_val(m, addr);
    let m1 = mmu_read16_stepped(m, addr);
    mmu_read_stepped(mmu_read_stepped(m1, p), indirect_hi_addr(p))
}

/// What indexed-indirect addressing returns: the zero-page byte at
/// `addr` plus `x`, wrapping in the zero page, names a two-byte pointer.
pub open spec fn mmu_indirect_x_val(m: MMU, addr: u16, x: u8) -> u16 {
    let z = (mmu_read_val(m, addr) + x) % 256;
    let m1 = mmu_read_stepped(m, addr);
    (mmu_read_val(m1, z as u16) + 256 * mmu_read_val(
        mmu_read_stepped(m1, z as u16),
        ((z + 1) % 256) as u16,
    )) as u16
}

pub open spec fn mmu_indirect_x_stepped(m: MMU, addr: u16, x: u8) -> MMU {
    let z = (mmu_read_val(m, addr) + x) % 256;
    let m1 = mmu_read_stepped(m, addr);
    mmu_read_stepped(mmu_read_stepped(m1, z as u16), ((z + 1) % 256) as u16)
}

/// What indirect-indexed addressing returns: the zero-page pointer at
/// `addr`, read with zero-page wrap, plus `y` with 16-bit wrap.
pub open spec fn mmu_indirect_y_val(m: MMU, addr: u16, y: u8) -> u16 {
    let z = mmu_read_val(m, addr);
    let m1 = mmu_read_stepped(m, addr);
    let p = mmu_read_val(m1, z as u16) + 256 * mmu_read_val(
        mmu_read_stepped(m1, z as u16),
        ((z + 1) % 256) as u16,
    );
    ((p + y) % 0x10000) as u16
}

pub open spec fn mmu_indirect_y_stepped(m: MMU, addr: u16, y: u8) -> MMU {
    let z = mmu_read_val(m, addr);
    let m1 = mmu_read_stepped(m, addr);
    mmu_read_stepped(mmu_read_stepped(m1, z as u16), ((z + 1) % 256) as u16)
}

/// The byte that sprite DMA from page `page` copies at offset `i`: pages
/// below 0x08 come from work RAM, pages from 0x80 from PRG-ROM, and
/// unmapped pages read as open bus.
pub open spec fn dma_source(m: MMU, page: u8, i: int) -> u8 {
    if page < 0x08 {
        m.wram@[page * 256 + i]
    } else if page >= 0x80 {
        m.prom@[(page - 0x80) * 256 + i]
    } else {
        0xFF
    }
}

/// How one bus write relates the machine before it to the machine
/// after it, address by address: what `write` guarantees, as a
/// relation the processor contracts can speak of.
pub open spec fn mmu_write_rel(pre: MMU, post: MMU, addr: u16, v: u8) -> bool {
    &&& (post == (MMU {
                wram: post.wram,
                ppu: post.ppu,
                apu: post.apu,
                io: post.io,
                events: post.events,
                ..pre
            }))
    &&& (post.ppu.line == pre.ppu.line)
    &&& (post.ppu.line_clock == pre.ppu.line_clock)
    &&& (post.ppu.frames == pre.ppu.frames)
    &&& (post.ppu.sr == pre.ppu.sr)
    &&& (addr < 0x2000 ==> post.wram@ == pre.wram@.update(addr as int % 0x800, v)
                && post.ppu == pre.ppu && post.apu == pre.apu && post.io == pre.io && post.events == pre.events)
    &&& (0x2000 <= addr < 0x4014 || addr == 0x4015 || addr == 0x4017 ==> post.wram == pre.wram && post.io == pre.io && post.events == pre.events)
    &&& (addr == 0x2000 ==> post.ppu == (PPU { cr1: v, ..pre.ppu }))
    &&& (addr == 0x2001 ==> post.ppu == (PPU { cr2: v, ..pre.ppu }))
    &&& (addr == 0x2003 ==> post.ppu == (PPU {
                sprite_write_addr: v,
                ..pre.ppu
            }))
    &&& (addr == 0x2004 ==> post.ppu.sprite_mem@ == pre.ppu.sprite_mem@.update(
                pre.ppu.sprite_write_addr as int,
                v,
            ) && post.ppu == (PPU {
                sprite_mem: post.ppu.sprite_mem,
                sprite_write_addr: ((pre.ppu.sprite_write_addr + 1) % 256) as u8,
                ..pre.ppu
            }))
    &&& (addr == 0x2005 && pre.ppu.write_mode == 0 ==> post.ppu == (PPU {
                scroll_x: v,
                write_mode: 1,
                ..pre.ppu
            }))
    &&& (addr == 0x2005 && pre.ppu.write_mode != 0 ==> post.ppu == (PPU {
                scroll_y: v,
                write_mode: 0,
                ..pre.ppu
            }))
    &&& (addr == 0x2006 && pre.ppu.write_mode == 0 ==> post.ppu == (PPU {
                write_addr: (pre.ppu.write_addr % 256 + v * 256) as u16,
                write_mode: 1,
                ..pre.ppu
            }))
    &&& (addr == 0x2006 && pre.ppu.write_mode != 0 ==> post.ppu == (PPU {
                write_addr: (pre.ppu.write_addr / 256 * 256 + v) as u16,
                write_mode: 0,
                ..pre.ppu
            }))
    &&& (addr == 0x2007 ==> post.ppu.mem@ == pre.ppu.mem@.update(
                write_cell(pre.ppu),
                write_byte(pre.ppu, v),
            ) && post.ppu == (PPU {
                mem: post.ppu.mem,
                write_addr: post.ppu.write_addr,
                ..pre.ppu
            }))
    &&& (0x2000 <= addr < 0x4000 && !(addr == 0x2000 || addr == 0x2001 || addr == 0x2003 || addr
                == 0x2004 || addr == 0x2005 || addr == 0x2006 || addr == 0x2007) ==> post
                == pre)
    &&& (0x2000 <= addr < 0x4000 || addr == 0x4014 || addr == 0x4016 || addr >= 0x4018
                ==> post.apu == pre.apu)
    &&& (0x4000 <= addr < 0x4014 || addr == 0x4015 || addr == 0x4017 ==> post.ppu == pre.ppu)
    &&& (addr == 0x4000 ==> post.apu == (APU {
                square1: pre.apu.square1.with_cr1(v),
                ..pre.apu
            }))
    &&& (addr == 0x4001 ==> post.apu == (APU {
                square1: pre.apu.square1.with_cr2(v),
                ..pre.apu
            }))
    &&& (addr == 0x4002 ==> post.apu == (APU {
                square1: pre.apu.square1.with_fq1(v),
                ..pre.apu
            }))
    &&& (addr == 0x4003 ==> post.apu == (APU {
                square1: pre.apu.square1.with_fq2(v),
                ..pre.apu
            }) && post.apu.square1.length_counter == length_table(v as int / 8))
    &&& (addr == 0x4004 ==> post.apu == (APU {
                square2: pre.apu.square2.with_cr1(v),
                ..pre.apu
            }))
    &&& (addr == 0x4005 ==> post.apu == (APU {
                square2: pre.apu.square2.with_cr2(v),
                ..pre.apu
            }))
    &&& (addr == 0x4006 ==> post.apu == (APU {
                square2: pre.apu.square2.with_fq1(v),
                ..pre.apu
            }))
    &&& (addr == 0x4007 ==> post.apu == (APU {
                square2: pre.apu.square2.with_fq2(v),
                ..pre.apu
            }) && post.apu.square2.length_counter == length_table(v as int / 8))
    &&& (addr == 0x4008 ==> post.apu == (APU {
                triangle: pre.apu.triangle.with_cr1(v),
                ..pre.apu
            }))
    &&& (addr == 0x400A ==> post.apu == (APU {
                triangle: pre.apu.triangle.with_fq1(v),
                ..pre.apu
            }))
    &&& (addr == 0x400B ==> post.apu == (APU {
                triangle: pre.apu.triangle.with_fq2(v),
                ..pre.apu
            }) && post.apu.triangle.length_counter == length_table(v as int / 8))
    &&& (addr == 0x400C ==> post.apu == (APU {
                noise: pre.apu.noise.with_cr(v),
                ..pre.apu
            }))
    &&& (addr == 0x400E ==> post.apu == (APU {
                noise: pre.apu.noise.with_fq1(v),
                ..pre.apu
            }))
    &&& (addr == 0x400F ==> post.apu == (APU {
                noise: pre.apu.noise.with_fq2(v),
                ..pre.apu
            }) && post.apu.noise.length_counter == length_table(v as int / 8))
    &&& (addr == 0x4010 ==> post.apu == (APU { dmc1: v, ..pre.apu }))
    &&& (addr == 0x4011 ==> post.apu == (APU { dmc2: v, ..pre.apu }))
    &&& (addr == 0x4009 || addr == 0x400D || addr == 0x4012 || addr == 0x4013 ==> post
                == pre)
    &&& (addr == 0x4014 ==> post.ppu.sprite_mem@.len() == 256 && (forall|i: int|
                0 <= i < 256 ==> post.ppu.sprite_mem@[i] == dma_source(pre, v, i))
                && post.ppu == (PPU {
                sprite_mem: post.ppu.sprite_mem,
                ..pre.ppu
            }) && post.events@ == pre.events@.push(
                Event { event_type: EventType::Dma(v) },
            ) && post.wram == pre.wram && post.apu == pre.apu && post.io == pre.io)
    &&& (addr == 0x4015 ==> post.apu == (APU {
                ch_ctrl: v,
                square1: pre.apu.square1.with_enable(v),
                square2: pre.apu.square2.with_enable(v),
                triangle: pre.apu.triangle.with_enable(v),
                noise: pre.apu.noise.with_enable(v),
                ..pre.apu
            }))
    &&& (addr == 0x4016 ==> post.io.pad.last_out == v % 2 && post.io == (IO {
                pad: post.io.pad,
                ..pre.io
            }) && post.wram == pre.wram && post.ppu == pre.ppu && post.apu == pre.apu && post.events == pre.events && (pre.io.pad.last_out == 1 && v % 2 == 0 ==> post.io.pad == (Pad {
                last_out: v % 2,
                in_count_1: 0,
                in_count_2: 0,
                ..pre.io.pad.strobed()
            })) && (!(pre.io.pad.last_out == 1 && v % 2 == 0) ==> post.io.pad == (Pad {
                last_out: v % 2,
                ..pre.io.pad
            })))
    &&& (addr == 0x4017 ==> post.apu.frame_cr == v && post.apu.frame.cr == v
                && post.apu.frame.seq == 0 && post.apu.clock_frame
                == crate::apu::CLOCK_DIV_FRAME - 1)
    &&& (addr >= 0x4018 ==> post == pre)
}

impl MMU {
    pub open spec fn wf(&self) -> bool {
        &&& self.wram@.len() == 0x800
        &&& self.prom@.len() == 0x8000
        &&& self.ppu.wf()
        &&& self.apu.wf()
        &&& self.io.wf()
    }

    pub fn new() -> (m: MMU)
        ensures
            m.wf(),
            m.mapper == 0,
            m.wram@ == Seq::new(0x800nat, |i: int| 0u8),
            m.prom@ == Seq::new(0x8000nat, |i: int| 0u8),
            m.ppu.line == 0 && m.ppu.line_clock == 0 && m.ppu.sr == 0 && m.ppu.cr1 == 0
                && m.ppu.cr2 == 0 && m.ppu.frames == 0 && m.ppu.write_mode == 0
                && m.ppu.write_addr == 0 && m.ppu.read_buffer == 0,
            m.ppu.mem@ == Seq::new(0x4000nat, |i: int| 0u8),
            m.apu.clock_frame == 0 && m.apu.render_clock == 0 && !m.apu.stall,
            m.io.audio@ == Seq::<u16>::empty(),
            m.events@ == Seq::<Event>::empty(),
            m.io.pad.in_count_1 == 0 && m.io.pad.in_count_2 == 0 && m.io.pad.last_out == 0,
    {
        let m = MMU {
            mapper: 0,
            wram: vec![0u8; 0x800],
            prom: vec![0u8; 0x8000],
            crom: Vec::new(),
            ppu: PPU::new(),
            apu: APU::new(),
            io: IO::new(),
            events: EventQueue::new(),
        };
        proof {
            assert(m.wram@ =~= Seq::new(0x800nat, |i: int| 0u8));
            assert(m.prom@ =~= Seq::new(0x8000nat, |i: int| 0u8));
        }
        m
    }

    /// One bus read.
    pub fn read_1byte(&mut self, addr: u16) -> (r: u8)
        requires
            old(self).wf(),
        ensures
            final(self).wf(),
            r == mmu_read_val(*old(self), addr),
            *final(self) == mmu_read_stepped(*old(self), addr),
    {
        if addr < 0x2000 {
            self.wram[(addr % 0x800) as usize]
        } else if addr == 0x2002 {
            self.ppu.get_sr()
        } else if addr == 0x2004 {
            self.ppu.sprite_read()
        } else if addr == 0x2007 {
            self.ppu.read()
        } else if addr == 0x4016 {
            self.io.pad.in1()
        } else if addr == 0x4017 {
            self.io.pad.in2()
        } else if addr >= 0x8000 {
            self.prom[(addr - 0x8000) as usize]
        } else {
            // Unmapped: open bus.
            0xFF
        }
    }

    /// One little-endian 16-bit bus read: the byte at `addr` and the byte
    /// at its wrapped successor.
    pub fn read_2bytes(&mut self, addr: u16) -> (r: u16)
        requires
            old(self).wf(),
        ensures
            final(self).wf(),
            r == mmu_read16_val(*old(self), addr),
            *final(self) == mmu_read16_stepped(*old(self), addr),
    {
        let lo = self.read_1byte(addr);
        let hi = self.read_1byte(addr.wrapping_add(1));
        lo as u16 + 256 * hi as u16
    }

    /// Resolve a JMP-indirect pointer, honoring the page-boundary quirk.
    #[verifier::rlimit(60)]
    pub fn indirect(&mut self, addr: u16) -> (r: u16)
        requires
            old(self).wf(),
        ensures
            final(self).wf(),
            r == mmu_indirect_val(*old(self), addr),
            *final(self) == mmu_indirect_stepped(*old(self), addr),
    {
        let p = self.read_2bytes(addr);
        let lo = self.read_1byte(p);
        let hi_addr: u16 = if p % 256 == 255 {
            p - 255
        } else {
            p + 1
        };
        let hi = self.read_1byte(hi_addr);
        lo as u16 + 256 * hi as u16
    }

    /// Resolve indexed-indirect (zero page plus X) addressing.
    #[verifier::rlimit(60)]
    pub fn indirect_x(&mut self, addr: u16, x: u8) -> (r: u16)
        requires
            old(self).wf(),
        ensures
            final(self).wf(),
            r == mmu_indirect_x_val(*old(self), addr, x),
            *final(self) == mmu_indirect_x_stepped(*old(self), addr, x),
    {
        let z: u8 = self.read_1byte(addr).wrapping_add(x);
        let lo = self.read_1byte(z as u16);
        let hi = self.read_1byte(z.wrapping_add(1) as u16);
        lo as u16 + 256 * hi as u16
    }

    /// Resolve indirect-indexed (zero page, then plus Y) addressing.
    #[verifier::rlimit(60)]
    pub fn indirect_y(&mut self, addr: u16, y: u8) -> (r: u16)
        requires
            old(self).wf(),
        ensures
            final(self).wf(),
            r == mmu_indirect_y_val(*old(self), addr, y),
            *final(self) == mmu_indirect_y_stepped(*old(self), addr, y),
    {
        let z = self.read_1byte(addr);
        let lo = self.read_1byte(z as u16);
        let hi = self.read_1byte(z.wrapping_add(1) as u16);
        let p = lo as u16 + 256 * hi as u16;
        p.wrapping_add(y as u16)
    }

    /// One bus write.
    pub fn write(&mut self, addr: u16, n: u8)
        requires
            old(self).wf(),
        ensures
            final(self).wf(),
            mmu_write_rel(*old(self), *final(self), addr, n),
    {
        if addr < 0x2000 {
            self.wram[(addr % 0x800) as usize] = n;
        } else if addr == 0x2000 {
            self.ppu.set_cr1(n);
        } else if addr == 0x2001 {
            self.ppu.set_cr2(n);
        } else if addr == 0x2003 {
            self.ppu.set_sprite_write_addr(n);
        } else if addr == 0x2004 {
            self.ppu.sprite_write(n);
        } else if addr == 0x2005 {
            self.ppu.set_scroll(n);
        } else if addr == 0x2006 {
            self.ppu.set_write_addr(n);
        } else if addr == 0x2007 {
            self.ppu.write(n);
        } else if addr == 0x4000 {
            self.apu.set_sw1_cr1(n);
        } else if addr == 0x4001 {
            self.apu.set_sw1_cr2(n);
        } else if addr == 0x4002 {
            self.apu.set_sw1_fq1(n);
        } else if addr == 0x4003 {
            self.apu.set_sw1_fq2(n);
        } else if addr == 0x4004 {
            self.apu.set_sw2_cr1(n);
        } else if addr == 0x4005 {
            self.apu.set_sw2_cr2(n);
        } else if addr == 0x4006 {
            self.apu.set_sw2_fq1(n);
        } else if addr == 0x4007 {
            self.apu.set_sw2_fq2(n);
        } else if addr == 0x4008 {
            self.apu.set_tw_cr1(n);
        } else if addr == 0x4009 {
            self.apu.set_tw_cr2(n);
        } else if addr == 0x400A {
            self.apu.set_tw_fq1(n);
        } else if addr == 0x400B {
            self.apu.set_tw_fq2(n);
        } else if addr == 0x400C {
            self.apu.set_noise_cr1(n);
        } else if addr == 0x400D {
            self.apu.set_noise_cr2(n);
        } else if addr == 0x400E {
            self.apu.set_noise_fq1(n);
        } else if addr == 0x400F {
            self.apu.set_noise_fq2(n);
        } else if addr == 0x4010 {
            self.apu.set_dmc1(n);
        } else if addr == 0x4011 {
            self.apu.set_dmc2(n);
        } else if addr == 0x4014 {
            self.start_dma(n);
        } else if addr == 0x4015 {
            self.apu.set_ch_ctrl(n);
        } else if addr == 0x4016 {
            self.io.pad.out(n);
        } else if addr == 0x4017 {
            self.apu.set_frame_cr(n);
        } else {
            // Writes to read-only or unmapped regions are ignored.
        }
    }

    /// Copy one 256-byte page into sprite memory and queue the DMA stall.
    fn start_dma(&mut self, n: u8)
        requires
            old(self).wf(),
        ensures
            final(self).wf(),
            final(self).ppu.sprite_mem@.len() == 256,
            forall|i: int|
                0 <= i < 256 ==> final(self).ppu.sprite_mem@[i] == dma_source(*old(self), n, i),
            final(self).ppu == (PPU { sprite_mem: final(self).ppu.sprite_mem, ..old(self).ppu }),
            final(self).events@ == old(self).events@.push(Event { event_type: EventType::Dma(n) }),
            *final(self) == (MMU {
                ppu: final(self).ppu,
                events: final(self).events,
                ..*old(self)
            }),
    {
        let mut buf: Vec<u8> = Vec::new();
        let mut i: usize = 0;
        while i < 256
            invariant
                old(self).wf(),
                *self == *old(self),
                i <= 256,
                buf@.len() == i,
                forall|j: int| 0 <= j < i ==> buf@[j] == dma_source(*old(self), n, j),
            decreases 256 - i,
        {
            let b: u8 = if n < 0x08 {
                self.wram[n as usize * 256 + i]
            } else if n >= 0x80 {
                self.prom[(n as usize - 0x80) * 256 + i]
            } else {
                0xFF
            };
            buf.push(b);
            i += 1;
        }
        self.ppu.sprite_dma(&buf);
        self.events.push(Event::new(EventType::Dma(n)));
    }

    /// Push a 16-bit value at a stack address: high byte at `addr`, low
    /// byte below it, wrapping within the stack page.
    pub fn push_2bytes(&mut self, addr: u16, n: u16)
        requires
            old(self).wf(),
            0x0100 <= addr < 0x0200,
        ensures
            final(self).wf(),
            final(self).wram@ == old(self).wram@.update(addr as int, (n / 256) as u8).update(
                if addr == 0x0100 {
                    0x01FFint
                } else {
                    addr - 1
                },
                (n % 256) as u8,
            ),
            *final(self) == (MMU { wram: final(self).wram, ..*old(self) }),
    {
        self.write(addr, (n / 256) as u8);
        let lo_addr: u16 = if addr == 0x0100 {
            0x01FF
        } else {
            addr - 1
        };
        self.write(lo_addr, (n % 256) as u8);
    }

    /// Pull a 16-bit value from a stack address: low byte just above it,
    /// high byte above that, wrapping within the stack page.
    pub fn pop_2bytes(&mut self, addr: u16) -> (r: u16)
        requires
            old(self).wf(),
            0x0100 <= addr < 0x0200,
        ensures
            final(self).wf(),
            *final(self) == *old(self),
            r == old(self).wram@[0x0100 + (addr + 1) % 256] + 256 * old(self).wram@[0x0100 + (addr
                + 2) % 256],
    {
        let lo_addr: u16 = 0x0100 + (addr + 1) % 256;
        let hi_addr: u16 = 0x0100 + (addr + 2) % 256;
        let lo = self.read_1byte(lo_addr);
        let hi = self.read_1byte(hi_addr);
        lo as u16 + 256 * hi as u16
    }

    pub fn set_mapper(&mut self, m: u8)
        ensures
            *final(self) == (MMU { mapper: m, ..*old(self) }),
    {
        self.mapper = m;
    }

    /// Load the PRG window: a single 16 KiB bank is mirrored into both
    /// halves, a 32 KiB image fills it.
    #[allow(non_snake_case)]
    pub fn set_PROM(&mut self, prom: &Vec<u8>)
        requires
            old(self).wf(),
            prom@.len() == 0x4000 || prom@.len() == 0x8000,
        ensures
            final(self).wf(),
            final(self).prom@.len() == 0x8000,
            forall|i: int|
                0 <= i < 0x8000 ==> final(self).prom@[i] == prom@[i % (prom@.len() as int)],
            *final(self) == (MMU { prom: final(self).prom, ..*old(self) }),
    {
        let n = prom.len();
        let mut fresh: Vec<u8> = Vec::new();
        let mut i: usize = 0;
        while i < 0x8000
            invariant
                n == prom@.len(),
                n == 0x4000 || n == 0x8000,
                i <= 0x8000,
                fresh@.len() == i,
                forall|j: int| 0 <= j < i ==> fresh@[j] == prom@[j % (n as int)],
            decreases 0x8000 - i,
        {
            let b = prom[i % n];
            fresh.push(b);
            i += 1;
        }
        self.prom = fresh;
    }

    /// Load the CHR image: keep a copy and hand the pattern tables to
    /// the picture unit.
    #[allow(non_snake_case)]
    pub fn set_CROM(&mut self, crom: &Vec<u8>)
        requires
            old(self).wf(),
        ensures
            final(self).wf(),
            final(self).crom@ == crom@,
            ({
                let k = if crom@.len() < 0x2000 {
                    crom@.len() as int
                } else {
                    0x2000
                };
                &&& (forall|i: int| 0 <= i < k ==> final(self).ppu.mem@[i] == crom@[i])
                &&& (forall|i: int|
                    k <= i < 0x4000 ==> final(self).ppu.mem@[i] == old(self).ppu.mem@[i])
            }),
            final(self).ppu == (PPU { mem: final(self).ppu.mem, ..old(self).ppu }),
            *final(self) == (MMU {
                crom: final(self).crom,
                ppu: final(self).ppu,
                ..*old(self)
            }),
    {
        let mut copy: Vec<u8> = Vec::new();
        let mut i: usize = 0;
        let n = crom.len();
        while i < n
            invariant
                n == crom@.len(),
                i <= n,
                copy@.len() == i,
                forall|j: int| 0 <= j < i ==> copy@[j] == crom@[j],
            decreases n - i,
        {
            let b = crom[i];
            copy.push(b);
            i += 1;
        }
        proof {
            assert(copy@ =~= crom@);
        }
        self.crom = copy;
        self.ppu.set_crom(crom);
    }

    /// The two work-RAM bytes that the test-ROM protocol reports through.
    pub fn peek_02(&self) -> (r: u8)
        requires
            self.wf(),
        ensures
            r == self.wram@[0x02],
    {
        self.wram[0x02]
    }

    pub fn peek_03(&self) -> (r: u8)
        requires
            self.wf(),
        ensures
            r == self.wram@[0x03],
    {
        self.wram[0x03]
    }
}

/// Writing a byte to a work-RAM address and then reading that address
/// returns the byte just written: the requires clause is exactly what a
/// bus write below 0x2000 guarantees.
pub proof fn lemma_wram_round_trip(m: MMU, m2: MMU, addr: u16, v: u8)
    requires
        addr < 0x0800,
        m.wram@.len() == 0x800,
        m2.wram@ == m.wram@.update(addr as int % 0x800, v),
    ensures
        mmu_read_val(m2, addr) == v,
{
}

/// CPU reads of the PRG window are pure functions of the loaded PRG-ROM:
/// two machines with the same PRG image read the same byte, and the read
/// changes nothing.
pub proof fn lemma_prg_read_pure(m1: MMU, m2: MMU, addr: u16)
    requires
        0x8000 <= addr,
        m1.prom@ == m2.prom@,
    ensures
        mmu_read_val(m1, addr) == mmu_read_val(m2, addr),
        mmu_read_stepped(m1, addr) == m1,
{
}

} // verus!
