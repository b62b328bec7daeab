//! Picture-unit scenarios: the timing grid, VBlank and pre-render status
//! edges, palette mirroring, the buffered data port, and the sprite-0 hit.

use nes_core::events::EventQueue;
use nes_core::io::IO;
use nes_core::ppu::PPU;

fn fresh() -> (PPU, IO, EventQueue) {
    (PPU::new(), IO::new(), EventQueue::new())
}

/// Run the unit to the given grid position.
fn run_to(ppu: &mut PPU, io: &mut IO, ev: &mut EventQueue, line: u32, dot: u32) {
    while !(ppu.line == line && ppu.line_clock == dot) {
        ppu.clock(io, ev);
    }
}

#[test]
fn grid_stays_in_bounds() {
    let (mut ppu, mut io, mut ev) = fresh();
    for _ in 0..(341 * 262 + 500) {
        ppu.clock(&mut io, &mut ev);
        assert!(ppu.line_clock < 341);
        assert!(ppu.line < 262);
    }
    assert_eq!(ppu.frames, 1);
}

#[test]
fn vblank_sets_and_prerender_clears() {
    let (mut ppu, mut io, mut ev) = fresh();
    run_to(&mut ppu, &mut io, &mut ev, 241, 1);
    assert_eq!(ppu.sr & 0x80, 0);
    ppu.clock(&mut io, &mut ev);
    assert_eq!(ppu.sr & 0x80, 0x80, "VBlank raised at line 241 dot 1");
    run_to(&mut ppu, &mut io, &mut ev, 261, 1);
    ppu.clock(&mut io, &mut ev);
    assert_eq!(ppu.sr & 0xC0, 0, "pre-render clears VBlank and sprite-0 hit");
}

#[test]
fn vblank_queues_nmi_when_enabled() {
    let (mut ppu, mut io, mut ev) = fresh();
    ppu.set_cr1(0x80);
    run_to(&mut ppu, &mut io, &mut ev, 241, 1);
    ppu.clock(&mut io, &mut ev);
    let e = ev.pop().expect("an event was queued");
    assert!(matches!(e.event_type, nes_core::events::EventType::Nmi));
    assert!(ev.pop().is_none());
}

#[test]
fn status_read_clears_vblank_and_latch() {
    let (mut ppu, mut io, mut ev) = fresh();
    run_to(&mut ppu, &mut io, &mut ev, 241, 1);
    ppu.clock(&mut io, &mut ev);
    ppu.set_write_addr(0x21); // leave the latch half-written
    let sr = ppu.get_sr();
    assert_eq!(sr & 0x80, 0x80);
    assert_eq!(ppu.sr & 0x80, 0, "VBlank cleared by the read");
    assert_eq!(ppu.write_mode, 0, "latch toggle reset");
}

#[test]
fn palette_mirror_both_ways() {
    let (mut ppu, _io, _ev) = fresh();
    // Write through 0x3F10, observe at 0x3F00.
    ppu.set_write_addr(0x3F);
    ppu.set_write_addr(0x10);
    ppu.write(0x2A);
    ppu.set_write_addr(0x3F);
    ppu.set_write_addr(0x00);
    assert_eq!(ppu.read(), 0x2A);
    // And the other way round, on another mirrored pair.
    ppu.set_write_addr(0x3F);
    ppu.set_write_addr(0x04);
    ppu.write(0x11);
    ppu.set_write_addr(0x3F);
    ppu.set_write_addr(0x14);
    assert_eq!(ppu.read(), 0x11);
}

#[test]
fn palette_writes_mask_to_six_bits() {
    let (mut ppu, _io, _ev) = fresh();
    ppu.set_write_addr(0x3F);
    ppu.set_write_addr(0x01);
    ppu.write(0xFF);
    ppu.set_write_addr(0x3F);
    ppu.set_write_addr(0x01);
    assert_eq!(ppu.read(), 0x3F);
}

#[test]
fn buffered_read_law() {
    let (mut ppu, _io, _ev) = fresh();
    // Put a byte at 0x2211 and set PPUADDR there.
    ppu.set_write_addr(0x22);
    ppu.set_write_addr(0x11);
    ppu.write(0x5D);
    ppu.set_write_addr(0x22);
    ppu.set_write_addr(0x11);
    ppu.read_buffer = 0x77;
    let first = ppu.read();
    let second = ppu.read();
    assert_eq!(first, 0x77, "first read returns the stale prefetch byte");
    assert_eq!(second, 0x5D, "second read returns the byte at the address");
}

#[test]
fn address_increment_follows_ctrl_bit() {
    let (mut ppu, _io, _ev) = fresh();
    ppu.set_write_addr(0x20);
    ppu.set_write_addr(0x00);
    ppu.write(0x01);
    assert_eq!(ppu.write_addr, 0x2001);
    ppu.set_cr1(0x04);
    ppu.write(0x02);
    assert_eq!(ppu.write_addr, 0x2021, "increment of 32 with bit 2 set");
}

#[test]
fn oam_write_advances_address() {
    let (mut ppu, _io, _ev) = fresh();
    ppu.set_sprite_write_addr(0xFF);
    ppu.sprite_write(0xAB);
    assert_eq!(ppu.sprite_mem[0xFF], 0xAB);
    assert_eq!(ppu.sprite_write_addr, 0x00, "OAM address wraps");
}

#[test]
fn sprite_zero_hit_on_overlap() {
    let (mut ppu, mut io, mut ev) = fresh();
    // Tile 0 of both pattern tables: all pixels on in the low plane.
    for row in 0..8 {
        ppu.mem[row] = 0xFF;
    }
    // Sprite 0 covers lines 10..18 at x 8..16; front, tile 0.
    ppu.sprite_mem[0] = 9;
    ppu.sprite_mem[1] = 0;
    ppu.sprite_mem[2] = 0;
    ppu.sprite_mem[3] = 8;
    // Background and sprites enabled.
    ppu.set_cr2(0x18);
    ppu.line = 10;
    ppu.line_clock = 0;
    assert_eq!(ppu.sr & 0x40, 0);
    for _ in 0..16 {
        ppu.clock(&mut io, &mut ev);
    }
    assert_eq!(ppu.sr & 0x40, 0x40, "sprite-0 hit raised within the line");
}

#[test]
fn no_sprite_zero_hit_on_transparent_background() {
    let (mut ppu, mut io, mut ev) = fresh();
    // Pattern table stays zero: the background pixel is transparent.
    ppu.sprite_mem[0] = 9;
    ppu.sprite_mem[1] = 0;
    ppu.sprite_mem[2] = 0;
    ppu.sprite_mem[3] = 8;
    // Give the sprite an opaque pattern in the sprite table only.
    ppu.set_cr1(0x08); // sprites fetch from 0x1000
    for row in 0..8 {
        ppu.mem[0x1000 + row] = 0xFF;
    }
    ppu.set_cr2(0x18);
    ppu.line = 10;
    ppu.line_clock = 0;
    for _ in 0..341 {
        ppu.clock(&mut io, &mut ev);
    }
    assert_eq!(ppu.sr & 0x40, 0, "no hit without an opaque background pixel");
}

#[test]
fn completed_line_lands_in_framebuffer() {
    let (mut ppu, mut io, mut ev) = fresh();
    // Universal background color entry: palette byte 0x3F00.
    ppu.set_write_addr(0x3F);
    ppu.set_write_addr(0x00);
    ppu.write(0x20); // a light gray in the master palette
    ppu.line = 0;
    ppu.line_clock = 0;
    for _ in 0..341 {
        ppu.clock(&mut io, &mut ev);
    }
    // Row 0 now holds the universal background color 0xEF,0xEF,0xEF.
    assert_eq!(io.vram[0], 0xEF);
    assert_eq!(io.vram[1], 0xEF);
    assert_eq!(io.vram[2], 0xEF);
    assert_eq!(io.stencil[0], 0);
}
