//! The output surfaces: ring-buffer bounds, the stencil discipline of
//! the pixel painters, scanline copying, the event mailbox, and the pad.

use nes_core::events::{Event, EventQueue, EventType};
use nes_core::io::IO;
use nes_core::pad::Pad;
use nes_core::ringbuffer::RingBuffer;

#[test]
fn ring_buffer_round_trip_in_order() {
    let mut r: RingBuffer<u16> = RingBuffer::new(4, 0);
    assert!(r.write(10));
    assert!(r.write(20));
    assert_eq!(r.read(), Some(10));
    assert!(r.write(30));
    assert_eq!(r.read(), Some(20));
    assert_eq!(r.read(), Some(30));
    assert_eq!(r.read(), None);
}

#[test]
fn ring_buffer_signals_overflow() {
    let mut r: RingBuffer<u8> = RingBuffer::new(2, 0);
    assert!(r.write(1));
    assert!(r.write(2));
    assert!(!r.write(3), "a full ring refuses the write");
    assert_eq!(r.read(), Some(1));
    assert!(r.write(3), "room again after a read");
}

#[test]
fn ring_buffer_wraps_past_capacity_many_times() {
    let mut r: RingBuffer<u16> = RingBuffer::new(3, 0);
    for round in 0..10u16 {
        assert!(r.write(round));
        assert_eq!(r.read(), Some(round));
    }
}

#[test]
fn event_queue_is_first_in_first_out() {
    let mut q = EventQueue::new();
    q.push(Event::new(EventType::Nmi));
    q.push(Event::new(EventType::Irq));
    q.push(Event::new(EventType::Dma(7)));
    assert_eq!(q.pop().unwrap().event_type, EventType::Nmi);
    assert_eq!(q.pop().unwrap().event_type, EventType::Irq);
    assert_eq!(q.pop().unwrap().event_type, EventType::Dma(7));
    assert!(q.pop().is_none());
}

#[test]
fn stencil_discipline_layers_pixels() {
    let mut io = IO::new();
    // A behind-background sprite lands on the empty pixel.
    assert!(io.draw_back_sprite(10, 20, 1, 2, 3));
    assert_eq!(io.get_stencil(10, 20), 1);
    // The opaque background covers it.
    assert!(io.draw_pixel(10, 20, 4, 5, 6));
    assert_eq!(io.get_stencil(10, 20), 2);
    // Another behind-background sprite no longer lands.
    assert!(!io.draw_back_sprite(10, 20, 7, 8, 9));
    // A front sprite covers everything below.
    assert!(io.draw_front_sprite(10, 20, 7, 8, 9));
    assert_eq!(io.get_stencil(10, 20), 3);
    // The background never covers a front sprite.
    assert!(!io.draw_pixel(10, 20, 1, 1, 1));
    assert_eq!(io.vram[(20 * 256 + 10) * 3], 7);
}

#[test]
fn draw_line_copies_one_row() {
    let mut io = IO::new();
    let mut line = vec![0u8; 1024];
    for x in 0..256 {
        line[x * 4] = x as u8;
        line[x * 4 + 1] = 0x11;
        line[x * 4 + 2] = 0x22;
        line[x * 4 + 3] = (x % 4) as u8;
    }
    io.draw_line(7, &line);
    for x in 0..256usize {
        let base = (7 * 256 + x) * 3;
        assert_eq!(io.vram[base], x as u8);
        assert_eq!(io.vram[base + 1], 0x11);
        assert_eq!(io.vram[base + 2], 0x22);
        assert_eq!(io.stencil[7 * 256 + x], (x % 4) as u8);
    }
    // The neighboring rows stay black.
    assert_eq!(io.vram[(6 * 256) * 3], 0);
    assert_eq!(io.vram[(8 * 256) * 3], 0);
}

#[test]
fn clear_repaints_everything() {
    let mut io = IO::new();
    io.draw_front_sprite(0, 0, 9, 9, 9);
    io.clear(1, 2, 3);
    assert_eq!(io.vram[0], 1);
    assert_eq!(io.vram[1], 2);
    assert_eq!(io.vram[2], 3);
    assert_eq!(io.stencil[0], 0);
    let last = 256 * 240 - 1;
    assert_eq!(io.vram[last * 3], 1);
    assert_eq!(io.stencil[last], 0);
}

#[test]
fn pad_latches_on_falling_strobe_edge() {
    let mut p = Pad::new();
    p.set_a(0, 1);
    assert_eq!(p.in1(), 0, "nothing latched before the strobe");
    p.out(1);
    p.out(0);
    assert_eq!(p.in1(), 1, "A latched by the falling edge");
    // Changing the pending state does not show until the next strobe.
    p.set_a(0, 0);
    p.out(1);
    assert_eq!(p.in2(), 0, "port 2 A");
    p.out(0);
    for k in 0..8 {
        assert_eq!(p.in1(), 0, "bit {}", k);
    }
}
