//! The two controller ports.
//!
//! Writing 1 then 0 to the strobe port latches the pending button states
//! into both shift registers; each read of a port then returns the next
//! button bit in the order A, B, Select, Start, Up, Down, Left, Right,
//! repeating after eight reads.

use vstd::prelude::*;

verus! {

/// One value per controller port.
#[derive(Clone, Copy)]
pub struct Ports {
    pub one: u8,
    pub two: u8,
}

impl Ports {
    /// The entry for port `port` (0 or 1).
    pub open spec fn sel(&self, port: int) -> u8 {
        if port == 0 {
            self.one
        } else {
            self.two
        }
    }
}

/// `a` with the entry for port `n` replaced by `v`.
pub open spec fn ports_set(a: Ports, n: u32, v: u8) -> Ports {
    if n == 0 {
        Ports { one: v, ..a }
    } else {
        Ports { two: v, ..a }
    }
}

fn set_port(a: &mut Ports, n: u32, v: u8)
    requires
        n < 2,
    ensures
        *final(a) == ports_set(*old(a), n, v),
{
    if n == 0 {
        a.one = v;
    } else {
        a.two = v;
    }
}

pub struct Pad {
    /// Latched button states, one entry per controller port.
    pub a: Ports,
    pub b: Ports,
    pub select: Ports,
    pub start: Ports,
    pub up: Ports,
    pub down: Ports,
    pub left: Ports,
    pub right: Ports,
    /// Last bit written to the strobe port.
    pub last_out: u8,
    /// Position of the next bit handed out on port 1, then port 2.
    pub in_count_1: u8,
    pub in_count_2: u8,
    /// Pending button states, set by the caller and latched on strobe.
    pub a_pending: Ports,
    pub b_pending: Ports,
    pub select_pending: Ports,
    pub start_pending: Ports,
    pub up_pending: Ports,
    pub down_pending: Ports,
    pub left_pending: Ports,
    pub right_pending: Ports,
}

impl Pad {
    pub open spec fn wf(&self) -> bool {
        &&& self.in_count_1 < 8
        &&& self.in_count_2 < 8
    }

    /// The latched button bit of port `port` at position `k` of the
    /// documented read order.
    pub open spec fn button(&self, port: int, k: int) -> u8 {
        if k == 0 {
            self.a.sel(port)
        } else if k == 1 {
            self.b.sel(port)
        } else if k == 2 {
            self.select.sel(port)
        } else if k == 3 {
            self.start.sel(port)
        } else if k == 4 {
            self.up.sel(port)
        } else if k == 5 {
            self.down.sel(port)
        } else if k == 6 {
            self.left.sel(port)
        } else {
            self.right.sel(port)
        }
    }

    /// The pad after the pending states have been latched.
    pub open spec fn strobed(&self) -> Pad {
        Pad {
            a: self.a_pending,
            b: self.b_pending,
            select: self.select_pending,
            start: self.start_pending,
            up: self.up_pending,
            down: self.down_pending,
            left: self.left_pending,
            right: self.right_pending,
            ..*self
        }
    }

    pub fn new() -> (p: Pad)
        ensures
            p.wf(),
            p.in_count_1 == 0,
            p.in_count_2 == 0,
            p.last_out == 0,
    {
        Pad {
            a: Ports { one: 0, two: 0 },
            b: Ports { one: 0, two: 0 },
            select: Ports { one: 0, two: 0 },
            start: Ports { one: 0, two: 0 },
            up: Ports { one: 0, two: 0 },
            down: Ports { one: 0, two: 0 },
            left: Ports { one: 0, two: 0 },
            right: Ports { one: 0, two: 0 },
            last_out: 0,
            in_count_1: 0,
            in_count_2: 0,
            a_pending: Ports { one: 0, two: 0 },
            b_pending: Ports { one: 0, two: 0 },
            select_pending: Ports { one: 0, two: 0 },
            start_pending: Ports { one: 0, two: 0 },
            up_pending: Ports { one: 0, two: 0 },
            down_pending: Ports { one: 0, two: 0 },
            left_pending: Ports { one: 0, two: 0 },
            right_pending: Ports { one: 0, two: 0 },
        }
    }

    /// Strobe port write: a falling edge of bit 0 latches the pending
    /// buttons and rewinds both read positions.
    pub fn out(&mut self, n: u8)
        ensures
            final(self).last_out == n % 2,
            old(self).last_out == 1 && n % 2 == 0 ==> *final(self) == (Pad {
                last_out: n % 2,
                in_count_1: 0,
                in_count_2: 0,
                ..old(self).strobed()
            }),
            !(old(self).last_out == 1 && n % 2 == 0) ==> *final(self) == (Pad {
                last_out: n % 2,
                ..*old(self)
            }),
    {
        if self.last_out == 0x01 && n % 2 == 0x00 {
            self.strobe();
            self.reset_count();
        }
        self.last_out = n % 2;
    }

    /// One read of port 1: the next button bit, advancing the position.
    pub fn in1(&mut self) -> (r: u8)
        requires
            old(self).wf(),
        ensures
            final(self).wf(),
            r == old(self).button(0, old(self).in_count_1 as int),
            *final(self) == (Pad {
                in_count_1: ((old(self).in_count_1 + 1) % 8) as u8,
                ..*old(self)
            }),
    {
        let ret: u8 = match self.in_count_1 % 8 {
            0 => self.a.one,
            1 => self.b.one,
            2 => self.select.one,
            3 => self.start.one,
            4 => self.up.one,
            5 => self.down.one,
            6 => self.left.one,
            _ => self.right.one,
        };
        self.in_count_1 = (self.in_count_1 + 1) % 8;
        ret
    }

    /// One read of port 2.
    pub fn in2(&mut self) -> (r: u8)
        requires
            old(self).wf(),
        ensures
            final(self).wf(),
            r == old(self).button(1, old(self).in_count_2 as int),
            *final(self) == (Pad {
                in_count_2: ((old(self).in_count_2 + 1) % 8) as u8,
                ..*old(self)
            }),
    {
        let ret: u8 = match self.in_count_2 % 8 {
            0 => self.a.two,
            1 => self.b.two,
            2 => self.select.two,
            3 => self.start.two,
            4 => self.up.two,
            5 => self.down.two,
            6 => self.left.two,
            _ => self.right.two,
        };
        self.in_count_2 = (self.in_count_2 + 1) % 8;
        ret
    }

    pub fn set_a(&mut self, n: u32, v: u8)
        requires
            n < 2,
        ensures
            *final(self) == (Pad { a_pending: ports_set(old(self).a_pending, n, v), ..*old(self) }),
    {
        set_port(&mut self.a_pending, n, v);
    }

    pub fn set_b(&mut self, n: u32, v: u8)
        requires
            n < 2,
        ensures
            *final(self) == (Pad { b_pending: ports_set(old(self).b_pending, n, v), ..*old(self) }),
    {
        set_port(&mut self.b_pending, n, v);
    }

    pub fn set_start(&mut self, n: u32, v: u8)
        requires
            n < 2,
        ensures
            *final(self) == (Pad {
                start_pending: ports_set(old(self).start_pending, n, v),
                ..*old(self)
            }),
    {
        set_port(&mut self.start_pending, n, v);
    }

    pub fn set_select(&mut self, n: u32, v: u8)
        requires
            n < 2,
        ensures
            *final(self) == (Pad {
                select_pending: ports_set(old(self).select_pending, n, v),
                ..*old(self)
            }),
    {
        set_port(&mut self.select_pending, n, v);
    }

    pub fn set_up(&mut self, n: u32, v: u8)
        requires
            n < 2,
        ensures
            *final(self) == (Pad { up_pending: ports_set(old(self).up_pending, n, v), ..*old(self) }),
    {
        set_port(&mut self.up_pending, n, v);
    }

    pub fn set_down(&mut self, n: u32, v: u8)
        requires
            n < 2,
        ensures
            *final(self) == (Pad {
                down_pending: ports_set(old(self).down_pending, n, v),
                ..*old(self)
            }),
    {
        set_port(&mut self.down_pending, n, v);
    }

    pub fn set_left(&mut self, n: u32, v: u8)
        requires
            n < 2,
        ensures
            *final(self) == (Pad {
                left_pending: ports_set(old(self).left_pending, n, v),
                ..*old(self)
            }),
    {
        set_port(&mut self.left_pending, n, v);
    }

    pub fn set_right(&mut self, n: u32, v: u8)
        requires
            n < 2,
        ensures
            *final(self) == (Pad {
                right_pending: ports_set(old(self).right_pending, n, v),
                ..*old(self)
            }),
    {
        set_port(&mut self.right_pending, n, v);
    }

    fn strobe(&mut self)
        ensures
            *final(self) == old(self).strobed(),
    {
        self.a = self.a_pending;
        self.b = self.b_pending;
        self.select = self.select_pending;
        self.start = self.start_pending;
        self.up = self.up_pending;
        self.down = self.down_pending;
        self.left = self.left_pending;
        self.right = self.right_pending;
    }

    fn reset_count(&mut self)
        ensures
            *final(self) == (Pad { in_count_1: 0, in_count_2: 0, ..*old(self) }),
    {
        self.in_count_1 = 0;
        self.in_count_2 = 0;
    }

    /// The pad after `k` successive reads of port 1.
    pub open spec fn in1_iter(&self, k: nat) -> Pad
        decreases k,
    {
        if k == 0 {
            *self
        } else {
            let p = self.in1_iter((k - 1) as nat);
            Pad { in_count_1: ((p.in_count_1 + 1) % 8) as u8, ..p }
        }
    }

    /// The value returned by the `k`-th read of port 1, counting from 0,
    /// when reads follow one another with nothing in between.
    pub open spec fn in1_nth(&self, k: nat) -> u8 {
        self.in1_iter(k).button(0, self.in1_iter(k).in_count_1 as int)
    }
}

/// After a proper strobe the port-1 reads cycle through the eight buttons
/// in the documented order and then repeat: the `k`-th read returns the
/// button at position `k % 8` of the latched state.
pub proof fn lemma_pad_read_cycle(p: Pad, k: nat)
    requires
        p.wf(),
        p.in_count_1 == 0,
    ensures
        p.in1_nth(k) == p.button(0, (k % 8) as int),
{
    lemma_in1_iter_count(p, k);
}

proof fn lemma_in1_iter_count(p: Pad, k: nat)
    requires
        p.wf(),
    ensures
        p.in1_iter(k).in_count_1 == (p.in_count_1 + k) % 8,
        p.in1_iter(k) == (Pad { in_count_1: ((p.in_count_1 + k) % 8) as u8, ..p }),
    decreases k,
{
    if k > 0 {
        lemma_in1_iter_count(p, (k - 1) as nat);
    }
}

} // verus!
