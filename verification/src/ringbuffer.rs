//! A bounded single-producer/single-consumer ring.
//!
//! `write` appends when there is room and reports overflow by returning
//! `false`; `read` pops the oldest element. The ring never holds more than
//! its fixed capacity.

use vstd::prelude::*;

verus! {

pub struct RingBuffer<T: Copy> {
    pub wp: usize,
    pub rp: usize,
    pub remain: usize,
    pub cap: usize,
    pub data: Vec<T>,
}

impl<T: Copy> RingBuffer<T> {
    pub open spec fn wf(&self) -> bool {
        &&& self.data@.len() == self.cap
        &&& self.remain <= self.cap
        &&& (self.cap > 0 ==> self.wp < self.cap && self.rp < self.cap)
        &&& (self.cap == 0 ==> self.wp == 0 && self.rp == 0)
        &&& self.wp == (if self.rp + self.remain < self.cap {
            self.rp + self.remain
        } else {
            self.rp + self.remain - self.cap
        })
    }

    /// The buffered elements, oldest first.
    pub open spec fn view(&self) -> Seq<T> {
        Seq::new(
            self.remain as nat,
            |i: int|
                self.data@[if self.rp + i < self.cap {
                    self.rp + i
                } else {
                    self.rp + i - self.cap
                }],
        )
    }

    pub fn new(cap: usize, v: T) -> (r: RingBuffer<T>)
        ensures
            r.wf(),
            r.cap == cap,
            r@ == Seq::<T>::empty(),
    {
        let r = RingBuffer { wp: 0, rp: 0, remain: 0, cap, data: vec![v; cap] };
        proof {
            assert(r@ =~= Seq::<T>::empty());
        }
        r
    }

    /// Append `v` if the ring is not full; report whether it was taken.
    pub fn write(&mut self, v: T) -> (ok: bool)
        requires
            old(self).wf(),
        ensures
            final(self).wf(),
            final(self).cap == old(self).cap,
            ok == (old(self)@.len() < old(self).cap),
            ok ==> final(self)@ == old(self)@.push(v),
            !ok ==> *final(self) == *old(self),
    {
        if self.remain < self.cap {
            self.data[self.wp] = v;
            self.wp += 1;
            if self.wp >= self.cap {
                self.wp = 0;
            }
            self.remain += 1;
            proof {
                assert(self@ =~= old(self)@.push(v));
            }
            true
        } else {
            false
        }
    }

    /// Pop the oldest element, or `None` when the ring is empty.
    pub fn read(&mut self) -> (r: Option<T>)
        requires
            old(self).wf(),
        ensures
            final(self).wf(),
            final(self).cap == old(self).cap,
            old(self)@.len() == 0 ==> r is None && *final(self) == *old(self),
            old(self)@.len() > 0 ==> r == Some(old(self)@[0]) && final(self)@ == old(
                self,
            )@.drop_first(),
    {
        if self.remain > 0 {
            let t = self.data[self.rp];
            self.rp += 1;
            if self.rp >= self.cap {
                self.rp = 0;
            }
            self.remain -= 1;
            proof {
                assert(self@ =~= old(self)@.drop_first());
            }
            Some(t)
        } else {
            None
        }
    }
}

} // verus!
