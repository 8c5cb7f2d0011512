//! A ring buffer for recording incoming audio from the host.
//!
//! The buffer keeps the most recent `capacity` samples written into it,
//! in chronological order.  It is generic in the sample type: the host
//! records 32-bit float samples, which the application instantiates it
//! with.

use vstd::prelude::*;

verus! {

/// What remains of a write history in a ring of the given capacity: the
/// last `capacity` elements.
pub open spec fn retained<T>(history: Seq<T>, capacity: nat) -> Seq<T> {
    if history.len() <= capacity {
        history
    } else {
        history.skip(history.len() - capacity)
    }
}

/// A ring buffer holding the most recent `capacity` samples.
pub struct RingBuffer<T> {
    data: Vec<T>,
    write_pos: usize,
    capacity: usize,
}

impl<T: Copy> View for RingBuffer<T> {
    type V = Seq<T>;

    /// The stored samples, oldest first.
    closed spec fn view(&self) -> Seq<T> {
        if self.data@.len() < self.capacity {
            self.data@
        } else {
            self.data@.skip(self.write_pos as int) + self.data@.take(self.write_pos as int)
        }
    }
}

impl<T: Copy> RingBuffer<T> {
    pub closed spec fn spec_capacity(&self) -> usize {
        self.capacity
    }

    pub closed spec fn wf(&self) -> bool {
        &&& self.data@.len() <= self.capacity
        &&& if self.data@.len() < self.capacity {
            self.write_pos == self.data@.len()
        } else {
            self.write_pos < self.capacity || (self.capacity == 0 && self.write_pos == 0)
        }
    }

    /// Create a new ring buffer with the given capacity in samples.
    pub fn new(capacity: usize) -> (b: RingBuffer<T>)
        ensures
            b.wf(),
            b.spec_capacity() == capacity,
            b@ == Seq::<T>::empty(),
    {
        let b = RingBuffer { data: Vec::new(), write_pos: 0, capacity };
        proof {
            assert(b@ =~= Seq::<T>::empty());
        }
        b
    }

    /// Write samples into the ring buffer; once the buffer is full, each
    /// new sample displaces the oldest one.
    pub fn write(&mut self, samples: &[T])
        requires
            old(self).wf(),
        ensures
            final(self).wf(),
            final(self).spec_capacity() == old(self).spec_capacity(),
            final(self)@ == retained(old(self)@ + samples@, old(self).spec_capacity() as nat),
    {
        let ghost v0 = self@;
        proof {
            assert(v0 + samples@.take(0) =~= v0);
            assert(retained(v0, self.capacity as nat) == v0);
        }
        let mut i: usize = 0;
        while i < samples.len()
            invariant
                self.wf(),
                self.capacity == old(self).spec_capacity(),
                i <= samples@.len(),
                self@ == retained(v0 + samples@.take(i as int), self.capacity as nat),
            decreases samples@.len() - i,
        {
            let ghost pre = self@;
            let ghost hist = v0 + samples@.take(i as int);
            let x = samples[i];
            if self.capacity == 0 {
                proof {
                    lemma_retained_step(hist, x, 0, pre, pre);
                }
            } else if self.data.len() < self.capacity {
                self.data.push(x);
                if self.data.len() == self.capacity {
                    self.write_pos = 0;
                } else {
                    self.write_pos = self.data.len();
                }
                proof {
                    assert(self@ =~= pre.push(x));
                    lemma_retained_step(hist, x, self.capacity as nat, pre, self@);
                }
            } else {
                let ghost d = self.data@;
                let wp = self.write_pos;
                self.data[wp] = x;
                if wp + 1 == self.capacity {
                    self.write_pos = 0;
                } else {
                    self.write_pos = wp + 1;
                }
                proof {
                    lemma_rotate_update(d, wp as int, x);
                    assert(self@ == pre.skip(1).push(x));
                    lemma_retained_step(hist, x, self.capacity as nat, pre, self@);
                }
            }
            proof {
                assert(hist.push(x) =~= v0 + samples@.take(i + 1));
            }
            i = i + 1;
        }
        proof {
            assert(samples@.take(samples@.len() as int) =~= samples@);
        }
    }

    /// Read all recorded samples in chronological order.
    pub fn read(&self) -> (r: Vec<T>)
        requires
            self.wf(),
        ensures
            r@ == self@,
    {
        let mut r: Vec<T> = Vec::new();
        let n = self.data.len();
        proof {
            assert(self@.len() == n);
        }
        let mut i: usize = 0;
        while i < n
            invariant
                i <= n,
                n == self.data@.len(),
                r@.len() == i,
                forall|j: int| 0 <= j < i ==> #[trigger] r@[j] == self@[j],
            decreases n - i,
        {
            if n < self.capacity {
                r.push(self.data[i]);
            } else {
                let ahead = self.capacity - self.write_pos;
                let idx = if i < ahead {
                    self.write_pos + i
                } else {
                    i - ahead
                };
                proof {
                    assert(self.data@[idx as int] == self@[i as int]);
                }
                r.push(self.data[idx]);
            }
            i = i + 1;
        }
        proof {
            assert(r@ =~= self@);
        }
        r
    }

    /// Clear the buffer.
    pub fn clear(&mut self)
        ensures
            final(self).wf(),
            final(self).spec_capacity() == old(self).spec_capacity(),
            final(self)@ == Seq::<T>::empty(),
    {
        self.data.clear();
        self.write_pos = 0;
        proof {
            assert(self@ =~= Seq::<T>::empty());
        }
    }

    /// Number of samples currently stored.
    pub fn len(&self) -> (r: usize)
        requires
            self.wf(),
        ensures
            r == self@.len(),
    {
        proof {
            assert(self@.len() == self.data@.len());
        }
        self.data.len()
    }

    /// Whether the buffer is empty.
    pub fn is_empty(&self) -> (r: bool)
        requires
            self.wf(),
        ensures
            r == (self@.len() == 0),
    {
        proof {
            assert(self@.len() == self.data@.len());
        }
        self.data.is_empty()
    }

    /// Total capacity in samples.
    pub fn capacity(&self) -> (r: usize)
        ensures
            r == self.spec_capacity(),
    {
        self.capacity
    }
}

/// One more sample through a full or filling ring: the retained window
/// slides.
proof fn lemma_retained_step<T>(hist: Seq<T>, x: T, capacity: nat, pre: Seq<T>, post: Seq<T>)
    requires
        pre == retained(hist, capacity),
        post == (if pre.len() < capacity {
            pre.push(x)
        } else if capacity == 0 {
            pre
        } else {
            pre.skip(1).push(x)
        }),
    ensures
        post == retained(hist.push(x), capacity),
{
    if pre.len() < capacity {
        assert(retained(hist.push(x), capacity) =~= pre.push(x));
    } else if capacity == 0 {
        assert(retained(hist.push(x), capacity) =~= pre);
    } else {
        assert(retained(hist.push(x), capacity) =~= pre.skip(1).push(x));
    }
}

/// Overwriting the oldest slot of a full ring and advancing the write
/// position drops the oldest sample and appends the new one.
proof fn lemma_rotate_update<T>(d: Seq<T>, wp: int, x: T)
    requires
        d.len() >= 1,
        0 <= wp < d.len(),
    ensures
        ({
            let d2 = d.update(wp, x);
            let wp2 = if wp + 1 == d.len() {
                0
            } else {
                wp + 1
            };
            d2.skip(wp2) + d2.take(wp2) == (d.skip(wp) + d.take(wp)).skip(1).push(x)
        }),
{
    let d2 = d.update(wp, x);
    let wp2 = if wp + 1 == d.len() {
        0
    } else {
        wp + 1
    };
    assert(d2.skip(wp2) + d2.take(wp2) =~= (d.skip(wp) + d.take(wp)).skip(1).push(x));
}

} // verus!
