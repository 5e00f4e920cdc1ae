//! A fixed-capacity byte queue between the audio producer and the real-time
//! consumer.  Writes take what fits and never overwrite unread bytes; reads
//! never wait and pad with silence when the queue runs short.
use vstd::prelude::*;
use crate::min;

verus! {

/// Capacity of the queue that feeds the audio sink.
pub const AUDIO_RING_CAPACITY: usize = 65536;

/// Position in storage of the `i`-th unread byte.
pub open spec fn slot(head: int, i: int, cap: int) -> int {
    if head + i < cap {
        head + i
    } else {
        head + i - cap
    }
}

/// `n` bytes of silence.
pub open spec fn silence(n: nat) -> Seq<u8> {
    Seq::new(n, |i: int| 0u8)
}

pub struct RingBuffer {
    storage: Vec<u8>,
    head: usize,
    len: usize,
}

impl View for RingBuffer {
    type V = Seq<u8>;

    /// The unread bytes, oldest first.
    closed spec fn view(&self) -> Seq<u8> {
        Seq::new(
            self.len as nat,
            |i: int| self.storage@[slot(self.head as int, i, self.storage@.len() as int)],
        )
    }
}

impl RingBuffer {
    /// How many bytes the queue can hold.
    pub closed spec fn spec_capacity(&self) -> nat {
        self.storage@.len()
    }

    pub closed spec fn wf(&self) -> bool {
        &&& self.len <= self.storage@.len()
        &&& (self.head < self.storage@.len() || (self.head == 0 && self.storage@.len() == 0))
    }

    /// An empty queue holding at most `capacity` bytes.
    pub fn new(capacity: usize) -> (r: RingBuffer)
        ensures
            r.wf(),
            r@ == Seq::<u8>::empty(),
            r.spec_capacity() == capacity,
    {
        let mut storage: Vec<u8> = Vec::new();
        let mut i: usize = 0;
        while i < capacity
            invariant
                i <= capacity,
                storage@.len() == i,
            decreases capacity - i,
        {
            storage.push(0u8);
            i = i + 1;
        }
        let r = RingBuffer { storage, head: 0, len: 0 };
        assert(r@ =~= Seq::<u8>::empty());
        r
    }

    pub fn capacity(&self) -> (r: usize)
        requires
            self.wf(),
        ensures
            r == self.spec_capacity(),
    {
        self.storage.len()
    }

    /// Number of unread bytes.
    pub fn len(&self) -> (r: usize)
        requires
            self.wf(),
        ensures
            r == self@.len(),
    {
        self.len
    }

    pub fn is_empty(&self) -> (r: bool)
        requires
            self.wf(),
        ensures
            r == (self@.len() == 0),
    {
        self.len == 0
    }

    /// Room left for writing.
    pub fn free_space(&self) -> (r: usize)
        requires
            self.wf(),
        ensures
            self@.len() <= self.spec_capacity(),
            r == self.spec_capacity() - self@.len(),
    {
        self.storage.len() - self.len
    }

    fn push(&mut self, b: u8)
        requires
            old(self).wf(),
            old(self)@.len() < old(self).spec_capacity(),
        ensures
            final(self).wf(),
            final(self)@ == old(self)@.push(b),
            final(self).spec_capacity() == old(self).spec_capacity(),
    {
        let cap = self.storage.len();
        let pos = if self.head < cap - self.len {
            self.head + self.len
        } else {
            self.head - (cap - self.len)
        };
        let ghost before = self@;
        self.storage.set(pos, b);
        self.len = self.len + 1;
        assert(self@ =~= before.push(b));
    }

    fn pop(&mut self) -> (r: u8)
        requires
            old(self).wf(),
            old(self)@.len() > 0,
        ensures
            final(self).wf(),
            r == old(self)@[0],
            final(self)@ == old(self)@.drop_first(),
            final(self).spec_capacity() == old(self).spec_capacity(),
    {
        let ghost before = self@;
        let b = self.storage[self.head];
        self.head = if self.head == self.storage.len() - 1 {
            0
        } else {
            self.head + 1
        };
        self.len = self.len - 1;
        assert(self@ =~= before.drop_first());
        b
    }

    /// Appends as much of `data` as fits and returns how many bytes that was;
    /// bytes already queued are never overwritten.
    pub fn write(&mut self, data: &[u8]) -> (n: usize)
        requires
            old(self).wf(),
        ensures
            final(self).wf(),
            n == min(data@.len() as int, old(self).spec_capacity() - old(self)@.len()),
            final(self)@ == old(self)@ + data@.take(n as int),
            final(self).spec_capacity() == old(self).spec_capacity(),
    {
        let room = self.storage.len() - self.len;
        let n = if data.len() <= room {
            data.len()
        } else {
            room
        };
        let ghost start = self@;
        let ghost cap0 = self.spec_capacity();
        let mut i: usize = 0;
        while i < n
            invariant
                self.wf(),
                self.spec_capacity() == cap0,
                i <= n,
                n <= data@.len(),
                start.len() + n <= self.spec_capacity(),
                self@ == start + data@.take(i as int),
            decreases n - i,
        {
            let ghost prev = self@;
            self.push(data[i]);
            assert(start + data@.take(i + 1) =~= prev.push(data@[i as int]));
            i = i + 1;
        }
        n
    }

    /// Takes exactly `n` bytes: the unread bytes first, oldest first, then
    /// silence for whatever the queue could not supply.  Never waits.
    pub fn read(&mut self, n: usize) -> (out: Vec<u8>)
        requires
            old(self).wf(),
        ensures
            final(self).wf(),
            out@ == old(self)@.take(min(n as int, old(self)@.len() as int)) + silence(
                (n - min(n as int, old(self)@.len() as int)) as nat,
            ),
            final(self)@ == old(self)@.skip(min(n as int, old(self)@.len() as int)),
            final(self).spec_capacity() == old(self).spec_capacity(),
    {
        let ghost start = self@;
        let ghost cap0 = self.spec_capacity();
        let k = if n <= self.len {
            n
        } else {
            self.len
        };
        let mut out: Vec<u8> = Vec::new();
        let mut i: usize = 0;
        while i < k
            invariant
                self.wf(),
                i <= k,
                k <= start.len(),
                out@ == start.take(i as int),
                self@ == start.skip(i as int),
                self.spec_capacity() == cap0,
            decreases k - i,
        {
            let b = self.pop();
            out.push(b);
            assert(out@ =~= start.take(i + 1));
            assert(self@ =~= start.skip(i + 1));
            i = i + 1;
        }
        let mut j: usize = k;
        while j < n
            invariant
                k <= j <= n,
                k == min(n as int, start.len() as int),
                self.wf(),
                self@ == start.skip(k as int),
                self.spec_capacity() == cap0,
                out@ == start.take(k as int) + silence((j - k) as nat),
            decreases n - j,
        {
            out.push(0u8);
            assert(out@ =~= start.take(k as int) + silence((j + 1 - k) as nat));
            j = j + 1;
        }
        out
    }

    /// Discards every unread byte.
    pub fn flush(&mut self)
        requires
            old(self).wf(),
        ensures
            final(self).wf(),
            final(self)@ == Seq::<u8>::empty(),
            final(self).spec_capacity() == old(self).spec_capacity(),
    {
        self.head = 0;
        self.len = 0;
        assert(self@ =~= Seq::<u8>::empty());
    }
}

} // verus!
