//! A ring buffer of audio samples between the capture loop and the upload
//! loop. One slot is always left free, so a buffer of `size` slots holds at
//! most `size - 1` samples.

use vstd::prelude::*;

verus! {

/// The slot `i` places after `start` in a ring of `size` slots, for
/// `start, i < size`.
pub open spec fn ring_slot(start: int, i: int, size: int) -> int {
    if start + i < size {
        start + i
    } else {
        start + i - size
    }
}

pub struct AudioBuffer {
    buffer: Vec<i16>,
    write_index: usize,
    read_index: usize,
    size: usize,
}

impl AudioBuffer {
    /// The slots, the two indices inside them.
    pub closed spec fn wf(&self) -> bool {
        &&& self.size >= 1
        &&& self.buffer@.len() == self.size
        &&& self.write_index < self.size
        &&& self.read_index < self.size
    }

    /// The most samples the buffer holds.
    pub closed spec fn capacity(&self) -> nat {
        (self.size - 1) as nat
    }

    closed spec fn count(&self) -> int {
        if self.write_index >= self.read_index {
            self.write_index - self.read_index
        } else {
            self.size - self.read_index + self.write_index
        }
    }

    /// The buffered samples, oldest first.
    pub closed spec fn contents(&self) -> Seq<i16> {
        Seq::new(
            self.count() as nat,
            |i: int| self.buffer@[ring_slot(self.read_index as int, i, self.size as int)],
        )
    }

    /// An empty buffer of `size` slots, holding up to `size - 1` samples.
    pub fn new(size: usize) -> (r: AudioBuffer)
        requires
            size >= 1,
        ensures
            r.wf(),
            r.contents() == Seq::<i16>::empty(),
            r.capacity() == size - 1,
    {
        let buffer = vec![0i16; size];
        let r = AudioBuffer { buffer, write_index: 0, read_index: 0, size };
        assert(r.contents() =~= Seq::<i16>::empty());
        r
    }

    /// Appends as many leading samples of `data` as there is room for;
    /// returns how many.
    pub fn write(&mut self, data: &[i16]) -> (r: usize)
        requires
            old(self).wf(),
        ensures
            final(self).wf(),
            final(self).capacity() == old(self).capacity(),
            r == if data@.len() <= old(self).capacity() - old(self).contents().len() {
                data@.len() as int
            } else {
                old(self).capacity() - old(self).contents().len()
            },
            final(self).contents() == old(self).contents() + data@.subrange(0, r as int),
    {
        let mut written: usize = 0;
        while written < data.len() && self.available_write() > 0
            invariant
                self.wf(),
                self.capacity() == old(self).capacity(),
                self.size == old(self).size,
                written <= data@.len(),
                self.contents().len() <= self.capacity(),
                self.contents() == old(self).contents() + data@.subrange(0, written as int),
            decreases data@.len() - written,
        {
            let ghost before = self.contents();
            let w = self.write_index;
            self.buffer.set(w, data[written]);
            self.write_index = if w + 1 == self.size {
                0
            } else {
                w + 1
            };
            written = written + 1;
            assert(self.contents() =~= before.push(data@[written - 1]));
            assert(data@.subrange(0, written as int) =~= data@.subrange(0, written - 1).push(
                data@[written - 1],
            ));
        }
        written
    }

    /// Moves the oldest samples into the front of `data`, as many as fit
    /// and are buffered; returns how many.
    pub fn read(&mut self, data: &mut [i16]) -> (r: usize)
        requires
            old(self).wf(),
        ensures
            final(self).wf(),
            final(self).capacity() == old(self).capacity(),
            r == if old(data)@.len() <= old(self).contents().len() {
                old(data)@.len() as int
            } else {
                old(self).contents().len() as int
            },
            final(data)@.len() == old(data)@.len(),
            final(data)@.subrange(0, r as int) == old(self).contents().subrange(0, r as int),
            final(data)@.subrange(r as int, old(data)@.len() as int) == old(data)@.subrange(
                r as int,
                old(data)@.len() as int,
            ),
            final(self).contents() == old(self).contents().subrange(
                r as int,
                old(self).contents().len() as int,
            ),
    {
        let mut count: usize = 0;
        let ghost initial = self.contents();
        while count < data.len() && self.available_read() > 0
            invariant
                self.wf(),
                self.capacity() == old(self).capacity(),
                self.size == old(self).size,
                self.buffer@ == old(self).buffer@,
                count <= data@.len(),
                count <= initial.len(),
                initial == old(self).contents(),
                data@.len() == old(data)@.len(),
                data@.subrange(0, count as int) == initial.subrange(0, count as int),
                forall|i: int| count <= i < data@.len() ==> data@[i] == old(data)@[i],
                self.contents() == initial.subrange(count as int, initial.len() as int),
            decreases data@.len() - count,
        {
            let ghost before = self.contents();
            let ghost d0 = data@;
            let ri = self.read_index;
            let sample = self.buffer[ri];
            assert(sample == before[0]);
            data[count] = sample;
            self.read_index = if ri + 1 == self.size {
                0
            } else {
                ri + 1
            };
            count = count + 1;
            assert(self.contents() =~= before.subrange(1, before.len() as int));
            assert(data@.subrange(0, count as int) =~= d0.subrange(0, count - 1).push(sample));
            assert(initial.subrange(0, count as int) =~= initial.subrange(0, count - 1).push(
                initial[count - 1],
            ));
            assert(before[0] == initial[count - 1]);
            assert(self.contents() =~= initial.subrange(count as int, initial.len() as int));
        }
        assert(data@.subrange(count as int, data@.len() as int) =~= old(data)@.subrange(
            count as int,
            old(data)@.len() as int,
        ));
        count
    }

    /// How many samples are buffered.
    pub fn available_read(&self) -> (r: usize)
        requires
            self.wf(),
        ensures
            r == self.contents().len(),
    {
        if self.write_index >= self.read_index {
            self.write_index - self.read_index
        } else {
            self.size - self.read_index + self.write_index
        }
    }

    /// How many more samples fit.
    pub fn available_write(&self) -> (r: usize)
        requires
            self.wf(),
        ensures
            r == self.capacity() - self.contents().len(),
    {
        self.size - 1 - self.available_read()
    }

    /// Drops every buffered sample.
    pub fn clear(&mut self)
        requires
            old(self).wf(),
        ensures
            final(self).wf(),
            final(self).capacity() == old(self).capacity(),
            final(self).contents() == Seq::<i16>::empty(),
    {
        self.write_index = 0;
        self.read_index = 0;
        assert(self.contents() =~= Seq::<i16>::empty());
    }

    pub fn is_empty(&self) -> (r: bool)
        requires
            self.wf(),
        ensures
            r == (self.contents().len() == 0),
    {
        self.available_read() == 0
    }

    pub fn is_full(&self) -> (r: bool)
        requires
            self.wf(),
        ensures
            r == (self.contents().len() == self.capacity()),
    {
        self.available_write() == 0
    }
}

} // verus!
