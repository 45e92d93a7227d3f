use vstd::prelude::*;

verus! {

/// Number of slots in the sample ring; it holds at most one sample fewer.
pub const BUFFER_SIZE: usize = 8192;

/// A ring of samples between the emulator, which pushes, and the audio output, which pops.
pub struct AudioBuffer<T> {
    data: Vec<T>,
    write_pos: usize,
    read_pos: usize,
}

/// The slot that holds the `i`-th queued sample when reading starts at `read`.
pub open spec fn ring_slot(read: int, i: int) -> int {
    if read + i < BUFFER_SIZE {
        read + i
    } else {
        read + i - BUFFER_SIZE
    }
}

/// How many samples are queued between the read and write positions.
pub open spec fn ring_len(write: int, read: int) -> int {
    if write >= read {
        write - read
    } else {
        BUFFER_SIZE - read + write
    }
}

impl<T> AudioBuffer<T> {
    /// The ring's internal consistency: full-size storage and positions inside it.
    pub closed spec fn inv(&self) -> bool {
        &&& self.data.len() == BUFFER_SIZE
        &&& self.write_pos < BUFFER_SIZE
        &&& self.read_pos < BUFFER_SIZE
    }
}

impl<T> View for AudioBuffer<T> {
    type V = Seq<T>;

    /// The queued samples, oldest first.
    closed spec fn view(&self) -> Seq<T> {
        Seq::new(
            ring_len(self.write_pos as int, self.read_pos as int) as nat,
            |i: int| self.data@[ring_slot(self.read_pos as int, i)],
        )
    }
}

impl<T: Copy + Default> AudioBuffer<T> {
    /// An empty ring.
    pub fn new() -> (r: Self)
        ensures
            r.inv(),
            r@ == Seq::<T>::empty(),
    {
        let mut data: Vec<T> = Vec::new();
        let mut i: usize = 0;
        while i < BUFFER_SIZE
            invariant
                i <= BUFFER_SIZE,
                data.len() == i,
            decreases BUFFER_SIZE - i,
        {
            data.push(T::default());
            i = i + 1;
        }
        let r = AudioBuffer { data, write_pos: 0, read_pos: 0 };
        assert(r@ =~= Seq::<T>::empty());
        r
    }

    /// Queues a sample unless the ring already holds `BUFFER_SIZE - 1` of them; says
    /// whether it was queued.
    pub fn push(&mut self, sample: T) -> (ok: bool)
        requires
            old(self).inv(),
        ensures
            final(self).inv(),
            ok == (old(self)@.len() < BUFFER_SIZE - 1),
            ok ==> final(self)@ == old(self)@.push(sample),
            !ok ==> final(self)@ == old(self)@,
    {
        let write = self.write_pos;
        let read = self.read_pos;
        let next_write = (write + 1) % BUFFER_SIZE;
        if next_write == read {
            return false;
        }
        let ghost before = self@;
        self.data.set(write, sample);
        self.write_pos = next_write;
        assert(self@ =~= before.push(sample));
        true
    }

    /// Takes the oldest queued sample, if any.
    pub fn pop(&mut self) -> (r: Option<T>)
        requires
            old(self).inv(),
        ensures
            final(self).inv(),
            old(self)@.len() == 0 ==> r is None && final(self)@ == old(self)@,
            old(self)@.len() > 0 ==> r == Some(old(self)@[0]) && final(self)@ == old(
                self,
            )@.drop_first(),
    {
        let read = self.read_pos;
        let write = self.write_pos;
        if read == write {
            return None;
        }
        let ghost before = self@;
        let sample = self.data[read];
        self.read_pos = (read + 1) % BUFFER_SIZE;
        assert(self@ =~= before.drop_first());
        Some(sample)
    }

    /// How many samples are queued.
    pub fn len(&self) -> (n: usize)
        requires
            self.inv(),
        ensures
            n == self@.len(),
    {
        let write = self.write_pos;
        let read = self.read_pos;
        if write >= read {
            write - read
        } else {
            BUFFER_SIZE - read + write
        }
    }
}

} // verus!
