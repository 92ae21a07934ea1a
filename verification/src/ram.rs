//! Fixed-size byte stores backing the bus devices (work RAM, video RAM,
//! object attribute memory, high RAM).
use vstd::prelude::*;

verus! {

/// A zero-based, byte-addressed memory block of fixed size.
pub struct Ram {
    data: Vec<u8>,
}

impl View for Ram {
    type V = Seq<u8>;

    closed spec fn view(&self) -> Seq<u8> {
        self.data@
    }
}

impl Ram {
    /// A block of `size` bytes, all cleared to zero.
    pub fn with_size(size: usize) -> (r: Ram)
        ensures
            r@.len() == size,
            forall|i: int| 0 <= i < size ==> r@[i] == 0u8,
    {
        let mut data: Vec<u8> = Vec::new();
        while data.len() < size
            invariant
                data@.len() <= size,
                forall|i: int| 0 <= i < data@.len() ==> data@[i] == 0u8,
            decreases size - data@.len(),
        {
            data.push(0);
        }
        Ram { data }
    }

    /// The byte at `address`.
    pub fn read(&self, address: u16) -> (r: u8)
        requires
            address < self@.len(),
        ensures
            r == self@[address as int],
    {
        self.data[address as usize]
    }

    /// Stores `byte` at `address`.
    pub fn write(&mut self, address: u16, byte: u8)
        requires
            address < old(self)@.len(),
        ensures
            final(self)@ == old(self)@.update(address as int, byte),
    {
        self.data.set(address as usize, byte);
    }
}

} // verus!
