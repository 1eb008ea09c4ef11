//! The bytes of a finished job, held for the caller.

use vstd::prelude::*;

verus! {

/// The bytes of a finished job.
#[derive(Debug)]
pub struct Result {
    pub data: Vec<u8>,
}

impl Result {
    /// Holds the given bytes.
    pub fn new(data: Vec<u8>) -> (r: Self)
        ensures
            r.data@ == data@,
    {
        Self { data }
    }

    /// A copy of the bytes.
    pub fn to_buffer(&self) -> (buffer: Vec<u8>)
        ensures
            buffer@ == self.data@,
    {
        let mut buffer: Vec<u8> = Vec::with_capacity(self.data.len());
        let mut i: usize = 0;
        while i < self.data.len()
            invariant
                i <= self.data.len(),
                buffer@ == self.data@.take(i as int),
            decreases self.data.len() - i,
        {
            buffer.push(self.data[i]);
            proof {
                assert(self.data@.take(i + 1) =~= self.data@.take(i as int).push(self.data@[i as int]));
            }
            i = i + 1;
        }
        proof {
            assert(self.data@.take(self.data.len() as int) =~= self.data@);
        }
        buffer
    }
}

} // verus!
