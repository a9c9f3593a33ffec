//! A window into the cartridge image: the bytes of one ROM section,
//! copied out of the image at parse time.

use vstd::prelude::*;

verus! {

pub struct Slice {
    pub data: Vec<u8>,
}

impl Slice {
    /// The section fits the 32-bit lengths of the cartridge header.
    pub open spec fn wf(&self) -> bool {
        self.data@.len() <= 0xFFFF_FFFF
    }

    /// Copy `length` bytes of the image starting at `start`.
    pub fn new(data: &Vec<u8>, start: u32, length: u32) -> (r: Slice)
        requires
            start + length <= data@.len(),
        ensures
            r.wf(),
            r.data@ == data@.subrange(start as int, start + length),
    {
        let mut out: Vec<u8> = Vec::new();
        let data_len: usize = data.len();
        let mut i: u32 = 0;
        while i < length
            invariant
                i <= length,
                start + length <= data@.len(),
                data_len == data@.len(),
                out@ == data@.subrange(start as int, start + i),
            decreases length - i,
        {
            out.push(data[start as usize + i as usize]);
            i += 1;
            proof {
                assert(out@ == data@.subrange(start as int, start + i));
            }
        }
        Slice { data: out }
    }

    pub fn length(&self) -> (r: u32)
        requires
            self.wf(),
        ensures
            r == self.data@.len(),
    {
        self.data.len() as u32
    }

    pub fn at(&self, index: u32) -> (r: u8)
        requires
            index < self.data@.len(),
        ensures
            r == self.data@[index as int],
    {
        self.data[index as usize]
    }
}

} // verus!
