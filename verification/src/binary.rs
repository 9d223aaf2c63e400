//! A file's bytes, held in memory as they were read.

use vstd::prelude::*;

verus! {

pub struct BinaryAsset {
    pub data: Vec<u8>,
}

impl View for BinaryAsset {
    type V = Seq<u8>;

    open spec fn view(&self) -> Seq<u8> {
        self.data@
    }
}

impl BinaryAsset {
    /// Copies the bytes that a loader hands over.
    pub fn from_bytes(bytes: &[u8]) -> (asset: BinaryAsset)
        ensures
            asset@ == bytes@,
    {
        let mut data: Vec<u8> = Vec::new();
        let mut i: usize = 0;
        while i < bytes.len()
            invariant
                i <= bytes.len(),
                data@ == bytes@.take(i as int),
            decreases bytes.len() - i,
        {
            data.push(bytes[i]);
            i += 1;
        }
        BinaryAsset { data }
    }
}

} // verus!
