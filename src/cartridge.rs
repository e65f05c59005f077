//! The boot cartridge: a raw RAM image and its format revision.
use vstd::prelude::*;

verus! {

pub struct MonadBootCartridge {
    data: Vec<u8>,
    revision: u8,
}

impl MonadBootCartridge {
    /// The image the cartridge holds.
    pub closed spec fn image(&self) -> Seq<u8> {
        self.data@
    }

    /// The revision of the image format.
    pub closed spec fn rev(&self) -> u8 {
        self.revision
    }

    /// A revision 0 cartridge holding a copy of `data`.
    pub fn new(data: &[u8]) -> (r: Self)
        ensures
            r.image() == data@,
            r.rev() == 0,
    {
        Self::with_revision(data, 0)
    }

    /// A cartridge of the given revision holding a copy of `data`.
    pub fn with_revision(data: &[u8], revision: u8) -> (r: Self)
        ensures
            r.image() == data@,
            r.rev() == revision,
    {
        let mut copy: Vec<u8> = Vec::new();
        let mut i: usize = 0;
        while i < data.len()
            invariant
                i <= data@.len(),
                copy@ =~= data@.subrange(0, i as int),
            decreases data.len() - i,
        {
            copy.push(data[i]);
            i = i + 1;
        }
        assert(copy@ =~= data@);
        MonadBootCartridge { data: copy, revision }
    }

    pub fn get_revision(&self) -> (r: u8)
        ensures
            r == self.rev(),
    {
        self.revision
    }

    pub fn get_data(&self) -> (r: &Vec<u8>)
        ensures
            r@ == self.image(),
    {
        &self.data
    }
}

} // verus!
