//! Identifiers of agents, sessions and chat sources: 128-bit ids carried on
//! the wire as sixteen raw bytes. The engine never interprets an id beyond
//! copying its bytes, so it holds them as a plain byte vector.

use vstd::prelude::*;

verus! {

/// A 128-bit identifier as its sixteen wire bytes.
#[derive(Clone, Debug, PartialEq, Eq)]
pub struct UuidBytes {
    bytes: Vec<u8>,
}

impl View for UuidBytes {
    type V = Seq<u8>;

    closed spec fn view(&self) -> Seq<u8> {
        self.bytes@
    }
}

impl UuidBytes {
    /// Whether the id holds exactly sixteen bytes. Every constructor of this
    /// crate establishes it and every method keeps it.
    pub open spec fn wf(&self) -> bool {
        self@.len() == 16
    }

    /// Builds an id from its sixteen bytes.
    pub fn new(bytes: Vec<u8>) -> (r: UuidBytes)
        requires
            bytes@.len() == 16,
        ensures
            r@ == bytes@,
            r.wf(),
    {
        UuidBytes { bytes }
    }

    /// The all-zero id.
    pub fn nil() -> (r: UuidBytes)
        ensures
            r@ =~= Seq::new(16, |i: int| 0u8),
            r.wf(),
    {
        let mut bytes: Vec<u8> = Vec::new();
        let mut i: usize = 0;
        while i < 16
            invariant
                i <= 16,
                bytes@ =~= Seq::new(i as nat, |j: int| 0u8),
            decreases 16 - i,
        {
            bytes.push(0);
            proof {
                assert(bytes@ =~= Seq::new((i + 1) as nat, |j: int| 0u8));
            }
            i = i + 1;
        }
        UuidBytes { bytes }
    }

    /// Borrows the sixteen bytes.
    pub fn as_bytes(&self) -> (r: &Vec<u8>)
        ensures
            r@ == self@,
    {
        &self.bytes
    }
}

} // verus!
