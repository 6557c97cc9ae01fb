use vstd::prelude::*;

verus! {

/// A 256-bit digest, as two 128-bit halves.
#[derive(Clone, Copy, Debug, PartialEq, Eq, Structural)]
pub struct Digest {
    pub high: u128,
    pub low: u128,
}

} // verus!
