//! Where instructions come from: a read-only sequence of bytes.

use vstd::prelude::*;
use vstd::std_specs::convert::FromSpecImpl;

verus! {

/// A source of instructions.
pub trait Region {
    /// The instruction stream, as bytes to read.
    fn instructions(&self) -> &[u8];
}

/// A region that owns its bytes.
pub struct Chunk {
    instructions: Vec<u8>,
}

impl View for Chunk {
    type V = Seq<u8>;

    closed spec fn view(&self) -> Seq<u8> {
        self.instructions@
    }
}

impl Region for Chunk {
    fn instructions(&self) -> (bytes: &[u8])
        ensures
            bytes@ == self@,
    {
        self.instructions.as_slice()
    }
}

impl FromSpecImpl<Vec<u8>> for Chunk {
    open spec fn obeys_from_spec() -> bool {
        true
    }

    closed spec fn from_spec(instructions: Vec<u8>) -> Self {
        Chunk { instructions }
    }
}

impl From<Vec<u8>> for Chunk {
    fn from(instructions: Vec<u8>) -> (chunk: Self)
        ensures
            chunk@ == instructions@,
    {
        Self { instructions }
    }
}

} // verus!
