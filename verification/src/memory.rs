//! The main memory: a flat store of bytes that is read and written one
//! aligned eight-byte block at a time.

use vstd::prelude::*;
use crate::word::{bytes_of_word, decode_word, encode_word, lemma_word_bytes_roundtrip, word_of_bytes};
use crate::{Block, BLOCK_SIZE};

verus! {

/// Why a block could not be accessed.
#[derive(Debug, Clone, Copy, PartialEq, Eq, Structural)]
pub enum Error {
    /// The block that starts at the address does not lie within the memory.
    InvalidAddress(usize),
    /// The address is not a multiple of the block size.
    UnalignedAccess(usize),
}

/// The number of bytes in the main memory: 64 KiB.
pub const MEMORY_SIZE: usize = 0x1_0000;

/// The error that an access at `addr` to a memory of `len` bytes meets, if any.
/// Alignment is judged before bounds.
pub open spec fn access_error(len: nat, addr: usize) -> Option<Error> {
    if addr % 8 != 0 {
        Some(Error::UnalignedAccess(addr))
    } else if addr + 8 > len {
        Some(Error::InvalidAddress(addr))
    } else {
        None
    }
}

/// The block that the bytes of `mem` hold at `addr`.
pub open spec fn load(mem: Seq<u8>, addr: int) -> Block
    recommends
        0 <= addr,
        addr + 8 <= mem.len(),
{
    word_of_bytes(mem.subrange(addr, addr + 8))
}

/// The bytes of `mem` after `value` has been written at `addr`: the eight
/// bytes from `addr` on are those of `value`, all others are as before.
pub open spec fn store(mem: Seq<u8>, addr: int, value: Block) -> Seq<u8>
    recommends
        0 <= addr,
        addr + 8 <= mem.len(),
{
    Seq::new(
        mem.len(),
        |i: int|
            if addr <= i < addr + 8 {
                bytes_of_word(value)[i - addr]
            } else {
                mem[i]
            },
    )
}

/// What a read of `mem` at `addr` gives.
pub open spec fn read_spec(mem: Seq<u8>, addr: usize) -> Result<Block, Error> {
    match access_error(mem.len(), addr) {
        Some(e) => Err(e),
        None => Ok(load(mem, addr as int)),
    }
}

/// What a write of `value` to `mem` at `addr` leaves in the memory, and what it reports.
pub open spec fn write_spec(mem: Seq<u8>, addr: usize, value: Block) -> (Seq<u8>, Result<(), Error>) {
    match access_error(mem.len(), addr) {
        Some(e) => (mem, Err(e)),
        None => (store(mem, addr as int, value), Ok(())),
    }
}

/// A block that has been written is the block that is read at the same address.
pub proof fn lemma_store_then_load(mem: Seq<u8>, addr: int, value: Block)
    requires
        0 <= addr,
        addr + 8 <= mem.len(),
    ensures
        store(mem, addr, value).len() == mem.len(),
        load(store(mem, addr, value), addr) == value,
{
    lemma_word_bytes_roundtrip(value);
    assert(store(mem, addr, value).subrange(addr, addr + 8) =~= bytes_of_word(value));
}

/// A write leaves every block that it does not overlap as it was.
pub proof fn lemma_store_keeps_other_blocks(mem: Seq<u8>, addr: int, value: Block, other: int)
    requires
        0 <= addr,
        addr + 8 <= mem.len(),
        0 <= other,
        other + 8 <= mem.len(),
        other + 8 <= addr || addr + 8 <= other,
    ensures
        load(store(mem, addr, value), other) == load(mem, other),
{
    assert(store(mem, addr, value).subrange(other, other + 8) =~= mem.subrange(other, other + 8));
}

/// For every aligned address within bounds, a write followed by a read at
/// that address succeeds and returns the word that was written.
pub proof fn lemma_write_then_read(mem: Seq<u8>, addr: usize, value: Block)
    requires
        addr % 8 == 0,
        addr + 8 <= mem.len(),
    ensures
        write_spec(mem, addr, value).1 == Ok::<(), Error>(()),
        read_spec(write_spec(mem, addr, value).0, addr) == Ok::<Block, Error>(value),
{
    lemma_store_then_load(mem, addr as int, value);
}

/// An access at an address that is no multiple of eight is refused as
/// unaligned, whatever the bounds, and a write there changes nothing.
pub proof fn lemma_unaligned_access(mem: Seq<u8>, addr: usize, value: Block)
    requires
        addr % 8 != 0,
    ensures
        read_spec(mem, addr) == Err::<Block, Error>(Error::UnalignedAccess(addr)),
        write_spec(mem, addr, value) == (mem, Err::<(), Error>(Error::UnalignedAccess(addr))),
{
}

/// An access at an aligned address whose block ends beyond the memory is
/// refused as out of bounds, and a write there changes nothing.
pub proof fn lemma_out_of_bounds_access(mem: Seq<u8>, addr: usize, value: Block)
    requires
        addr % 8 == 0,
        addr + 8 > mem.len(),
    ensures
        read_spec(mem, addr) == Err::<Block, Error>(Error::InvalidAddress(addr)),
        write_spec(mem, addr, value) == (mem, Err::<(), Error>(Error::InvalidAddress(addr))),
{
}

/// The main memory of a machine.
pub struct MainMemory {
    bytes: Vec<u8>,
}

impl View for MainMemory {
    type V = Seq<u8>;

    closed spec fn view(&self) -> Seq<u8> {
        self.bytes@
    }
}

impl MainMemory {
    /// The size of every main memory.
    pub const MEMORY_SIZE: usize = MEMORY_SIZE;

    /// Every main memory has the same size, which no operation changes.
    #[verifier::type_invariant]
    pub open spec fn sized(&self) -> bool {
        self@.len() == MEMORY_SIZE
    }

    /// The number of bytes, which never changes.
    pub fn len(&self) -> (n: usize)
        ensures
            n == self@.len(),
            n == MEMORY_SIZE,
    {
        proof {
            use_type_invariant(self);
        }
        self.bytes.len()
    }

    /// Reads the block at `addr`.
    pub fn read(&self, addr: usize) -> (result: Result<Block, Error>)
        ensures
            self@.len() == MEMORY_SIZE,
            result == read_spec(self@, addr),
    {
        proof {
            use_type_invariant(self);
        }
        if addr % BLOCK_SIZE != 0 {
            return Err(Error::UnalignedAccess(addr));
        }
        if addr > self.bytes.len() - BLOCK_SIZE {
            return Err(Error::InvalidAddress(addr));
        }
        Ok(decode_word(self.bytes.as_slice(), addr))
    }

    /// Writes `value` as the block at `addr`.
    pub fn write(&mut self, addr: usize, value: Block) -> (result: Result<(), Error>)
        ensures
            final(self)@.len() == MEMORY_SIZE,
            (final(self)@, result) == write_spec(old(self)@, addr, value),
    {
        proof {
            use_type_invariant(&*self);
        }
        if addr % BLOCK_SIZE != 0 {
            return Err(Error::UnalignedAccess(addr));
        }
        if addr > self.bytes.len() - BLOCK_SIZE {
            return Err(Error::InvalidAddress(addr));
        }
        let block = encode_word(value);
        for i in 0..BLOCK_SIZE
            invariant
                addr + 8 <= MEMORY_SIZE,
                self.bytes@.len() == MEMORY_SIZE,
                self.bytes@.len() == old(self).bytes@.len(),
                block@ == bytes_of_word(value),
                forall|j: int|
                    0 <= j < self.bytes@.len() ==> self.bytes@[j] == if addr <= j < addr + i {
                        block@[j - addr]
                    } else {
                        old(self).bytes@[j]
                    },
        {
            self.bytes[addr + i] = block[i];
        }
        assert(self.bytes@ =~= store(old(self).bytes@, addr as int, value));
        Ok(())
    }
}

impl Default for MainMemory {
    /// A memory of `MEMORY_SIZE` zero bytes.
    fn default() -> (memory: Self)
        ensures
            memory@ == Seq::new(MEMORY_SIZE as nat, |i: int| 0u8),
    {
        let memory = Self { bytes: vec![0u8; MEMORY_SIZE] };
        assert(memory.bytes@ =~= Seq::new(MEMORY_SIZE as nat, |i: int| 0u8));
        memory
    }
}

} // verus!
