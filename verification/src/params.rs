//! The fixed vocabulary of a run: its direction, its files, its key slots and
//! the cipher's parameters.
use vstd::prelude::*;

verus! {

/// Whether a run encrypts or decrypts. The transform is the same either way;
/// the direction decides how key material is obtained and whether it is saved.
#[derive(Clone, Copy, Debug, PartialEq, Eq, Structural)]
pub enum Direction {
    Encrypt,
    Decrypt,
}

/// One of the two pieces of key material.
#[derive(Clone, Copy, Debug, PartialEq, Eq, Structural)]
pub enum Slot {
    Key,
    Iv,
}

/// One of the four files a run touches.
#[derive(Clone, Copy, Debug, PartialEq, Eq, Structural)]
pub enum FileKind {
    Input,
    Output,
    Key,
    Iv,
}

impl Slot {
    /// The file in which this slot's bytes are stored.
    pub open spec fn spec_file(self) -> FileKind {
        match self {
            Slot::Key => FileKind::Key,
            Slot::Iv => FileKind::Iv,
        }
    }

    /// The file in which this slot's bytes are stored.
    #[verifier::when_used_as_spec(spec_file)]
    pub fn file(self) -> (f: FileKind)
        ensures
            f == self.spec_file(),
    {
        match self {
            Slot::Key => FileKind::Key,
            Slot::Iv => FileKind::Iv,
        }
    }
}

/// The cipher's sizes, in bits, passed to every component that needs them.
#[derive(Clone, Copy, Debug, PartialEq, Eq, Structural)]
pub struct Params {
    /// Length of the key in bits.
    pub key_bits: u32,
    /// Size of a cipher block in bits. The IV is one block long.
    pub block_bits: u32,
}

impl Params {
    /// Length of the key in bytes.
    pub open spec fn spec_key_len(&self) -> usize {
        (self.key_bits / 8) as usize
    }

    /// Size of a block, and so of the IV, in bytes.
    pub open spec fn spec_block_len(&self) -> usize {
        (self.block_bits / 8) as usize
    }

    /// The number of bytes that the given slot must hold.
    pub open spec fn spec_slot_len(&self, slot: Slot) -> usize {
        match slot {
            Slot::Key => self.spec_key_len(),
            Slot::Iv => self.spec_block_len(),
        }
    }

    /// Parameters with the given sizes in bits.
    pub fn new(key_bits: u32, block_bits: u32) -> (p: Params)
        ensures
            p == (Params { key_bits, block_bits }),
    {
        Params { key_bits, block_bits }
    }

    /// AES with a 128-bit key: sixteen bytes of key, sixteen of IV.
    pub fn aes128() -> (p: Params)
        ensures
            p == (Params { key_bits: 128, block_bits: 128 }),
            p.spec_key_len() == 16,
            p.spec_block_len() == 16,
    {
        Params { key_bits: 128, block_bits: 128 }
    }

    /// Length of the key in bytes.
    #[verifier::when_used_as_spec(spec_key_len)]
    pub fn key_len(&self) -> (n: usize)
        ensures
            n == self.spec_key_len(),
    {
        (self.key_bits / 8) as usize
    }

    /// Size of a block, and so of the IV, in bytes.
    #[verifier::when_used_as_spec(spec_block_len)]
    pub fn block_len(&self) -> (n: usize)
        ensures
            n == self.spec_block_len(),
    {
        (self.block_bits / 8) as usize
    }

    /// The number of bytes that the given slot must hold.
    #[verifier::when_used_as_spec(spec_slot_len)]
    pub fn slot_len(&self, slot: Slot) -> (n: usize)
        ensures
            n == self.spec_slot_len(slot),
    {
        match slot {
            Slot::Key => self.key_len(),
            Slot::Iv => self.block_len(),
        }
    }
}

} // verus!
