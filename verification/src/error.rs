//! The ways in which a run can fail.
use crate::params::{FileKind, Slot};
use vstd::prelude::*;

verus! {

/// Why a run was abandoned. Every failure ends the run; none is retried.
#[derive(Clone, Copy, Debug, PartialEq, Eq, Structural)]
pub enum Error {
    /// Random bytes could not be drawn.
    Rng,
    /// The given file could not be read or written.
    Io(FileKind),
    /// The given slot did not hold exactly `expected` bytes.
    InvalidLength { slot: Slot, expected: usize },
    /// The cipher could not be set up or run with what it was given.
    CipherSetup,
}

} // verus!
