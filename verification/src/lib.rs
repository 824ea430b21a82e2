//! Encrypting or decrypting one file with AES in counter mode, as a verified core.
//!
//! The crate holds the decisions of such a run and none of its effects. A
//! [`Run`] is a state machine: each [`Action`] it hands out is carried out by
//! the caller (read a file, draw random bytes, run the cipher, write a file),
//! and the caller's [`Report`] of how that went drives the next step. The
//! machine decides when key material is loaded and when it is generated, checks
//! its length before the cipher sees it, sizes the cipher's scratch buffer and
//! cuts the result back to the length of the input.
pub mod error;
pub mod laws;
pub mod material;
pub mod params;
pub mod run;
pub mod sizing;
pub mod world;

pub use crate::error::Error;
pub use crate::material::check_lengths;
pub use crate::params::{Direction, FileKind, Params, Slot};
pub use crate::run::{Action, Phase, Report, Run};
pub use crate::sizing::{fit_to, padded_len, zeroed};
