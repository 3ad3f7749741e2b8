//! Errors of the domain.

use vstd::prelude::*;

verus! {

/// What can go wrong with the hardware.
#[derive(Debug)]
pub enum Psk31Error {
    /// The serial port failed: the hardware is gone.
    Serial(String),
    /// The radio answered a CAT command with something unusable, or refused it.
    Cat(String),
    /// The audio system failed.
    Audio(String),
}

pub type Psk31Result<T> = Result<T, Psk31Error>;

} // verus!
