//! The two states of a frame: as it came off the air, and decrypted.
//!
//! A state is a marker type. What a frame offers depends on its state, and
//! the only way from one to the other is to decrypt the frame.
use vstd::prelude::*;

mod sealed;

verus! {

/// The frame is as it came off the air.
#[derive(Debug, Clone, Copy)]
pub enum Encrypted {
    Marker,
}

/// The encrypted part of the frame has been decrypted.
#[derive(Debug, Clone, Copy)]
pub enum Decrypted {
    Marker,
}

pub trait DecodeState: sealed::Sealed {

}

impl sealed::Sealed for Encrypted {

}

impl sealed::Sealed for Decrypted {

}

impl DecodeState for Encrypted {

}

impl DecodeState for Decrypted {

}

} // verus!
