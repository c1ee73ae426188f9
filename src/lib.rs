//! Decoding of the keystrokes that a keyboard-emulating hand-held barcode
//! scanner sends into complete barcode strings.
//!
//! The library holds the verified core: the mapping from key codes to
//! characters ([`keys`]) and the decoder state machine that tracks the
//! modifier keys, buffers characters and cuts barcodes at the terminator
//! ([`decoder`]). Opening and grabbing an input device and fetching its events
//! is left to the caller, which hands each fetched batch to the decoder.

pub mod decoder;
pub mod error;
pub mod keys;

pub use decoder::{Decoder, KeyEvent, ModifierState};
pub use error::Error;

