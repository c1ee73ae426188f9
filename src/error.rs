//! The error that reading barcodes can end in.
use vstd::prelude::*;

verus! {

/// A failure of the device that events are fetched from, with a message for
/// people to read. The decoder itself never fails.
#[derive(Debug, Clone)]
pub struct Error {
    msg: String,
}

impl View for Error {
    type V = Seq<char>;

    closed spec fn view(&self) -> Seq<char> {
        self.msg@
    }
}

impl Error {
    /// An error with the given message.
    pub fn new(msg: String) -> (r: Error)
        ensures
            r@ == msg@,
    {
        Error { msg }
    }

    /// The message of this error.
    pub fn message(&self) -> (r: &str)
        ensures
            r@ == self@,
    {
        self.msg.as_str()
    }
}

} // verus!
