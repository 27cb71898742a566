//! The errors of the kernel.

use vstd::prelude::*;

verus! {

/// What can go wrong while an application is assembled.
#[derive(Debug, Clone, PartialEq, Eq)]
pub enum KernelError {
    /// A directory or a file is not there.
    NotFound(String),
    /// A file is there and cannot be read as what it should hold.
    Deserialize(String),
}

impl KernelError {
    /// The reason of the error, as text.
    pub open spec fn text(&self) -> Seq<char> {
        match self {
            KernelError::NotFound(reason) => reason@,
            KernelError::Deserialize(reason) => reason@,
        }
    }

    /// The reason of the error.
    pub fn reason(&self) -> (reason: &str)
        ensures
            reason@ == self.text(),
    {
        match self {
            KernelError::NotFound(reason) => reason.as_str(),
            KernelError::Deserialize(reason) => reason.as_str(),
        }
    }
}

} // verus!
