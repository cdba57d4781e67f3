//! The ways in which a request fails.

use vstd::prelude::*;

verus! {

/// Why a request was refused. The transport reports `NotFound` and
/// `InvalidOffset` as "no such entry" and `InvalidArgument` as
/// "invalid argument".
#[derive(Clone, Copy, Debug, PartialEq, Eq, Structural)]
pub enum Failure {
    /// The name or inode resolves to nothing, or its catalog row or media
    /// file is missing.
    NotFound,
    /// A listing was asked to start at a position that no listing hands out.
    InvalidOffset,
    /// The media file could not be positioned or read.
    InvalidArgument,
}

impl Failure {
    /// Whether the transport reports this failure as "no such entry"; the
    /// other report is "invalid argument".
    pub open spec fn is_no_entry_spec(self) -> bool {
        self != Failure::InvalidArgument
    }

    /// Tells which of the two reports the transport gives.
    pub fn is_no_entry(&self) -> (no_entry: bool)
        ensures
            no_entry == self.is_no_entry_spec(),
    {
        match self {
            Failure::NotFound => true,
            Failure::InvalidOffset => true,
            Failure::InvalidArgument => false,
        }
    }
}

} // verus!
