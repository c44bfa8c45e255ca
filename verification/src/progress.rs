//! Progress of a long copy, told once for every mebibyte.

use vstd::prelude::*;
use vstd::string::*;
use crate::text::{decimal, decimal_text};

verus! {

/// The number of bytes in a mebibyte.
pub const MEBIBYTE: u64 = 1048576;

/// The whole mebibytes in `bytes`.
pub open spec fn mebibytes(bytes: u64) -> nat {
    (bytes / MEBIBYTE) as nat
}

/// The notice of a copy that has come to `copied` of `total` bytes.
pub open spec fn progress_notice(copied: u64, total: u64) -> Seq<char> {
    decimal(mebibytes(copied)) + "/"@ + decimal(mebibytes(total)) + " MiB"@
}

/// How far a copy was when it last told its progress.
#[derive(Clone, Copy, Debug)]
pub struct Progress {
    /// The mebibytes copied at the last notice.
    pub told: u64,
}

impl Progress {
    /// A copy that has told nothing yet.
    pub fn new() -> (progress: Progress)
        ensures
            progress.told == 0,
    {
        Progress { told: 0 }
    }

    /// Takes note of how far the copy is. There is a notice exactly when
    /// the copy has passed a mebibyte since the last one.
    pub fn observe(&mut self, copied: u64, total: u64) -> (notice: Option<String>)
        ensures
            mebibytes(copied) > old(self).told ==> notice.deep_view() == Some(
                progress_notice(copied, total),
            ) && final(self).told == mebibytes(copied),
            mebibytes(copied) <= old(self).told ==> notice is None && *final(self) == *old(self),
    {
        if copied / MEBIBYTE > self.told {
            self.told = copied / MEBIBYTE;
            let mut text = decimal_text(copied / MEBIBYTE);
            text.append("/");
            text.append(decimal_text(total / MEBIBYTE).as_str());
            text.append(" MiB");
            Some(text)
        } else {
            None
        }
    }
}

} // verus!
