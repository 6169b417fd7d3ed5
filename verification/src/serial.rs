//! Sending zero-terminated text over a serial port that may be busy.
use vstd::prelude::*;

use crate::util::{bytes_before_zero, len_before_zero};

verus! {

/// What one write to the port came to.
#[derive(Debug, Clone, Copy, PartialEq, Eq, Structural)]
pub enum WriteOutcome {
    /// The port took this many bytes.
    Written(usize),
    /// The port's buffer is full.
    WouldBlock,
    /// The port failed.
    Failed,
}

/// The bytes that are still to be written after one write, or none where
/// writing stops: a port that took bytes leaves the rest, a full port is
/// tried again only by a blocking writer, and a failed port drops the rest.
pub open spec fn spec_left_after(left: usize, outcome: WriteOutcome, block: bool) -> Option<usize> {
    match outcome {
        WriteOutcome::Written(len) => if len <= left {
            Some((left - len) as usize)
        } else {
            Some(0)
        },
        WriteOutcome::WouldBlock => if block {
            Some(left)
        } else {
            None
        },
        WriteOutcome::Failed => None,
    }
}

/// The length of the text in a buffer that is padded with zero bytes: the
/// bytes before the first zero byte.
pub fn text_len(buf: &[u8]) -> (n: usize)
    ensures
        n == len_before_zero(buf@),
{
    bytes_before_zero(buf)
}

/// Decides how a writer goes on after one write with `left` bytes to go.
pub fn left_after(left: usize, outcome: WriteOutcome, block: bool) -> (r: Option<usize>)
    ensures
        r == spec_left_after(left, outcome, block),
{
    match outcome {
        WriteOutcome::Written(len) => {
            if len <= left {
                Some(left - len)
            } else {
                Some(0)
            }
        },
        WriteOutcome::WouldBlock => {
            if block {
                Some(left)
            } else {
                None
            }
        },
        WriteOutcome::Failed => None,
    }
}

} // verus!
