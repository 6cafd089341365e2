//! A dual-mode command dispatcher for a fixed catalog of git and workspace
//! operations.
//!
//! A caller-side dispatcher decides per call whether to run an operation
//! locally or to serialize it and forward it to a daemon; the daemon-side
//! dispatcher decodes an untyped wire request into a typed operation, invokes
//! the bound handler, and re-encodes the result.  Both sides share one method
//! catalog and one structured-value model, so that the two execution contexts
//! agree on method identity and error semantics.

use vstd::prelude::*;

pub mod catalog;
pub mod client;
pub mod daemon;
pub mod envelope;
pub mod home;
pub mod laws;
pub mod requests;
pub mod value;

verus! {

/// Narrows an optional `usize` to an optional `u32`, dropping values that do
/// not fit.
pub fn optional_usize_to_u32(value: Option<usize>) -> (r: Option<u32>)
    ensures
        r == (match value {
            Some(raw) => if raw <= u32::MAX as usize {
                Some(raw as u32)
            } else {
                None
            },
            None => None::<u32>,
        }),
{
    match value {
        Some(raw) => if raw <= u32::MAX as usize {
            Some(raw as u32)
        } else {
            None
        },
        None => None,
    }
}

} // verus!
