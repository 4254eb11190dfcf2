//! Constants of the protocol.

pub mod api_keys;
pub mod error_codes;

use vstd::prelude::*;

verus! {

/// The longest string, in bytes, that the 16-bit length field can announce.
pub const MAX_STRING_LENGTH: usize = 32767;

/// The length that stands for an absent string.
pub const NULL_STRING_MARKER: i16 = -1;

} // verus!
