//! Sub-status codes with which the framework's natives abort.

use vstd::prelude::*;

verus! {

/// Failure in parsing a struct type tag.
pub const NFE_EXPECTED_STRUCT_TYPE_TAG: u64 = 0x1;

/// Failure in address parsing (likely no correct length).
pub const NFE_UNABLE_TO_PARSE_ADDRESS: u64 = 0x2;

} // verus!
