//! Well-known service IDs.

use vstd::prelude::*;

verus! {

/// The service ID used for error responses.
pub const ERROR: i32 = -1;

} // verus!
