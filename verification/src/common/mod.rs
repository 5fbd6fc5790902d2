//! Types shared by every part of the backend.

pub mod file_location;
pub mod file_type;
pub mod visibility;

use vstd::prelude::*;

verus! {

/// The sum of two sizes.
pub fn add(left: usize, right: usize) -> (sum: usize)
    requires
        left + right <= usize::MAX,
    ensures
        sum == left + right,
{
    left + right
}

} // verus!
