//! Small helpers shared by the textures.

use vstd::prelude::*;
use std::sync::Arc;
use vstd::std_specs::cmp::PartialOrdIs;
use vstd::std_specs::cmp::PartialOrdSpec;

verus! {

/// `value` brought into the range from `min` to `max`: `min` where `value` is
/// below it, else `max` where `value` is above it, else `value` itself.
pub fn clamp<T: PartialOrd>(value: T, min: T, max: T) -> (r: T)
    ensures
        T::obeys_partial_cmp_spec() ==> r == (if value.is_lt(&min) {
            min
        } else if value.is_gt(&max) {
            max
        } else {
            value
        }),
{
    if value < min {
        min
    } else if value > max {
        max
    } else {
        value
    }
}

/// Calls `Arc::clone`, which makes another pointer to the same allocation:
/// the value behind the result is the value behind `handle`.
#[verifier::external_body]
pub(crate) fn share<T>(handle: &Arc<T>) -> (r: Arc<T>)
    ensures
        r == *handle,
{
    Arc::clone(handle)
}

} // verus!
