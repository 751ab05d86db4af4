use vstd::prelude::*;

verus! {

/// Common validation of bus payloads.
///
/// Receivers check `is_valid()` before processing and skip invalid
/// payloads instead of crashing.  Every implementation in this crate
/// states, in the `ensures` of its `is_valid`, the spec predicate that the
/// answer equals.
pub trait PayloadValidation {
    /// Returns false if the payload is empty, malformed, or otherwise invalid.
    fn is_valid(&self) -> bool;
}

/// The tiers that the scheduler routes between are numbered 1 to 4.
pub open spec fn tier_in_range(tier: u8) -> bool {
    1 <= tier && tier <= 4
}

/// Executable check of `tier_in_range`.
pub(crate) fn is_known_tier(tier: u8) -> (b: bool)
    ensures
        b == tier_in_range(tier),
{
    1 <= tier && tier <= 4
}

} // verus!
