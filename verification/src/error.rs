use vstd::prelude::*;

verus! {

/// Errors reported by the generator.
///
/// Argument checks fail immediately and never clamp or default, so that a
/// masked error cannot corrupt the statistical contract of a derived value.
#[derive(Clone, Copy, Debug, PartialEq, Eq)]
pub enum RngError {
    /// A caller passed an argument outside the documented domain
    /// (inverted or empty range bounds, an unsupported bit width).
    InvalidArgument,
    /// The system clock reported an instant before the Unix epoch, so no
    /// time-derived seed could be produced.
    TimeBeforeEpoch,
}

} // verus!
