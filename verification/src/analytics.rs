//! Labels shared with the client's analytics layer.

use vstd::prelude::*;

verus! {

/// The direction a creator's emotional history is moving in. The analysis
/// that assigns the label works on floating-point readings and lives with
/// the client shell; a history too short to judge reads as stable.
#[derive(Clone, Copy, Debug, PartialEq, Eq, Structural)]
pub enum EmotionalTrend {
    Ascending,
    Descending,
    Stable,
    Volatile,
}

impl Default for EmotionalTrend {
    /// With nothing observed, the trend reads as stable.
    fn default() -> (r: EmotionalTrend)
        ensures
            r is Stable,
    {
        EmotionalTrend::Stable
    }
}

} // verus!
