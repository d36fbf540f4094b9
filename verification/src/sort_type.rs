//! The tri-state sort order applied when ranking records for display.

use vstd::prelude::*;

verus! {

/// Sort order for ranking records: by magnitude in either direction, or by
/// recency when no explicit order is requested.
#[derive(Clone, Copy, Debug, PartialEq, Eq, Hash, Structural)]
pub enum SortType {
    /// Smaller magnitude sorts first.
    Ascending,
    /// Larger magnitude sorts first.
    Descending,
    /// Magnitude is ignored; the more recently updated record sorts first.
    Neutral,
}

} // verus!
