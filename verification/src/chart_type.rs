//! Which magnitude drives a chart or a comparison: packets or bytes.

use vstd::prelude::*;

verus! {

/// Selector for the magnitude of a record: its packet total or its byte total.
#[derive(Clone, Copy, Debug, PartialEq, Eq, Hash, Structural)]
pub enum ChartType {
    /// Rank or plot records by total packet count.
    Packets,
    /// Rank or plot records by total byte volume.
    Bytes,
}

} // verus!
