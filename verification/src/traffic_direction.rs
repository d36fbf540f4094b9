//! Direction of an observed packet relative to the monitored host.

use vstd::prelude::*;

verus! {

/// Classification of a packet as entering or leaving the monitored host.
/// A closed enumeration: no unknown direction is representable.
#[derive(Clone, Copy, Debug, PartialEq, Eq, Hash, Structural)]
pub enum TrafficDirection {
    /// Traffic entering the monitored host.
    Incoming,
    /// Traffic leaving the monitored host.
    Outgoing,
}

} // verus!
