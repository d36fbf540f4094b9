//! The traffic accounting record: directional packet and byte counters
//! together with the instant of the latest accounting event.
//!
//! Instants are plain tick counts on a monotonic scale chosen by the caller
//! (for example, nanoseconds elapsed since the capture started). The record
//! never reads a clock itself: every operation that stamps the record takes
//! the current tick as an argument, so the timestamp semantics are part of
//! each operation's contract.

use vstd::prelude::*;

use crate::chart_type::ChartType;
use crate::sort_type::SortType;
use crate::traffic_direction::TrafficDirection;
use core::cmp::Ordering;

verus! {

/// Mathematical model of a record: the four counters and the timestamp as
/// unbounded naturals.
pub ghost struct DataInfoModel {
    /// Count of packets observed inbound.
    pub incoming_packets: nat,
    /// Count of packets observed outbound.
    pub outgoing_packets: nat,
    /// Total byte volume inbound.
    pub incoming_bytes: nat,
    /// Total byte volume outbound.
    pub outgoing_bytes: nat,
    /// Tick of the most recent accounting event attributed to the record.
    pub final_instant: nat,
}

impl DataInfoModel {
    /// Total packets over both directions (derived, never stored).
    pub open spec fn tot_packets(self) -> nat {
        self.incoming_packets + self.outgoing_packets
    }

    /// Total bytes over both directions (derived, never stored).
    pub open spec fn tot_bytes(self) -> nat {
        self.incoming_bytes + self.outgoing_bytes
    }

    /// The magnitude a chart kind selects: the packet total or the byte total.
    pub open spec fn magnitude(self, chart_type: ChartType) -> nat {
        match chart_type {
            ChartType::Packets => self.tot_packets(),
            ChartType::Bytes => self.tot_bytes(),
        }
    }

    /// Both derived totals fit the counters' machine width, so computing them
    /// cannot overflow. Every record built through this module's operations
    /// satisfies this.
    pub open spec fn fits(self) -> bool {
        &&& self.tot_packets() <= u128::MAX
        &&& self.tot_bytes() <= u128::MAX
    }

    /// A zeroed record stamped at `now`.
    pub open spec fn fresh(now: nat) -> DataInfoModel {
        DataInfoModel {
            incoming_packets: 0,
            outgoing_packets: 0,
            incoming_bytes: 0,
            outgoing_bytes: 0,
            final_instant: now,
        }
    }

    /// The record after accounting one packet of `bytes` bytes in `direction`
    /// at tick `now`: the counters on that side grow by 1 and `bytes`, the
    /// other side is untouched, and the timestamp becomes `now`.
    pub open spec fn after_single_packet(
        self,
        bytes: nat,
        direction: TrafficDirection,
        now: nat,
    ) -> DataInfoModel {
        match direction {
            TrafficDirection::Outgoing => DataInfoModel {
                incoming_packets: self.incoming_packets,
                outgoing_packets: self.outgoing_packets + 1,
                incoming_bytes: self.incoming_bytes,
                outgoing_bytes: self.outgoing_bytes + bytes,
                final_instant: now,
            },
            TrafficDirection::Incoming => DataInfoModel {
                incoming_packets: self.incoming_packets + 1,
                outgoing_packets: self.outgoing_packets,
                incoming_bytes: self.incoming_bytes + bytes,
                outgoing_bytes: self.outgoing_bytes,
                final_instant: now,
            },
        }
    }

    /// The record after accounting a batch of `packets` packets totalling
    /// `bytes` bytes in `direction`. A batch is recency-invisible: the
    /// timestamp is unchanged.
    pub open spec fn after_packet_batch(
        self,
        packets: nat,
        bytes: nat,
        direction: TrafficDirection,
    ) -> DataInfoModel {
        match direction {
            TrafficDirection::Outgoing => DataInfoModel {
                incoming_packets: self.incoming_packets,
                outgoing_packets: self.outgoing_packets + packets,
                incoming_bytes: self.incoming_bytes,
                outgoing_bytes: self.outgoing_bytes + bytes,
                final_instant: self.final_instant,
            },
            TrafficDirection::Incoming => DataInfoModel {
                incoming_packets: self.incoming_packets + packets,
                outgoing_packets: self.outgoing_packets,
                incoming_bytes: self.incoming_bytes + bytes,
                outgoing_bytes: self.outgoing_bytes,
                final_instant: self.final_instant,
            },
        }
    }

    /// The record after merging a delta record `rhs` into it: field-wise sums
    /// of all four counters, and `rhs`'s timestamp taken verbatim (last
    /// writer wins, not a maximum).
    pub open spec fn after_merge(self, rhs: DataInfoModel) -> DataInfoModel {
        DataInfoModel {
            incoming_packets: self.incoming_packets + rhs.incoming_packets,
            outgoing_packets: self.outgoing_packets + rhs.outgoing_packets,
            incoming_bytes: self.incoming_bytes + rhs.incoming_bytes,
            outgoing_bytes: self.outgoing_bytes + rhs.outgoing_bytes,
            final_instant: rhs.final_instant,
        }
    }
}

/// Ascending order of two integers, as a std `Ordering`.
pub open spec fn ordering_of(x: int, y: int) -> Ordering {
    if x < y {
        Ordering::Less
    } else if x == y {
        Ordering::Equal
    } else {
        Ordering::Greater
    }
}

/// What `DataInfo::compare` returns, over models: ascending on the selected
/// magnitude, descending by swapping the operands, or — when no order is
/// requested — most recently updated first.
pub open spec fn compare_models(
    a: DataInfoModel,
    b: DataInfoModel,
    sort_type: SortType,
    chart_type: ChartType,
) -> Ordering {
    match sort_type {
        SortType::Ascending => ordering_of(
            a.magnitude(chart_type) as int,
            b.magnitude(chart_type) as int,
        ),
        SortType::Descending => ordering_of(
            b.magnitude(chart_type) as int,
            a.magnitude(chart_type) as int,
        ),
        SortType::Neutral => ordering_of(b.final_instant as int, a.final_instant as int),
    }
}

/// Amount of exchanged data (packets and bytes) incoming and outgoing, with
/// the tick of the latest occurrence.
///
/// The fields are private so that they are editable only via the provided
/// methods: that keeps the timestamp refresh semantics from being bypassed.
#[derive(Clone, Copy, Debug, PartialEq, Eq, Hash, Structural)]
pub struct DataInfo {
    /// Incoming packets.
    incoming_packets: u128,
    /// Outgoing packets.
    outgoing_packets: u128,
    /// Incoming bytes.
    incoming_bytes: u128,
    /// Outgoing bytes.
    outgoing_bytes: u128,
    /// Latest tick of occurrence.
    final_instant: u128,
}

impl View for DataInfo {
    type V = DataInfoModel;

    closed spec fn view(&self) -> DataInfoModel {
        DataInfoModel {
            incoming_packets: self.incoming_packets as nat,
            outgoing_packets: self.outgoing_packets as nat,
            incoming_bytes: self.incoming_bytes as nat,
            outgoing_bytes: self.outgoing_bytes as nat,
            final_instant: self.final_instant as nat,
        }
    }
}

impl DataInfo {
    /// A zeroed record stamped at `now`.
    pub fn new(now: u128) -> (r: Self)
        ensures
            r@ == DataInfoModel::fresh(now as nat),
            r@.fits(),
    {
        Self {
            incoming_packets: 0,
            outgoing_packets: 0,
            incoming_bytes: 0,
            outgoing_bytes: 0,
            final_instant: now,
        }
    }

    /// Count of packets observed inbound.
    pub fn incoming_packets(&self) -> (r: u128)
        ensures
            r as nat == self@.incoming_packets,
    {
        self.incoming_packets
    }

    /// Count of packets observed outbound.
    pub fn outgoing_packets(&self) -> (r: u128)
        ensures
            r as nat == self@.outgoing_packets,
    {
        self.outgoing_packets
    }

    /// Total byte volume inbound.
    pub fn incoming_bytes(&self) -> (r: u128)
        ensures
            r as nat == self@.incoming_bytes,
    {
        self.incoming_bytes
    }

    /// Total byte volume outbound.
    pub fn outgoing_bytes(&self) -> (r: u128)
        ensures
            r as nat == self@.outgoing_bytes,
    {
        self.outgoing_bytes
    }

    /// Tick of the most recent accounting event attributed to this record.
    pub fn final_instant(&self) -> (r: u128)
        ensures
            r as nat == self@.final_instant,
    {
        self.final_instant
    }

    /// Total packets over both directions.
    pub fn tot_packets(&self) -> (r: u128)
        requires
            self@.fits(),
        ensures
            r as nat == self@.tot_packets(),
    {
        self.incoming_packets + self.outgoing_packets
    }

    /// Total bytes over both directions.
    pub fn tot_bytes(&self) -> (r: u128)
        requires
            self@.fits(),
        ensures
            r as nat == self@.tot_bytes(),
    {
        self.incoming_bytes + self.outgoing_bytes
    }

    /// The magnitude the chart kind selects: the packet total or the byte
    /// total.
    pub fn tot_data(&self, chart_type: ChartType) -> (r: u128)
        requires
            self@.fits(),
        ensures
            r as nat == self@.magnitude(chart_type),
    {
        match chart_type {
            ChartType::Packets => self.tot_packets(),
            ChartType::Bytes => self.tot_bytes(),
        }
    }

    /// Accounts one packet of `bytes` bytes in `traffic_direction` and
    /// refreshes the timestamp to the current tick `now`. This is the
    /// per-event hot path.
    ///
    /// `now` comes from the caller's monotonic clock, so it is never earlier
    /// than any tick the record has already seen; the timestamp therefore
    /// only moves forward.
    pub fn add_packet(&mut self, bytes: u128, traffic_direction: TrafficDirection, now: u128)
        requires
            old(self)@.tot_packets() + 1 <= u128::MAX,
            old(self)@.tot_bytes() + bytes <= u128::MAX,
            old(self)@.final_instant <= now,
        ensures
            final(self)@ == old(self)@.after_single_packet(
                bytes as nat,
                traffic_direction,
                now as nat,
            ),
            final(self)@.final_instant == now as nat,
            old(self)@.final_instant <= final(self)@.final_instant,
            final(self)@.fits(),
    {
        match traffic_direction {
            TrafficDirection::Outgoing => {
                self.outgoing_packets = self.outgoing_packets + 1;
                self.outgoing_bytes = self.outgoing_bytes + bytes;
            },
            TrafficDirection::Incoming => {
                self.incoming_packets = self.incoming_packets + 1;
                self.incoming_bytes = self.incoming_bytes + bytes;
            },
        }
        self.final_instant = now;
    }

    /// Accounts a batch of `packets` packets totalling `bytes` bytes in
    /// `traffic_direction`. A batch does **not** refresh the timestamp: a
    /// backfill of buffered counts must not claim to be "now" unless the
    /// caller separately establishes recency.
    pub fn add_packets(&mut self, packets: u128, bytes: u128, traffic_direction: TrafficDirection)
        requires
            old(self)@.tot_packets() + packets <= u128::MAX,
            old(self)@.tot_bytes() + bytes <= u128::MAX,
        ensures
            final(self)@ == old(self)@.after_packet_batch(
                packets as nat,
                bytes as nat,
                traffic_direction,
            ),
            final(self)@.final_instant == old(self)@.final_instant,
            final(self)@.fits(),
    {
        match traffic_direction {
            TrafficDirection::Outgoing => {
                self.outgoing_packets = self.outgoing_packets + packets;
                self.outgoing_bytes = self.outgoing_bytes + bytes;
            },
            TrafficDirection::Incoming => {
                self.incoming_packets = self.incoming_packets + packets;
                self.incoming_bytes = self.incoming_bytes + bytes;
            },
        }
    }

    /// A record seeded with exactly one packet of `bytes` bytes in
    /// `traffic_direction`, stamped at the current tick `now`; the opposite
    /// side's counters are zero.
    pub fn new_with_first_packet(
        bytes: u128,
        traffic_direction: TrafficDirection,
        now: u128,
    ) -> (r: Self)
        ensures
            r@ == DataInfoModel::fresh(now as nat).after_single_packet(
                bytes as nat,
                traffic_direction,
                now as nat,
            ),
            r@.fits(),
    {
        match traffic_direction {
            TrafficDirection::Outgoing => Self {
                incoming_packets: 0,
                outgoing_packets: 1,
                incoming_bytes: 0,
                outgoing_bytes: bytes,
                final_instant: now,
            },
            TrafficDirection::Incoming => Self {
                incoming_packets: 1,
                outgoing_packets: 0,
                incoming_bytes: bytes,
                outgoing_bytes: 0,
                final_instant: now,
            },
        }
    }

    /// Merges the delta record `rhs` into this one: all four counters are
    /// summed field-wise, and `rhs`'s timestamp overwrites this record's
    /// unconditionally — the delta's timestamp is authoritative, even when it
    /// is earlier.
    pub fn refresh(&mut self, rhs: Self)
        requires
            old(self)@.tot_packets() + rhs@.tot_packets() <= u128::MAX,
            old(self)@.tot_bytes() + rhs@.tot_bytes() <= u128::MAX,
        ensures
            final(self)@ == old(self)@.after_merge(rhs@),
            final(self)@.final_instant == rhs@.final_instant,
            final(self)@.fits(),
    {
        self.incoming_packets = self.incoming_packets + rhs.incoming_packets;
        self.outgoing_packets = self.outgoing_packets + rhs.outgoing_packets;
        self.incoming_bytes = self.incoming_bytes + rhs.incoming_bytes;
        self.outgoing_bytes = self.outgoing_bytes + rhs.outgoing_bytes;
        self.final_instant = rhs.final_instant;
    }

    /// Orders this record against `other` for display: ascending or
    /// descending on the magnitude `chart_type` selects, or — under the
    /// neutral order — most recently updated first.
    pub fn compare(&self, other: &Self, sort_type: SortType, chart_type: ChartType) -> (r:
        Ordering)
        requires
            self@.fits(),
            other@.fits(),
        ensures
            r == compare_models(self@, other@, sort_type, chart_type),
    {
        match chart_type {
            ChartType::Packets => match sort_type {
                SortType::Ascending => cmp_u128(self.tot_packets(), other.tot_packets()),
                SortType::Descending => cmp_u128(other.tot_packets(), self.tot_packets()),
                SortType::Neutral => cmp_u128(other.final_instant, self.final_instant),
            },
            ChartType::Bytes => match sort_type {
                SortType::Ascending => cmp_u128(self.tot_bytes(), other.tot_bytes()),
                SortType::Descending => cmp_u128(other.tot_bytes(), self.tot_bytes()),
                SortType::Neutral => cmp_u128(other.final_instant, self.final_instant),
            },
        }
    }

    /// A record with the given counters, stamped at tick `now`; intended for
    /// building fixtures in tests.
    pub fn new_for_tests(
        incoming_packets: u128,
        outgoing_packets: u128,
        incoming_bytes: u128,
        outgoing_bytes: u128,
        now: u128,
    ) -> (r: Self)
        ensures
            r@.incoming_packets == incoming_packets as nat,
            r@.outgoing_packets == outgoing_packets as nat,
            r@.incoming_bytes == incoming_bytes as nat,
            r@.outgoing_bytes == outgoing_bytes as nat,
            r@.final_instant == now as nat,
    {
        Self {
            incoming_packets,
            outgoing_packets,
            incoming_bytes,
            outgoing_bytes,
            final_instant: now,
        }
    }
}

impl Default for DataInfo {
    /// A zeroed record stamped at tick zero, the origin of the caller's
    /// monotonic scale.
    fn default() -> (r: Self)
        ensures
            r@ == DataInfoModel::fresh(0),
            r@.fits(),
    {
        Self::new(0)
    }
}

/// Ascending comparison of two ticks or totals, as a std `Ordering`.
fn cmp_u128(x: u128, y: u128) -> (r: Ordering)
    ensures
        r == ordering_of(x as int, y as int),
{
    if x < y {
        Ordering::Less
    } else if x == y {
        Ordering::Equal
    } else {
        Ordering::Greater
    }
}

} // verus!
