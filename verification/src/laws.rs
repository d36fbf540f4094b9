//! Properties of the accounting record that hold for all inputs, stated and
//! proved once here.

use vstd::prelude::*;

use crate::chart_type::ChartType;
use crate::data_info::DataInfoModel;
use crate::data_info::compare_models;
use crate::sort_type::SortType;
use crate::traffic_direction::TrafficDirection;
use core::cmp::Ordering;

verus! {

/// One call of a counter-accumulating operation: a single accounted packet
/// (which also stamps the record) or a recency-invisible batch.
pub ghost enum AccountingEvent {
    /// One packet, as accounted by `DataInfo::add_packet`.
    SinglePacket { bytes: nat, direction: TrafficDirection, now: nat },
    /// A batch, as accounted by `DataInfo::add_packets`.
    PacketBatch { packets: nat, bytes: nat, direction: TrafficDirection },
}

impl AccountingEvent {
    /// How many packets the event accounts.
    pub open spec fn packets(self) -> nat {
        match self {
            AccountingEvent::SinglePacket { .. } => 1,
            AccountingEvent::PacketBatch { packets, .. } => packets,
        }
    }

    /// How many bytes the event accounts.
    pub open spec fn bytes(self) -> nat {
        match self {
            AccountingEvent::SinglePacket { bytes, .. } => bytes,
            AccountingEvent::PacketBatch { bytes, .. } => bytes,
        }
    }
}

/// The record after one accounting event.
pub open spec fn apply_event(m: DataInfoModel, e: AccountingEvent) -> DataInfoModel {
    match e {
        AccountingEvent::SinglePacket { bytes, direction, now } => m.after_single_packet(
            bytes,
            direction,
            now,
        ),
        AccountingEvent::PacketBatch { packets, bytes, direction } => m.after_packet_batch(
            packets,
            bytes,
            direction,
        ),
    }
}

/// The record after a sequence of accounting events, oldest first.
pub open spec fn apply_events(m: DataInfoModel, events: Seq<AccountingEvent>) -> DataInfoModel
    decreases events.len(),
{
    if events.len() == 0 {
        m
    } else {
        apply_events(apply_event(m, events[0]), events.drop_first())
    }
}

/// Total packets accounted by a sequence of events.
pub open spec fn sum_packets(events: Seq<AccountingEvent>) -> nat
    decreases events.len(),
{
    if events.len() == 0 {
        0
    } else {
        events[0].packets() + sum_packets(events.drop_first())
    }
}

/// Total bytes accounted by a sequence of events.
pub open spec fn sum_bytes(events: Seq<AccountingEvent>) -> nat
    decreases events.len(),
{
    if events.len() == 0 {
        0
    } else {
        events[0].bytes() + sum_bytes(events.drop_first())
    }
}

/// Counters are exact sums, never lossy: after any sequence of
/// `add_packet`/`add_packets` calls, the packet total has grown by exactly
/// the calls' packet counts and the byte total by exactly their byte counts.
pub proof fn lemma_counters_are_exact_sums(m: DataInfoModel, events: Seq<AccountingEvent>)
    ensures
        apply_events(m, events).tot_packets() == m.tot_packets() + sum_packets(events),
        apply_events(m, events).tot_bytes() == m.tot_bytes() + sum_bytes(events),
    decreases events.len(),
{
    if events.len() > 0 {
        lemma_counters_are_exact_sums(apply_event(m, events[0]), events.drop_first());
    }
}

/// Each of the four directional counters is monotonically non-decreasing
/// under every accounting event: no event ever shrinks a counter.
pub proof fn lemma_counters_monotonic(m: DataInfoModel, e: AccountingEvent)
    ensures
        m.incoming_packets <= apply_event(m, e).incoming_packets,
        m.outgoing_packets <= apply_event(m, e).outgoing_packets,
        m.incoming_bytes <= apply_event(m, e).incoming_bytes,
        m.outgoing_bytes <= apply_event(m, e).outgoing_bytes,
{
}

/// The opposite of an ordering outcome.
pub open spec fn opposite(o: Ordering) -> Ordering {
    match o {
        Ordering::Less => Ordering::Greater,
        Ordering::Equal => Ordering::Equal,
        Ordering::Greater => Ordering::Less,
    }
}

/// The comparator is antisymmetric: swapping the two records yields the
/// opposite outcome (or `Equal` both ways), for every combination of sort
/// order and chart kind.
pub proof fn lemma_compare_antisymmetric(
    a: DataInfoModel,
    b: DataInfoModel,
    sort_type: SortType,
    chart_type: ChartType,
)
    ensures
        compare_models(a, b, sort_type, chart_type) == opposite(
            compare_models(b, a, sort_type, chart_type),
        ),
{
}

/// A record never orders strictly against itself: compared with itself it is
/// `Equal`, under every sort order and chart kind.
pub proof fn lemma_compare_equal_on_self(
    a: DataInfoModel,
    sort_type: SortType,
    chart_type: ChartType,
)
    ensures
        compare_models(a, a, sort_type, chart_type) == Ordering::Equal,
{
}

/// The comparator is transitive in its strict outcome: whatever sorts before
/// `b` sorts before everything `b` sorts before, for any fixed sort order and
/// chart kind.
pub proof fn lemma_compare_transitive(
    a: DataInfoModel,
    b: DataInfoModel,
    c: DataInfoModel,
    sort_type: SortType,
    chart_type: ChartType,
)
    requires
        compare_models(a, b, sort_type, chart_type) == Ordering::Less,
        compare_models(b, c, sort_type, chart_type) == Ordering::Less,
    ensures
        compare_models(a, c, sort_type, chart_type) == Ordering::Less,
{
}

} // verus!
