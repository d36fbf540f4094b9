//! Directional traffic accounting: a value type that accumulates packet and
//! byte counts separately for incoming and outgoing traffic, tracks the
//! instant of the most recent accounting event on a caller-supplied monotonic
//! tick scale, and orders records for reporting by magnitude or by recency.

pub mod chart_type;
pub mod data_info;
pub mod laws;
pub mod sort_type;
pub mod traffic_direction;

pub use chart_type::ChartType;
pub use data_info::DataInfo;
pub use sort_type::SortType;
pub use traffic_direction::TrafficDirection;
