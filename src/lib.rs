//! Verified core of a sensor-data analyzer: partitions point clouds into
//! bounded patches, plans time-windowed extraction, schedules store work
//! under a connection bound, manages the lifecycle of the store's tables
//! and rebuilds point columns from retrieved rows.
pub mod dispatch;
pub mod lifecycle;
pub mod partition;
pub mod plan;
pub mod retrieval;
pub mod schema;
pub mod sphere;
pub mod statements;
pub mod text;
pub mod timeline;
pub mod upload;
