//! A playback handle that spatializes each queued source from a movable emitter
//! and two movable ears.

pub mod position;
pub mod timer;
pub mod source;
pub mod sink;
pub mod spatial_sink;

pub use position::{PositionTriple, PositionWrite, Vec3};
pub use sink::{OutputStreamHandle, PlayError, Sink, UNITY};
pub use source::SpatialSource;
pub use spatial_sink::SpatialSink;
pub use timer::{PeriodicTimer, REFRESH_INTERVAL_MS};
