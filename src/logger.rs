//! Log message records about monitored objects.
use crate::enums::LoggedType;
use vstd::prelude::*;

verus! {

/// Monitored object checkpoint log message.
pub struct MonitorableCheckpoint {
    /// Message identifier.
    pub uid: uuid::Uuid,
    /// Checkpoint message.
    pub checkpoint: String,
}

/// Monitored object warning log message.
pub struct MonitorableWarning {
    /// Message identifier.
    pub uid: uuid::Uuid,
    /// Warning message.
    pub warning: String,
}

/// Monitored object mapped log message.
pub struct MonitorableMapped {
    /// Message identifier.
    pub uid: uuid::Uuid,
}

/// Monitored object unmapped log message.
pub struct MonitorableUnmapped {
    /// Message identifier.
    pub uid: uuid::Uuid,
}

/// Monitored object constructed log message.
pub struct MonitorableConstructed {
    /// Message identifier.
    pub uid: uuid::Uuid,
}

/// Monitored object destructed log message.
pub struct MonitorableDestructed {
    /// Message identifier.
    pub uid: uuid::Uuid,
}

/// Monitored object changed log message.
pub struct MonitorableChanged<T> {
    /// Message identifier.
    pub uid: uuid::Uuid,
    /// Logged property name.
    pub name: String,
    /// Logged property type.
    pub logged_type: LoggedType,
    /// Logged property value.
    pub value: T,
}

} // verus!
