//! Enumerations shared by log messages and monitored objects.
use vstd::prelude::*;

verus! {

/// Event phases.
#[derive(Clone, Copy, Debug, PartialEq, Eq, Structural)]
pub enum EventPhase {
    NONE,
    CAPTURING,
    TARGET,
    BUBBLING,
}

/// Logging levels, from the quietest to the most severe.
#[derive(Clone, Copy, Debug, PartialEq, Eq, Structural)]
pub enum LogLevel {
    NONE,
    TRACE,
    DEBUG,
    INFO,
    WARN,
    ERROR,
    FATAL,
}

/// Logged message types.
#[allow(non_camel_case_types)]
#[derive(Clone, Copy, Debug, PartialEq, Eq, Structural)]
pub enum LoggedType {
    ERROR,
    UNDEFINED,
    SYMBOL,
    BOOLEAN,
    NUMBER,
    BIGINT,
    STRING,
    FUNCTION,
    OBJECT,
    DATE,
    // trace
    MONITORABLE_CHECKPOINT,
    // debug
    MONITORABLE_CHANGED,
    MONITORABLE_MAPPED,
    MONITORABLE_UNMAPPED,
    LISTENABLE_MAPPED,
    LISTENABLE_UNMAPPED,
    LISTENERS_MAPPED,
    LISTENERS_UNMAPPED,
    LISTENER_ADDED,
    LISTENER_UPDATED,
    LISTENER_REMOVED,
    EVENT_STOPPED,
    EVENT_PREVENTED,
    // info
    MONITORABLE_CONSTRUCTED,
    MONITORABLE_DESTRUCTED,
    EVENT_CONSTRUCTED,
    INSERTED,
    REPLACED,
    REMOVED,
    // warn
    MONITORABLE_WARNING,
}

/// Life-cycle states of a monitored object. Each state is one bit of a flag
/// set, given by [`MonitorableState::bits`].
#[derive(Clone, Copy, Debug, PartialEq, Eq, Structural)]
pub enum MonitorableState {
    CONSTRUCTED,
    DESTRUCTING,
    DESTRUCTED,
}

impl MonitorableState {
    /// The flag bit of each state.
    pub open spec fn spec_bits(self) -> u8 {
        match self {
            MonitorableState::CONSTRUCTED => 0x01,
            MonitorableState::DESTRUCTING => 0x02,
            MonitorableState::DESTRUCTED => 0x04,
        }
    }

    /// The flag bit of this state: `0x01`, `0x02` or `0x04`.
    pub fn bits(self) -> (r: u8)
        ensures
            r == self.spec_bits(),
    {
        match self {
            MonitorableState::CONSTRUCTED => 0x01,
            MonitorableState::DESTRUCTING => 0x02,
            MonitorableState::DESTRUCTED => 0x04,
        }
    }
}

} // verus!
