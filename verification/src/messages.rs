//! The transient request and response values that cross the gateway's
//! boundary, the record shape handed to the event sink, and the gateway's
//! error taxonomy.
use vstd::prelude::*;

verus! {

/// An inbound security event. `device_id` identifies the originating
/// sensor, `event_type` is a free-form category such as "motion", and
/// `user_id` may be empty. Events are consumed once: either persisted or
/// discarded.
#[derive(Debug)]
pub struct SecurityEvent {
    pub device_id: String,
    pub user_id: String,
    pub event_type: String,
}

/// An inbound control command. The recognized values of `command` are
/// exactly "arm" and "disarm"; anything else is invalid.
#[derive(Debug)]
pub struct SecurityCommand {
    pub command: String,
}

/// The uniform response envelope for both operations: the originating
/// user (or empty for system-level actions) and a human-readable outcome
/// description.
#[derive(Debug)]
pub struct Notification {
    pub user_id: String,
    pub message: String,
}

/// The record written to the external sink for a qualifying event: a fixed
/// measurement name, the sensor's identity as a tag, the event category as
/// a field, and the server's wall clock at write time in milliseconds since
/// the Unix epoch. The caller's `user_id` is echoed in the response but not
/// persisted.
#[derive(Debug)]
pub struct EventRecord {
    pub measurement: String,
    pub device_id: String,
    pub event_type: String,
    pub time_millis: i64,
}

/// The two ways a request can fail. Neither is fatal to the process and
/// neither changes the arm state.
#[derive(Debug)]
pub enum ServiceError {
    /// The command string is outside {"arm", "disarm"}.
    InvalidCommand,
    /// The sink rejected the write or was unreachable; the variant carries
    /// the underlying cause description. The event is dropped, not retried.
    PersistenceFailure(String),
}

/// The description that `ServiceError::message` gives each failure.
pub open spec fn error_message(e: ServiceError) -> Seq<char> {
    match e {
        ServiceError::InvalidCommand => "Invalid command"@,
        ServiceError::PersistenceFailure(cause) => "Failed to write to InfluxDB: "@ + cause@,
    }
}

impl ServiceError {
    /// The human-readable cause string surfaced to the caller.
    pub fn message(&self) -> (m: String)
        ensures
            m@ == error_message(*self),
    {
        match self {
            ServiceError::InvalidCommand => String::from_str("Invalid command"),
            ServiceError::PersistenceFailure(cause) => String::from_str(
                "Failed to write to InfluxDB: ",
            ).concat(cause.as_str()),
        }
    }
}

} // verus!
