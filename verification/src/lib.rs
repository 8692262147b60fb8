//! A minimal security monitoring gateway core: an arm-state guard that gates
//! whether submitted security events are forwarded to a durable event sink,
//! and a dispatcher that turns commands and events into notifications.
mod clock;
mod dispatch;
mod messages;
mod state;

pub use dispatch::EventDisposition;
pub use dispatch::command_recognized;
pub use dispatch::command_reply;
pub use dispatch::complete_persist;
pub use dispatch::disarmed_reply;
pub use dispatch::dispatch_event;
pub use dispatch::event_measurement;
pub use dispatch::handle_command;
pub use dispatch::lemma_command_idempotent;
pub use dispatch::lemma_unrecognized_preserves_state;
pub use dispatch::next_armed;
pub use dispatch::recorded_reply;
pub use messages::EventRecord;
pub use messages::Notification;
pub use messages::SecurityCommand;
pub use messages::SecurityEvent;
pub use messages::ServiceError;
pub use messages::error_message;
pub use state::ArmState;
