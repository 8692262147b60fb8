//! The event dispatcher: turns control commands into arm-state transitions
//! and inbound events into either a sink record or an "ignored" response,
//! according to the current arm state.
//!
//! The sink write itself is an out-of-process call and happens outside this
//! library; `dispatch_event` decides whether a write is due and builds the
//! record, and `complete_persist` turns the sink's outcome into the caller's
//! response.
use vstd::prelude::*;

use crate::clock;
use crate::messages::{EventRecord, Notification, SecurityCommand, SecurityEvent, ServiceError};
use crate::state::ArmState;

verus! {

/// Whether a command string is one of the two recognized commands.
pub open spec fn command_recognized(cmd: Seq<char>) -> bool {
    cmd == "arm"@ || cmd == "disarm"@
}

/// The arm state after a command is processed: "arm" arms, "disarm"
/// disarms, and anything else leaves the state as it was. This is the
/// system's entire state machine.
pub open spec fn next_armed(armed: bool, cmd: Seq<char>) -> bool {
    if cmd == "arm"@ {
        true
    } else if cmd == "disarm"@ {
        false
    } else {
        armed
    }
}

/// The notification message for a recognized command.
pub open spec fn command_reply(cmd: Seq<char>) -> Seq<char> {
    if cmd == "arm"@ {
        "Security system armed."@
    } else if cmd == "disarm"@ {
        "Security system disarmed."@
    } else {
        Seq::<char>::empty()
    }
}

/// The notification message for an event submitted while disarmed.
pub open spec fn disarmed_reply() -> Seq<char> {
    "System is disarmed, event ignored."@
}

/// The notification message for an event that was persisted.
pub open spec fn recorded_reply(event_type: Seq<char>) -> Seq<char> {
    "Security event recorded: "@ + event_type
}

/// The fixed measurement name identifying the event category stream.
pub open spec fn event_measurement() -> Seq<char> {
    "security_events"@
}

/// Processes a control command against the arm-state guard.
///
/// "arm" arms the system, "disarm" disarms it, and each returns a
/// system-level notification (empty `user_id`) saying so. Any other
/// command is rejected with `InvalidCommand` and the guard is left
/// unmodified. The external sink is never involved.
pub fn handle_command(guard: &mut ArmState, cmd: &SecurityCommand) -> (r: Result<
    Notification,
    ServiceError,
>)
    ensures
        final(guard)@ == next_armed(old(guard)@, cmd.command@),
        r is Ok <==> command_recognized(cmd.command@),
        r matches Ok(n) ==> n.user_id@ == Seq::<char>::empty() && n.message@ == command_reply(
            cmd.command@,
        ),
        r matches Err(e) ==> e is InvalidCommand,
{
    let arm = String::from_str("arm");
    let disarm = String::from_str("disarm");
    if cmd.command == arm {
        guard.set(true);
        Ok(
            Notification {
                user_id: String::new(),
                message: String::from_str("Security system armed."),
            },
        )
    } else if cmd.command == disarm {
        guard.set(false);
        Ok(
            Notification {
                user_id: String::new(),
                message: String::from_str("Security system disarmed."),
            },
        )
    } else {
        Err(ServiceError::InvalidCommand)
    }
}

/// What the dispatcher decides to do with an inbound event: answer at once
/// that the system is disarmed, or hand a record to the sink.
pub enum EventDisposition {
    /// The system is disarmed; nothing is written and this notification is
    /// the response.
    Ignored(Notification),
    /// The system is armed; this record is due to be written to the sink,
    /// exactly once.
    Persist(EventRecord),
}

/// Gates an inbound event on the current arm state.
///
/// Disarmed: no write is due; the response echoes the caller's `user_id`
/// and says the event was ignored. Armed: exactly one record is due, whose
/// tag and field are taken verbatim from the event and whose timestamp is
/// the server's wall clock at this moment. The guard itself is never
/// changed by an event.
pub fn dispatch_event(guard: &ArmState, event: &SecurityEvent) -> (r: EventDisposition)
    ensures
        (r is Persist) == guard@,
        r matches EventDisposition::Persist(rec) ==> rec.measurement@ == event_measurement()
            && rec.device_id@ == event.device_id@ && rec.event_type@ == event.event_type@,
        r matches EventDisposition::Ignored(n) ==> n.user_id@ == event.user_id@ && n.message@
            == disarmed_reply(),
{
    if guard.read() {
        EventDisposition::Persist(
            EventRecord {
                measurement: String::from_str("security_events"),
                device_id: event.device_id.clone(),
                event_type: event.event_type.clone(),
                time_millis: clock::utc_now_millis(),
            },
        )
    } else {
        EventDisposition::Ignored(
            Notification {
                user_id: event.user_id.clone(),
                message: String::from_str("System is disarmed, event ignored."),
            },
        )
    }
}

/// Turns the sink's outcome for a persisted record into the caller's
/// response.
///
/// On success the response echoes the event's `user_id` and names the
/// recorded event type; on failure the whole operation fails with a
/// `PersistenceFailure` carrying the sink's cause description, and the
/// event is dropped. The outcome of one call leaves no trace: a later
/// submission starts from the arm state alone.
pub fn complete_persist(event: &SecurityEvent, write_result: Result<(), String>) -> (r: Result<
    Notification,
    ServiceError,
>)
    ensures
        r is Ok <==> write_result is Ok,
        r matches Ok(n) ==> n.user_id@ == event.user_id@ && n.message@ == recorded_reply(
            event.event_type@,
        ),
        write_result matches Err(cause) ==> r matches Err(e) && e matches
            ServiceError::PersistenceFailure(c) && c@ == cause@,
{
    match write_result {
        Ok(()) => Ok(
            Notification {
                user_id: event.user_id.clone(),
                message: String::from_str("Security event recorded: ").concat(
                    event.event_type.as_str(),
                ),
            },
        ),
        Err(cause) => Err(ServiceError::PersistenceFailure(cause)),
    }
}

/// Recognized commands are idempotent: issuing the same command twice in
/// sequence leaves the arm state exactly where one issue leaves it, with
/// no error and no toggle. In particular two "arm" commands leave the
/// system armed.
pub proof fn lemma_command_idempotent(armed: bool, cmd: Seq<char>)
    requires
        command_recognized(cmd),
    ensures
        next_armed(next_armed(armed, cmd), cmd) == next_armed(armed, cmd),
        cmd == "arm"@ ==> next_armed(next_armed(armed, cmd), cmd),
{
}

/// An unrecognized command is rejected without effect: whatever the arm
/// state was before, it is the same after.
pub proof fn lemma_unrecognized_preserves_state(armed: bool, cmd: Seq<char>)
    requires
        !command_recognized(cmd),
    ensures
        next_armed(armed, cmd) == armed,
{
}

} // verus!
