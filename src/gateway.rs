//! Decisions of one remote client's connection: what an inbound text message
//! does, which commands reach the actuator cell, what the connection's end
//! resets, and the status record pushed to the client.

use crate::actuator::{neutral, Actuator, ActuatorData};
use crate::cell::{next_version, BroadcastCell};
use crate::pilot::{is_pilot, next_holder, AuthorityEvent, PilotAuthority, NO_PILOT};
use crate::sensors::SensorsData;
use vstd::prelude::*;

verus! {

/// What an inbound text message turned out to be.
#[derive(Clone, Copy, Debug, PartialEq, Eq, Structural)]
pub enum Inbound {
    /// The secret token: the sender is now the pilot.
    Claimed,
    /// A message from the pilot, to be read as a drive command.
    Command,
    /// A message from a client that is not the pilot: dropped.
    Unauthorized,
}

/// Sorts an inbound text message from client `client_id`. The secret token
/// makes the sender pilot; any other text is a command candidate only when
/// the sender is the pilot. The "no pilot" value is never a pilot, so a
/// sender with that id never gets to command.
pub fn on_text_message(
    auth: &mut PilotAuthority,
    client_id: u32,
    msg: &String,
    secret: &String,
) -> (r: Inbound)
    ensures
        msg@ == secret@ ==> r == Inbound::Claimed && final(auth).holder() == next_holder(
            old(auth).holder(),
            AuthorityEvent::Claim(client_id),
        ),
        msg@ != secret@ ==> *final(auth) == *old(auth) && r == (if is_pilot(old(auth).holder(), client_id) {
            Inbound::Command
        } else {
            Inbound::Unauthorized
        }),
{
    if msg.eq(secret) {
        auth.claim(client_id);
        Inbound::Claimed
    } else if auth.is_pilot(client_id) {
        Inbound::Command
    } else {
        Inbound::Unauthorized
    }
}

/// Publishes `cmd` to the actuator cell if, and only if, `client_id` is the
/// pilot (never when it is the "no pilot" value); says whether it did.
pub fn apply_command(
    auth: &PilotAuthority,
    actuator: &mut BroadcastCell<ActuatorData>,
    client_id: u32,
    cmd: ActuatorData,
) -> (applied: bool)
    ensures
        applied == is_pilot(auth.holder(), client_id),
        applied ==> final(actuator).value() == cmd && final(actuator).version() == next_version(
            old(actuator).version(),
        ),
        !applied ==> *final(actuator) == *old(actuator),
{
    if auth.is_pilot(client_id) {
        actuator.publish(cmd);
        true
    } else {
        false
    }
}

/// End of client `client_id`'s connection: if it was the pilot, the
/// authority is cleared and the neutral command is published, whatever was
/// commanded before. Says whether that happened.
pub fn on_gateway_close(
    auth: &mut PilotAuthority,
    actuator: &mut BroadcastCell<ActuatorData>,
    client_id: u32,
) -> (was_pilot: bool)
    ensures
        was_pilot == is_pilot(old(auth).holder(), client_id),
        was_pilot ==> final(auth).holder() == NO_PILOT && final(actuator).value() == neutral(),
        !was_pilot ==> *final(auth) == *old(auth) && *final(actuator) == *old(actuator),
{
    if auth.is_pilot(client_id) {
        auth.release_if_holder(client_id);
        actuator.publish(Actuator::empty());
        true
    } else {
        false
    }
}

/// The status pushed to a client: who it is, who the pilot is, the latest
/// telemetry.
#[derive(Clone, Copy, Debug, PartialEq, Eq, Structural)]
pub struct RCStatus {
    pub client_id: u32,
    pub pilot_id: u32,
    pub sensors: SensorsData,
}

/// The status record for client `client_id` at this moment.
pub fn status_for(
    auth: &PilotAuthority,
    sensors: &BroadcastCell<SensorsData>,
    client_id: u32,
) -> (r: RCStatus)
    ensures
        r == (RCStatus { client_id, pilot_id: auth.holder(), sensors: sensors.value() }),
{
    RCStatus { client_id, pilot_id: auth.current(), sensors: *sensors.latest() }
}

} // verus!
