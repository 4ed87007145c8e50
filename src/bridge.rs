//! Telemetry bridge: each cycle takes one fixed-size frame from the vehicle,
//! publishes it when it decodes, and answers with the latest drive command.

use crate::actuator::{actuator_bytes, encode_actuator, ActuatorData};
use crate::cell::{next_version, BroadcastCell};
use crate::sensors::{
    decode_sensors, empty_sensors, encode_sensors, sensors_decoded, Sensors, SensorsData,
    SENSORS_LEN,
};
use vstd::prelude::*;

verus! {

/// How many bytes a telemetry frame takes on the wire: the size of the
/// encoded empty frame.
pub fn sensor_frame_len() -> (r: usize)
    ensures
        r == SENSORS_LEN,
{
    encode_sensors(&Sensors::empty()).len()
}

/// The bytes that carry the actuator cell's latest command to the vehicle.
pub fn command_frame(actuator: &BroadcastCell<ActuatorData>) -> (r: Vec<u8>)
    ensures
        r@ == actuator_bytes(actuator.value()),
{
    encode_actuator(actuator.latest())
}

/// One cycle on a frame read from the vehicle. A frame that decodes is
/// published and answered with the latest command; one that does not leaves
/// the sensor cell as it was and gets no answer, and the cycle goes on.
pub fn on_sensor_frame(
    sensors: &mut BroadcastCell<SensorsData>,
    actuator: &BroadcastCell<ActuatorData>,
    frame: &[u8],
) -> (reply: Option<Vec<u8>>)
    ensures
        sensors_decoded(frame@) matches Ok(d) ==> {
            &&& final(sensors).value() == d
            &&& final(sensors).version() == next_version(old(sensors).version())
            &&& reply matches Some(b) && b@ == actuator_bytes(actuator.value())
        },
        sensors_decoded(frame@) is Err ==> reply is None && *final(sensors) == *old(sensors),
{
    match decode_sensors(frame) {
        Ok(d) => {
            sensors.publish(d);
            Some(command_frame(actuator))
        },
        Err(_) => None,
    }
}

/// The vehicle is gone: the sensor cell falls back to the empty frame.
pub fn on_vehicle_disconnect(sensors: &mut BroadcastCell<SensorsData>)
    ensures
        final(sensors).value() == empty_sensors(),
        final(sensors).version() == next_version(old(sensors).version()),
{
    sensors.publish(Sensors::empty());
}

} // verus!
