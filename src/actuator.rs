//! Drive commands sent to the vehicle, and their fixed wire layout.
//!
//! Each real value is held as the bit pattern of an IEEE-754 double
//! (`f64::to_bits`) and written as its eight little-endian bytes. The bit
//! pattern 0 is +0.0.

use crate::wire::{push_u64_le, read_u64_le, DecodeError};
use vstd::bytes::*;
use vstd::prelude::*;

verus! {

/// Encoded size of a drive command.
pub const ACTUATOR_LEN: usize = 16;

/// Motor command: the speed.
#[derive(Clone, Copy, Debug, PartialEq, Eq, Structural)]
pub struct MotorData {
    pub speed: u64,
}

/// Steering command: -1.0 full left, 0.0 centre, 1.0 full right.
#[derive(Clone, Copy, Debug, PartialEq, Eq, Structural)]
pub struct SteeringData {
    pub steer: u64,
}

/// One drive command.
#[derive(Clone, Copy, Debug, PartialEq, Eq, Structural)]
pub struct ActuatorData {
    pub motor: MotorData,
    pub steering: SteeringData,
}

/// The neutral command: speed 0, steering centred.
pub open spec fn neutral() -> ActuatorData {
    ActuatorData { motor: MotorData { speed: 0 }, steering: SteeringData { steer: 0 } }
}

/// The wire image of a drive command: speed, then steering.
pub open spec fn actuator_bytes(d: ActuatorData) -> Seq<u8> {
    spec_u64_to_le_bytes(d.motor.speed) + spec_u64_to_le_bytes(d.steering.steer)
}

/// What decoding `s` gives: a command when `s` holds at least `ACTUATOR_LEN`
/// bytes, else how many bytes are missing.
pub open spec fn actuator_decoded(s: Seq<u8>) -> Result<ActuatorData, DecodeError> {
    if s.len() < ACTUATOR_LEN {
        Err(DecodeError::UnexpectedEnd { additional: (ACTUATOR_LEN - s.len()) as usize })
    } else {
        Ok(
            ActuatorData {
                motor: MotorData { speed: spec_u64_from_le_bytes(s.subrange(0, 8)) },
                steering: SteeringData { steer: spec_u64_from_le_bytes(s.subrange(8, 16)) },
            },
        )
    }
}

/// Every drive command has an image of exactly `ACTUATOR_LEN` bytes, and
/// decoding that image gives the command back, field for field.
pub proof fn lemma_actuator_round_trip(d: ActuatorData)
    ensures
        actuator_bytes(d).len() == ACTUATOR_LEN,
        actuator_decoded(actuator_bytes(d)) == Ok::<ActuatorData, DecodeError>(d),
{
    lemma_auto_spec_u64_to_from_le_bytes();
    let s = actuator_bytes(d);
    assert(s.subrange(0, 8) =~= spec_u64_to_le_bytes(d.motor.speed));
    assert(s.subrange(8, 16) =~= spec_u64_to_le_bytes(d.steering.steer));
}

/// The wire image of a drive command.
pub fn encode_actuator(d: &ActuatorData) -> (r: Vec<u8>)
    ensures
        r@ == actuator_bytes(*d),
        r@.len() == ACTUATOR_LEN,
{
    proof {
        lemma_actuator_round_trip(*d);
    }
    let mut out: Vec<u8> = Vec::new();
    push_u64_le(&mut out, d.motor.speed);
    push_u64_le(&mut out, d.steering.steer);
    assert(out@ =~= actuator_bytes(*d));
    out
}

/// Decodes a drive command from the first `ACTUATOR_LEN` bytes of `b`; fails
/// when `b` is shorter.
pub fn decode_actuator(b: &[u8]) -> (r: Result<ActuatorData, DecodeError>)
    ensures
        r == actuator_decoded(b@),
{
    let len = b.len();
    if len < ACTUATOR_LEN {
        return Err(DecodeError::UnexpectedEnd { additional: ACTUATOR_LEN - len });
    }
    let speed = read_u64_le(b, 0);
    let steer = read_u64_le(b, 8);
    Ok(ActuatorData { motor: MotorData { speed }, steering: SteeringData { steer } })
}

/// Maker of the stopped motor command.
pub struct Motor {}

impl Motor {
    pub fn empty() -> (r: MotorData)
        ensures
            r == neutral().motor,
    {
        MotorData { speed: 0 }
    }
}

/// Maker of the centred steering command.
pub struct Steering {}

impl Steering {
    pub fn empty() -> (r: SteeringData)
        ensures
            r == neutral().steering,
    {
        SteeringData { steer: 0 }
    }
}

/// Maker of the neutral drive command.
pub struct Actuator {}

impl Actuator {
    pub fn empty() -> (r: ActuatorData)
        ensures
            r == neutral(),
    {
        ActuatorData { motor: Motor::empty(), steering: Steering::empty() }
    }
}

} // verus!
