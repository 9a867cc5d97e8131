//! The wire protocol spoken with the motor driver firmware.
//!
//! A command frame is an opcode byte, an actuator-id byte, and then either a
//! little-endian 16-bit speed (`SetSpeed`) or a one-byte direction flag
//! (`SetDirection`). A telemetry frame is eight bytes holding a little-endian
//! IEEE-754 double; the library carries it as its 64-bit pattern.

use vstd::prelude::*;

verus! {

/// Opcode of a `SetSpeed` frame.
pub const OPCODE_SET_SPEED: u8 = 0x01;

/// Opcode of a `SetDirection` frame.
pub const OPCODE_SET_DIRECTION: u8 = 0x02;

/// Length in bytes of a `SetSpeed` frame.
pub const SET_SPEED_FRAME_LEN: usize = 4;

/// Length in bytes of a `SetDirection` frame.
pub const SET_DIRECTION_FRAME_LEN: usize = 3;

/// Length in bytes of a telemetry frame.
pub const TELEMETRY_FRAME_LEN: usize = 8;

/// One of the two motor channels of the driver.
#[derive(Clone, Copy, Debug, PartialEq, Eq, Structural)]
pub enum Actuator {
    /// The primary channel.
    M1,
    /// The secondary channel.
    M2,
}

/// Orientation of motor rotation.
#[derive(Clone, Copy, Debug, PartialEq, Eq, Structural)]
pub enum Direction {
    Forward,
    Backward,
}

/// A command for the motor driver.
#[derive(Clone, Copy, Debug, PartialEq, Eq, Structural)]
pub enum ActuatorCommand {
    SetSpeed(u16, Actuator),
    SetDirection(Direction, Actuator),
}

/// The id byte that names an actuator on the wire.
pub open spec fn actuator_id(a: Actuator) -> u8 {
    match a {
        Actuator::M1 => 1,
        Actuator::M2 => 2,
    }
}

/// The flag byte that names a direction on the wire.
pub open spec fn direction_flag(d: Direction) -> u8 {
    match d {
        Direction::Forward => 1,
        Direction::Backward => 0,
    }
}

/// The frame that encodes a command.
pub open spec fn frame_of(c: ActuatorCommand) -> Seq<u8> {
    match c {
        ActuatorCommand::SetSpeed(speed, a) => seq![
            OPCODE_SET_SPEED,
            actuator_id(a),
            (speed % 256) as u8,
            (speed / 256) as u8,
        ],
        ActuatorCommand::SetDirection(d, a) => seq![
            OPCODE_SET_DIRECTION,
            actuator_id(a),
            direction_flag(d),
        ],
    }
}

impl Actuator {
    /// The id byte of this actuator.
    pub fn id(&self) -> (r: u8)
        ensures
            r == actuator_id(*self),
    {
        match self {
            Actuator::M1 => 1,
            Actuator::M2 => 2,
        }
    }

    /// The other actuator.
    pub fn toggled(&self) -> (r: Actuator)
        ensures
            r != *self,
    {
        match self {
            Actuator::M1 => Actuator::M2,
            Actuator::M2 => Actuator::M1,
        }
    }
}

impl Direction {
    /// The flag byte of this direction.
    pub fn flag(&self) -> (r: u8)
        ensures
            r == direction_flag(*self),
    {
        match self {
            Direction::Forward => 1,
            Direction::Backward => 0,
        }
    }
}

impl ActuatorCommand {
    /// Encodes the command as the frame the firmware expects.
    pub fn serialize(&self) -> (r: Vec<u8>)
        ensures
            r@ == frame_of(*self),
    {
        match self {
            ActuatorCommand::SetSpeed(speed, a) => {
                let r = vec![OPCODE_SET_SPEED, a.id(), (*speed % 256) as u8, (*speed / 256) as u8];
                assert(r@ =~= frame_of(*self));
                r
            },
            ActuatorCommand::SetDirection(d, a) => {
                let r = vec![OPCODE_SET_DIRECTION, a.id(), d.flag()];
                assert(r@ =~= frame_of(*self));
                r
            },
        }
    }
}

/// A telemetry sample: the actuator extension in meters, held as the bit
/// pattern of its IEEE-754 double.
#[derive(Clone, Copy, Debug, PartialEq, Eq, Structural)]
pub struct TelemetrySample {
    pub bits: u64,
}

/// The 64-bit value that eight bytes hold in little-endian order.
pub open spec fn le_u64(b: Seq<u8>) -> u64
    recommends
        b.len() == 8,
{
    (b[0] as u64) | ((b[1] as u64) << 8u64) | ((b[2] as u64) << 16u64) | ((b[3] as u64) << 24u64)
        | ((b[4] as u64) << 32u64) | ((b[5] as u64) << 40u64) | ((b[6] as u64) << 48u64) | ((
    b[7] as u64) << 56u64)
}

/// The eight little-endian bytes of a 64-bit value.
pub open spec fn le_bytes(v: u64) -> Seq<u8> {
    seq![
        (v & 0xff) as u8,
        ((v >> 8u64) & 0xff) as u8,
        ((v >> 16u64) & 0xff) as u8,
        ((v >> 24u64) & 0xff) as u8,
        ((v >> 32u64) & 0xff) as u8,
        ((v >> 40u64) & 0xff) as u8,
        ((v >> 48u64) & 0xff) as u8,
        ((v >> 56u64) & 0xff) as u8,
    ]
}

/// Decodes a full telemetry frame.
pub fn decode_telemetry(frame: &[u8]) -> (r: TelemetrySample)
    requires
        frame@.len() == TELEMETRY_FRAME_LEN,
    ensures
        r.bits == le_u64(frame@),
{
    let bits = (frame[0] as u64) | ((frame[1] as u64) << 8u64) | ((frame[2] as u64) << 16u64) | ((
    frame[3] as u64) << 24u64) | ((frame[4] as u64) << 32u64) | ((frame[5] as u64) << 40u64) | ((
    frame[6] as u64) << 48u64) | ((frame[7] as u64) << 56u64);
    TelemetrySample { bits }
}

/// What the telemetry reader makes of the bytes one read brought: a sample
/// when they are exactly one frame, and nothing otherwise (a short or failed
/// read is line noise and is dropped without a report).
pub fn telemetry_from_read(frame: &[u8]) -> (r: Option<TelemetrySample>)
    ensures
        frame@.len() == TELEMETRY_FRAME_LEN ==> r == Some(TelemetrySample { bits: le_u64(frame@) }),
        frame@.len() != TELEMETRY_FRAME_LEN ==> r is None,
{
    if frame.len() == TELEMETRY_FRAME_LEN {
        Some(decode_telemetry(frame))
    } else {
        None
    }
}

/// Decoding the eight little-endian bytes of a sample's bit pattern gives the
/// same bit pattern back, so a double travels through a telemetry frame
/// unchanged.
pub proof fn lemma_telemetry_round_trip(v: u64)
    ensures
        le_bytes(v).len() == TELEMETRY_FRAME_LEN,
        le_u64(le_bytes(v)) == v,
{
    assert((((v & 0xff) as u8) as u64) | (((((v >> 8u64) & 0xff) as u8) as u64) << 8u64) | (((((v
        >> 16u64) & 0xff) as u8) as u64) << 16u64) | (((((v >> 24u64) & 0xff) as u8) as u64)
        << 24u64) | (((((v >> 32u64) & 0xff) as u8) as u64) << 32u64) | (((((v >> 40u64) & 0xff)
        as u8) as u64) << 40u64) | (((((v >> 48u64) & 0xff) as u8) as u64) << 48u64) | (((((v
        >> 56u64) & 0xff) as u8) as u64) << 56u64) == v) by (bit_vector);
}

/// Two `SetSpeed` frames for the same speed differ only in the actuator-id
/// byte: opcode and speed bytes are the same, and the id bytes of the two
/// actuators differ.
pub proof fn lemma_set_speed_frames_differ_in_actuator_only(speed: u16, a: Actuator, b: Actuator)
    requires
        a != b,
    ensures
        frame_of(ActuatorCommand::SetSpeed(speed, a)).len() == frame_of(
            ActuatorCommand::SetSpeed(speed, b),
        ).len(),
        forall|i: int|
            0 <= i < frame_of(ActuatorCommand::SetSpeed(speed, a)).len() && i != 1 ==> frame_of(
                ActuatorCommand::SetSpeed(speed, a),
            )[i] == frame_of(ActuatorCommand::SetSpeed(speed, b))[i],
        frame_of(ActuatorCommand::SetSpeed(speed, a))[1] != frame_of(
            ActuatorCommand::SetSpeed(speed, b),
        )[1],
{
}

} // verus!
