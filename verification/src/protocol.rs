//! Frames for the servomotors, built and read by the `drs_0x01` crate.
//!
//! The byte format belongs to that crate.  This module names the frame that
//! it builds for each operation, checks arguments against the ranges that the
//! protocol documents, and decides whether an acknowledgment answers the
//! request that was made.

use vstd::prelude::*;
use crate::error::Error;
use drs_0x01::reader::{ACKReader, Command};

verus! {

/// The sense in which a servomotor turns under speed control.
#[derive(Clone, Copy, Debug, PartialEq, Eq, Structural)]
pub enum Rotation {
    Clockwise,
    CounterClockwise,
}

/// A servo operation with its arguments.
#[derive(Clone, Copy, Debug, PartialEq, Eq, Structural)]
pub enum Operation {
    /// Restart the servomotor.
    Reboot,
    /// Let the servomotor hold and move.
    EnableTorque,
    /// Let the servomotor turn freely.
    DisableTorque,
    /// Go to a position.
    SetPosition(u16),
    /// Turn at a speed, in a sense.
    SetSpeed(u16, Rotation),
    /// Report the temperature.
    GetTemperature,
    /// Store a new bus id in permanent memory.
    SetIdEep(u8),
}

/// The largest position and the largest speed that the protocol documents.
pub const MAX_TARGET: u16 = 1023;

/// The largest bus id of a single servomotor; the two ids above it are
/// reserved.
pub const MAX_ID: u8 = 253;

/// The number of bytes in the acknowledgment of a temperature request.
pub const TEMPERATURE_REPLY_LEN: usize = 13;

/// The longest acknowledgment frame.
pub const MAX_ACK_LEN: usize = 13;

/// The register that holds the temperature.
pub const TEMPERATURE_REGISTER: u8 = 55;

/// The status reading of a servomotor without a fault.
pub const STATUS_NO_ERROR: u8 = 7;

/// The smallest frame: header, size, id, command and two checksums.
pub const MIN_FRAME_LEN: usize = 7;

/// Whether a frame is addressed to the servomotor `id`: it is long enough to
/// hold an id, and holds this one.
pub open spec fn addressed_to(frame: Seq<u8>, id: u8) -> bool {
    frame.len() >= MIN_FRAME_LEN && frame[3] == id
}

/// The frame that asks servomotor `id` to reboot.
pub uninterp spec fn reboot_frame(id: u8) -> Seq<u8>;

/// The frame that asks servomotor `id` to enable torque.
pub uninterp spec fn enable_torque_frame(id: u8) -> Seq<u8>;

/// The frame that asks servomotor `id` to disable torque.
pub uninterp spec fn disable_torque_frame(id: u8) -> Seq<u8>;

/// The frame that asks servomotor `id` to go to `position`.
pub uninterp spec fn position_frame(id: u8, position: u16) -> Seq<u8>;

/// The frame that asks servomotor `id` to turn at `speed` in the sense
/// `rotation`.
pub uninterp spec fn speed_frame(id: u8, speed: u16, rotation: Rotation) -> Seq<u8>;

/// The frame that asks servomotor `id` for its temperature.
pub uninterp spec fn temperature_request_frame(id: u8) -> Seq<u8>;

/// The frame that asks servomotor `id` to store `new_id` as its bus id.
pub uninterp spec fn store_id_frame(id: u8, new_id: u8) -> Seq<u8>;

/// `drs_0x01::Servo::reboot`, for the servo made by `Servo::new(id)`.  The
/// contract names the frame and claims of it what every frame of that crate
/// has: at least seven bytes, the fourth of them the id.
#[verifier::external_body]
fn servo_reboot(id: u8) -> (frame: Vec<u8>)
    ensures
        frame@ == reboot_frame(id),
        addressed_to(frame@, id),
{
    drs_0x01::Servo::new(id).reboot().to_vec()
}

/// `drs_0x01::Servo::enable_torque`, for the servo made by `Servo::new(id)`.
/// The contract names the frame and claims of it what every frame of that
/// crate has: at least seven bytes, the fourth of them the id.
#[verifier::external_body]
fn servo_enable_torque(id: u8) -> (frame: Vec<u8>)
    ensures
        frame@ == enable_torque_frame(id),
        addressed_to(frame@, id),
{
    drs_0x01::Servo::new(id).enable_torque().to_vec()
}

/// `drs_0x01::Servo::disable_torque`, for the servo made by `Servo::new(id)`.
/// The contract names the frame and claims of it what every frame of that
/// crate has: at least seven bytes, the fourth of them the id.
#[verifier::external_body]
fn servo_disable_torque(id: u8) -> (frame: Vec<u8>)
    ensures
        frame@ == disable_torque_frame(id),
        addressed_to(frame@, id),
{
    drs_0x01::Servo::new(id).disable_torque().to_vec()
}

/// `drs_0x01::Servo::set_position`, for the servo made by `Servo::new(id)`.
/// The contract names the frame and claims of it what every frame of that
/// crate has: at least seven bytes, the fourth of them the id.
#[verifier::external_body]
fn servo_set_position(id: u8, position: u16) -> (frame: Vec<u8>)
    ensures
        frame@ == position_frame(id, position),
        addressed_to(frame@, id),
{
    drs_0x01::Servo::new(id).set_position(position).to_vec()
}

/// `drs_0x01::Servo::set_speed`, for the servo made by `Servo::new(id)`, with
/// the rotation written in that crate's own type.  The contract names the
/// frame and claims of it what every frame of that crate has: at least seven
/// bytes, the fourth of them the id.
#[verifier::external_body]
fn servo_set_speed(id: u8, speed: u16, rotation: Rotation) -> (frame: Vec<u8>)
    ensures
        frame@ == speed_frame(id, speed, rotation),
        addressed_to(frame@, id),
{
    let sense = match rotation {
        Rotation::Clockwise => drs_0x01::Rotation::Clockwise,
        Rotation::CounterClockwise => drs_0x01::Rotation::CounterClockwise,
    };
    drs_0x01::Servo::new(id).set_speed(speed, sense).to_vec()
}

/// `drs_0x01::Servo::ram_request` on the temperature register, for the servo
/// made by `Servo::new(id)`.  The contract names the frame and claims of it
/// what every frame of that crate has: at least seven bytes, the fourth of
/// them the id.
#[verifier::external_body]
fn servo_request_temperature(id: u8) -> (frame: Vec<u8>)
    ensures
        frame@ == temperature_request_frame(id),
        addressed_to(frame@, id),
{
    drs_0x01::Servo::new(id).ram_request(drs_0x01::ReadableRamAddr::Temperature).to_vec()
}

/// `drs_0x01::Servo::eep_write` on the id register, for the servo made by
/// `Servo::new(id)`.  The contract names the frame and claims of it what
/// every frame of that crate has: at least seven bytes, the fourth of them
/// the id of the servo that is addressed, not the new one.
#[verifier::external_body]
fn servo_store_id(id: u8, new_id: u8) -> (frame: Vec<u8>)
    ensures
        frame@ == store_id_frame(id, new_id),
        addressed_to(frame@, id),
{
    drs_0x01::Servo::new(id).eep_write(drs_0x01::WritableEEPAddr::ID(new_id)).to_vec()
}

impl Operation {
    /// Whether the arguments lie in the ranges that the protocol documents.
    pub open spec fn valid(self) -> bool {
        match self {
            Operation::SetPosition(position) => position <= MAX_TARGET,
            Operation::SetSpeed(speed, _) => speed <= MAX_TARGET,
            Operation::SetIdEep(new_id) => new_id <= MAX_ID,
            _ => true,
        }
    }

    /// The frame that carries this operation to servomotor `id`.
    pub open spec fn frame(self, id: u8) -> Seq<u8> {
        match self {
            Operation::Reboot => reboot_frame(id),
            Operation::EnableTorque => enable_torque_frame(id),
            Operation::DisableTorque => disable_torque_frame(id),
            Operation::SetPosition(position) => position_frame(id, position),
            Operation::SetSpeed(speed, rotation) => speed_frame(id, speed, rotation),
            Operation::GetTemperature => temperature_request_frame(id),
            Operation::SetIdEep(new_id) => store_id_frame(id, new_id),
        }
    }

    /// The number of bytes to read back after the request.
    pub open spec fn reply_len(self) -> nat {
        match self {
            Operation::GetTemperature => TEMPERATURE_REPLY_LEN as nat,
            _ => 0,
        }
    }

    /// The command code that the acknowledgment of this operation carries.
    pub open spec fn ack_command(self) -> u8 {
        match self {
            Operation::SetIdEep(_) => 0x41,
            Operation::EnableTorque | Operation::DisableTorque => 0x43,
            Operation::GetTemperature => 0x44,
            Operation::SetPosition(_) | Operation::SetSpeed(_, _) => 0x46,
            Operation::Reboot => 0x49,
        }
    }

    /// Checks the arguments.
    pub fn is_valid(&self) -> (valid: bool)
        ensures
            valid == self.valid(),
    {
        match self {
            Operation::SetPosition(position) => *position <= MAX_TARGET,
            Operation::SetSpeed(speed, _) => *speed <= MAX_TARGET,
            Operation::SetIdEep(new_id) => *new_id <= MAX_ID,
            _ => true,
        }
    }

    /// The number of bytes to read back after the request: none but for a
    /// temperature request.
    pub fn expected_reply_len(&self) -> (len: usize)
        ensures
            len == self.reply_len(),
    {
        match self {
            Operation::GetTemperature => TEMPERATURE_REPLY_LEN,
            _ => 0,
        }
    }

    /// The command code that the acknowledgment of this operation carries.
    pub fn expected_ack_command(&self) -> (code: u8)
        ensures
            code == self.ack_command(),
    {
        match self {
            Operation::SetIdEep(_) => 0x41,
            Operation::EnableTorque | Operation::DisableTorque => 0x43,
            Operation::GetTemperature => 0x44,
            Operation::SetPosition(_) | Operation::SetSpeed(_, _) => 0x46,
            Operation::Reboot => 0x49,
        }
    }
}

/// Builds the frame that carries `operation` to servomotor `id`, or reports
/// `InvalidParameter` where an argument is out of range.  The id itself is
/// not checked.
pub fn encode(id: u8, operation: Operation) -> (outcome: Result<Vec<u8>, Error>)
    ensures
        !operation.valid() ==> outcome == Err::<Vec<u8>, Error>(Error::InvalidParameter),
        operation.valid() ==> outcome is Ok && outcome->Ok_0@ == operation.frame(id)
            && addressed_to(outcome->Ok_0@, id),
{
    if !operation.is_valid() {
        return Err(Error::InvalidParameter);
    }
    let frame = match operation {
        Operation::Reboot => servo_reboot(id),
        Operation::EnableTorque => servo_enable_torque(id),
        Operation::DisableTorque => servo_disable_torque(id),
        Operation::SetPosition(position) => servo_set_position(id, position),
        Operation::SetSpeed(speed, rotation) => servo_set_speed(id, speed, rotation),
        Operation::GetTemperature => servo_request_temperature(id),
        Operation::SetIdEep(new_id) => servo_store_id(id, new_id),
    };
    Ok(frame)
}

/// Frames addressed to different servomotors differ, whatever they ask for.
pub proof fn lemma_distinct_ids_distinct_frames(first: Seq<u8>, second: Seq<u8>, a: u8, b: u8)
    requires
        addressed_to(first, a),
        addressed_to(second, b),
        a != b,
    ensures
        first != second,
{
}

/// What a servomotor read from its volatile memory and sent back.
#[derive(Clone, Copy, Debug, PartialEq, Eq, Structural)]
pub struct RamData {
    /// The register that was read.
    pub register: u8,
    /// The number of bytes that were read.
    pub len: u8,
    /// The first byte.
    pub first: u8,
    /// The second byte, zero where one byte was read.
    pub second: u8,
}

/// An acknowledgment, as the protocol crate read it from a frame.
#[derive(Clone, Copy, Debug, PartialEq, Eq, Structural)]
pub struct Ack {
    /// The bus id of the servomotor that answered.
    pub pid: u8,
    /// The command code of the acknowledgment.
    pub command: u8,
    /// The reading of the status register, by its place in the protocol
    /// crate's list of readings.
    pub status: u8,
    /// The data, where the acknowledgment answers a read of volatile memory.
    pub data: Option<RamData>,
}

/// What an acknowledgment tells the caller.
#[derive(Clone, Copy, Debug, PartialEq, Eq, Structural)]
pub enum Reply {
    /// The servomotor took the command.
    Acknowledged,
    /// The servomotor's temperature, as the raw register byte.
    Temperature(u8),
}

/// Whether `bytes` can be handed to the frame reader: no longer than one
/// acknowledgment frame, and where they are long enough to hold the answer
/// to a read, with the command code of one, the data length that they
/// announce is one that the reader's two data bytes can hold.
pub open spec fn readable(bytes: Seq<u8>) -> bool {
    &&& bytes.len() <= MAX_ACK_LEN
    &&& bytes.len() >= 12 && (bytes[4] == 0x42 || bytes[4] == 0x44) ==> bytes[8] <= 2
}

/// The acknowledgment that the protocol crate reads from `bytes`, if it
/// finds a whole frame with matching checksums there.
pub uninterp spec fn parsed_ack(bytes: Seq<u8>) -> Option<Ack>;

/// `drs_0x01::reader::ACKReader::parse` on a new reader, then
/// `pop_ack_packet`, the packet written in this library's type.  The
/// contract only names the result.  The status is written as the place of
/// the reading in that crate's list of status errors, the data as the four
/// values that the crate keeps of a read of volatile memory.  The contract
/// asks for `readable` bytes: the reader panics where the answer to a read,
/// twelve bytes or more, announces more than two data bytes.
#[verifier::external_body]
fn read_ack(bytes: &[u8]) -> (ack: Option<Ack>)
    requires
        readable(bytes@),
    ensures
        ack == parsed_ack(bytes@),
{
    let mut reader = ACKReader::new();
    reader.parse(bytes);
    reader.pop_ack_packet().map(|packet| Ack {
        pid: packet.pid,
        command: u8::from(packet.cmd),
        status: packet.error as u8,
        data: match packet.cmd {
            Command::RamRead { data } => Some(RamData {
                register: u8::from(data.addr), len: data.data_len,
                first: data.data[0], second: data.data[1],
            }),
            _ => None,
        },
    })
}

/// Whether `ack` is the healthy answer of servomotor `id` to `operation`.
pub open spec fn answers(ack: Ack, id: u8, operation: Operation) -> bool {
    &&& ack.pid == id
    &&& ack.command == operation.ack_command()
    &&& ack.status == STATUS_NO_ERROR
}

/// Whether `ack` carries a temperature reading.
pub open spec fn holds_temperature(ack: Ack) -> bool {
    ack.data is Some && ack.data->Some_0.register == TEMPERATURE_REGISTER && ack.data->Some_0.len
        >= 1
}

/// What servomotor `id` answered to `operation`, given what the protocol
/// crate read from the response: a missing frame, a frame from another
/// servomotor or for another command, and a fault status are protocol
/// errors; so is an answer to a temperature request without the reading.
pub open spec fn reply_of(id: u8, operation: Operation, ack: Option<Ack>) -> Result<Reply, Error> {
    match ack {
        None => Err(Error::ProtocolError),
        Some(ack) => if !answers(ack, id, operation) {
            Err(Error::ProtocolError)
        } else if operation is GetTemperature {
            if holds_temperature(ack) {
                Ok(Reply::Temperature(ack.data->Some_0.first))
            } else {
                Err(Error::ProtocolError)
            }
        } else {
            Ok(Reply::Acknowledged)
        },
    }
}

/// Decides what servomotor `id` answered to `operation`, given what the
/// protocol crate read from the response.
pub fn interpret(id: u8, operation: Operation, ack: Option<Ack>) -> (outcome: Result<Reply, Error>)
    ensures
        outcome == reply_of(id, operation, ack),
{
    let ack = match ack {
        None => { return Err(Error::ProtocolError); },
        Some(ack) => ack,
    };
    if ack.pid != id || ack.command != operation.expected_ack_command() || ack.status
        != STATUS_NO_ERROR {
        return Err(Error::ProtocolError);
    }
    match operation {
        Operation::GetTemperature => match ack.data {
            Some(data) => {
                if data.register == TEMPERATURE_REGISTER && data.len >= 1 {
                    Ok(Reply::Temperature(data.first))
                } else {
                    Err(Error::ProtocolError)
                }
            },
            None => Err(Error::ProtocolError),
        },
        _ => Ok(Reply::Acknowledged),
    }
}

/// Checks whether `bytes` can be handed to the frame reader.
pub fn is_readable(bytes: &[u8]) -> (ok: bool)
    ensures
        ok == readable(bytes@),
{
    bytes.len() <= MAX_ACK_LEN && (bytes.len() < 12 || (bytes[4] != 0x42 && bytes[4] != 0x44)
        || bytes[8] <= 2)
}

/// Reads the response `bytes` as the answer of servomotor `id` to
/// `operation`.  Bytes that cannot be one acknowledgment frame are a
/// protocol error; the rest is decided by `reply_of` on what the protocol
/// crate reads.
pub fn decode(id: u8, operation: Operation, bytes: &[u8]) -> (outcome: Result<Reply, Error>)
    ensures
        !readable(bytes@) ==> outcome == Err::<Reply, Error>(Error::ProtocolError),
        readable(bytes@) ==> outcome == reply_of(id, operation, parsed_ack(bytes@)),
{
    if !is_readable(bytes) {
        return Err(Error::ProtocolError);
    }
    interpret(id, operation, read_ack(bytes))
}

} // verus!
