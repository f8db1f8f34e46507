//! The handle of one servomotor.

use vstd::prelude::*;
use crate::channel::{transacted, ChannelModel, Event};
use crate::communication::HerkulexCommunication;
use crate::error::{from_transport, Error};
use crate::motors::Motors;
use crate::protocol::{
    addressed_to, decode, encode, lemma_distinct_ids_distinct_frames, parsed_ack, readable,
    reply_of, Operation, Reply, Rotation, TEMPERATURE_REPLY_LEN,
};

verus! {

/// One servomotor, named by its bus id.  The handle holds no state of the
/// servomotor and no hold on the bus: each operation borrows the registry,
/// runs one transaction and lets go.
#[derive(Clone, Copy, Debug, PartialEq, Eq, Structural)]
pub struct Motor {
    id: u8,
}

/// How one operation of servomotor `id` changes the channel.  With an
/// argument out of range nothing is sent and nothing changes.  Otherwise the
/// frame of the operation for this id makes one whole exchange, unless the
/// channel is busy; and that frame is addressed to `id`.
pub open spec fn performed(
    pre: ChannelModel,
    post: ChannelModel,
    id: u8,
    operation: Operation,
    done: bool,
) -> bool {
    if !operation.valid() {
        post == pre && !done
    } else {
        &&& transacted(pre, post, operation.frame(id), operation.reply_len(), done)
        &&& !pre.busy ==> addressed_to(operation.frame(id), id)
    }
}

/// The error of an operation that never reached the bus, if there is one:
/// an argument out of range first, a busy channel second.
pub open spec fn refusal(pre: ChannelModel, operation: Operation) -> Option<Error> {
    if !operation.valid() {
        Some(Error::InvalidParameter)
    } else if pre.busy {
        Some(Error::ResourceBusy)
    } else {
        None
    }
}

/// Whether the outcome of a temperature request shows that the exchange on
/// the bus went through: a reading, or a response that could not be read as
/// one.
pub open spec fn exchanged(outcome: Result<u8, Error>) -> bool {
    outcome is Ok || outcome == Err::<u8, Error>(Error::ProtocolError)
}

/// The temperature that servomotor `id` reported in the response `bytes`.
pub open spec fn reading_of(id: u8, bytes: Seq<u8>) -> Result<u8, Error> {
    if !readable(bytes) {
        Err(Error::ProtocolError)
    } else {
        match reply_of(id, Operation::GetTemperature, parsed_ack(bytes)) {
            Ok(Reply::Temperature(degrees)) => Ok(degrees),
            Ok(Reply::Acknowledged) => Err(Error::ProtocolError),
            Err(error) => Err(error),
        }
    }
}

impl Motor {
    /// The bus id.
    pub closed spec fn id_spec(&self) -> u8 {
        self.id
    }

    /// The handle of the servomotor with bus id `id`.
    pub fn new(id: u8) -> (motor: Motor)
        ensures
            motor.id_spec() == id,
    {
        Motor { id }
    }

    /// The bus id.  It never changes.
    pub fn id(&self) -> (id: u8)
        ensures
            id == self.id_spec(),
    {
        self.id
    }

    /// Runs `operation` on this servomotor: encode, then one exchange on the
    /// channel.  Returns the response bytes, none where the operation asks
    /// for no response.
    pub fn perform<Comm: HerkulexCommunication>(
        &self,
        bus: &mut Motors<Comm>,
        operation: Operation,
    ) -> (outcome: Result<Vec<u8>, Error>)
        requires
            old(bus).wf(),
        ensures
            final(bus).wf(),
            performed(old(bus)@, final(bus)@, self.id_spec(), operation, outcome is Ok),
            refusal(old(bus)@, operation) is Some ==> outcome == Err::<Vec<u8>, Error>(
                refusal(old(bus)@, operation)->Some_0,
            ),
            refusal(old(bus)@, operation) is None && outcome is Err ==> from_transport(
                outcome->Err_0,
            ),
            outcome is Ok ==> outcome->Ok_0@.len() == operation.reply_len(),
    {
        let frame = match encode(self.id, operation) {
            Err(error) => { return Err(error); },
            Ok(frame) => frame,
        };
        bus.transact(frame.as_slice(), operation.expected_reply_len())
    }

    /// Asks the servomotor to reboot.  No response is read.
    pub fn reboot<Comm: HerkulexCommunication>(&self, bus: &mut Motors<Comm>) -> (outcome: Result<
        (),
        Error,
    >)
        requires
            old(bus).wf(),
        ensures
            final(bus).wf(),
            performed(old(bus)@, final(bus)@, self.id_spec(), Operation::Reboot, outcome is Ok),
            old(bus)@.busy ==> outcome == Err::<(), Error>(Error::ResourceBusy),
            !old(bus)@.busy && outcome is Err ==> from_transport(outcome->Err_0),
    {
        self.command(bus, Operation::Reboot)
    }

    /// Asks the servomotor to enable torque.  No response is read.
    pub fn enable_torque<Comm: HerkulexCommunication>(&self, bus: &mut Motors<Comm>) -> (outcome:
        Result<(), Error>)
        requires
            old(bus).wf(),
        ensures
            final(bus).wf(),
            performed(
                old(bus)@,
                final(bus)@,
                self.id_spec(),
                Operation::EnableTorque,
                outcome is Ok,
            ),
            old(bus)@.busy ==> outcome == Err::<(), Error>(Error::ResourceBusy),
            !old(bus)@.busy && outcome is Err ==> from_transport(outcome->Err_0),
    {
        self.command(bus, Operation::EnableTorque)
    }

    /// Asks the servomotor to disable torque.  No response is read.
    pub fn disable_torque<Comm: HerkulexCommunication>(&self, bus: &mut Motors<Comm>) -> (outcome:
        Result<(), Error>)
        requires
            old(bus).wf(),
        ensures
            final(bus).wf(),
            performed(
                old(bus)@,
                final(bus)@,
                self.id_spec(),
                Operation::DisableTorque,
                outcome is Ok,
            ),
            old(bus)@.busy ==> outcome == Err::<(), Error>(Error::ResourceBusy),
            !old(bus)@.busy && outcome is Err ==> from_transport(outcome->Err_0),
    {
        self.command(bus, Operation::DisableTorque)
    }

    /// Asks the servomotor to go to `position`.  A position above the
    /// protocol's range is refused before anything is sent.  Whether torque
    /// is enabled is the caller's concern.  No response is read.
    pub fn set_position<Comm: HerkulexCommunication>(
        &self,
        bus: &mut Motors<Comm>,
        position: u16,
    ) -> (outcome: Result<(), Error>)
        requires
            old(bus).wf(),
        ensures
            final(bus).wf(),
            performed(
                old(bus)@,
                final(bus)@,
                self.id_spec(),
                Operation::SetPosition(position),
                outcome is Ok,
            ),
            refusal(old(bus)@, Operation::SetPosition(position)) is Some ==> outcome == Err::<
                (),
                Error,
            >(refusal(old(bus)@, Operation::SetPosition(position))->Some_0),
            refusal(old(bus)@, Operation::SetPosition(position)) is None && outcome is Err
                ==> from_transport(outcome->Err_0),
    {
        self.command(bus, Operation::SetPosition(position))
    }

    /// Asks the servomotor to turn at `speed` in the sense `rotation`.  A
    /// speed above the protocol's range is refused before anything is sent.
    /// No response is read.
    pub fn set_speed<Comm: HerkulexCommunication>(
        &self,
        bus: &mut Motors<Comm>,
        speed: u16,
        rotation: Rotation,
    ) -> (outcome: Result<(), Error>)
        requires
            old(bus).wf(),
        ensures
            final(bus).wf(),
            performed(
                old(bus)@,
                final(bus)@,
                self.id_spec(),
                Operation::SetSpeed(speed, rotation),
                outcome is Ok,
            ),
            refusal(old(bus)@, Operation::SetSpeed(speed, rotation)) is Some ==> outcome == Err::<
                (),
                Error,
            >(refusal(old(bus)@, Operation::SetSpeed(speed, rotation))->Some_0),
            refusal(old(bus)@, Operation::SetSpeed(speed, rotation)) is None && outcome is Err
                ==> from_transport(outcome->Err_0),
    {
        self.command(bus, Operation::SetSpeed(speed, rotation))
    }

    /// Asks the servomotor to store `new_id` as its bus id in permanent
    /// memory.  A reserved id is refused before anything is sent.  The
    /// servomotor answers to the new id after its next reboot; this handle
    /// keeps its own id.  No response is read.
    pub fn set_id_eep<Comm: HerkulexCommunication>(
        &self,
        bus: &mut Motors<Comm>,
        new_id: u8,
    ) -> (outcome: Result<(), Error>)
        requires
            old(bus).wf(),
        ensures
            final(bus).wf(),
            performed(
                old(bus)@,
                final(bus)@,
                self.id_spec(),
                Operation::SetIdEep(new_id),
                outcome is Ok,
            ),
            refusal(old(bus)@, Operation::SetIdEep(new_id)) is Some ==> outcome == Err::<
                (),
                Error,
            >(refusal(old(bus)@, Operation::SetIdEep(new_id))->Some_0),
            refusal(old(bus)@, Operation::SetIdEep(new_id)) is None && outcome is Err
                ==> from_transport(outcome->Err_0),
    {
        self.command(bus, Operation::SetIdEep(new_id))
    }

    /// Asks the servomotor for its temperature and reads the answer.  The
    /// reading is the raw register byte.  A response that is not this
    /// servomotor's healthy answer to the request is a protocol error.
    pub fn get_temperature<Comm: HerkulexCommunication>(&self, bus: &mut Motors<Comm>) -> (outcome:
        Result<u8, Error>)
        requires
            old(bus).wf(),
        ensures
            final(bus).wf(),
            performed(
                old(bus)@,
                final(bus)@,
                self.id_spec(),
                Operation::GetTemperature,
                exchanged(outcome),
            ),
            old(bus)@.busy ==> outcome == Err::<u8, Error>(Error::ResourceBusy),
            !old(bus)@.busy && !exchanged(outcome) ==> from_transport(outcome->Err_0),
            exchanged(outcome) ==> exists|response: Seq<u8>|
                response.len() == TEMPERATURE_REPLY_LEN && #[trigger] reading_of(
                    self.id_spec(),
                    response,
                ) == outcome,
    {
        match self.perform(bus, Operation::GetTemperature) {
            Err(error) => Err(error),
            Ok(response) => {
                let outcome = self.read_temperature(response.as_slice());
                assert(reading_of(self.id_spec(), response@) == outcome);
                outcome
            },
        }
    }

    /// Reads `response` as this servomotor's answer to a temperature
    /// request.
    pub fn read_temperature(&self, response: &[u8]) -> (outcome: Result<u8, Error>)
        ensures
            outcome == reading_of(self.id_spec(), response@),
            outcome is Err ==> outcome->Err_0 == Error::ProtocolError,
    {
        match decode(self.id, Operation::GetTemperature, response) {
            Ok(Reply::Temperature(degrees)) => Ok(degrees),
            Ok(Reply::Acknowledged) => Err(Error::ProtocolError),
            Err(error) => Err(error),
        }
    }

    /// Runs an operation that asks for no response.
    fn command<Comm: HerkulexCommunication>(
        &self,
        bus: &mut Motors<Comm>,
        operation: Operation,
    ) -> (outcome: Result<(), Error>)
        requires
            old(bus).wf(),
        ensures
            final(bus).wf(),
            performed(old(bus)@, final(bus)@, self.id_spec(), operation, outcome is Ok),
            refusal(old(bus)@, operation) is Some ==> outcome == Err::<(), Error>(
                refusal(old(bus)@, operation)->Some_0,
            ),
            refusal(old(bus)@, operation) is None && outcome is Err ==> from_transport(
                outcome->Err_0,
            ),
    {
        match self.perform(bus, operation) {
            Ok(_) => Ok(()),
            Err(error) => Err(error),
        }
    }
}

/// Two motors with different ids never put the same frame on the bus for
/// the same operation: each one's exchange carries, right after its
/// `Begin`, the frame of the operation for its own id, and the two frames
/// differ.
pub proof fn lemma_motors_send_their_own_frames(
    first: (ChannelModel, ChannelModel, bool),
    second: (ChannelModel, ChannelModel, bool),
    a: u8,
    b: u8,
    operation: Operation,
)
    requires
        performed(first.0, first.1, a, operation, first.2),
        performed(second.0, second.1, b, operation, second.2),
        operation.valid(),
        !first.0.busy,
        !second.0.busy,
        a != b,
    ensures
        first.1.journal[first.0.journal.len() as int + 1] == Event::Sent(operation.frame(a)),
        second.1.journal[second.0.journal.len() as int + 1] == Event::Sent(operation.frame(b)),
        addressed_to(operation.frame(a), a),
        addressed_to(operation.frame(b), b),
        operation.frame(a) != operation.frame(b),
{
    lemma_distinct_ids_distinct_frames(operation.frame(a), operation.frame(b), a, b);
}

} // verus!
