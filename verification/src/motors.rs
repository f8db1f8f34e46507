//! The registry: owner of the channel and maker of motor handles.

use vstd::prelude::*;
use crate::channel::{transacted, Channel, ChannelModel, Event};
use crate::communication::HerkulexCommunication;
use crate::error::{from_transport, Error};
use crate::motor::Motor;

verus! {

/// A group of servomotors on one communication line.  It owns the channel
/// for as long as it lives; the motors made from it borrow it for the length
/// of one operation.
pub struct Motors<Comm: HerkulexCommunication> {
    communication: Channel<Comm>,
}

impl<Comm: HerkulexCommunication> Motors<Comm> {
    /// The channel as its callers see it.
    pub closed spec fn view(&self) -> ChannelModel {
        self.communication@
    }

    /// The invariant of every registry: that of its channel.
    pub closed spec fn wf(&self) -> bool {
        self.communication.wf()
    }

    /// Creates a group of servomotors over `comm`.  Nothing is written to
    /// the bus.
    pub fn new(comm: Comm) -> (motors: Motors<Comm>)
        ensures
            motors.wf(),
            !motors@.busy,
            motors@.journal == Seq::<Event>::empty(),
    {
        Motors { communication: Channel::new(comm) }
    }

    /// Creates the handle of the servomotor with bus id `id`.  The id is not
    /// checked against the servomotors that are attached.
    pub fn new_motor(&self, id: u8) -> (motor: Motor)
        ensures
            motor.id_spec() == id,
    {
        Motor::new(id)
    }

    /// Whether a transaction is active on the channel.
    pub fn is_busy(&self) -> (busy: bool)
        ensures
            busy == self@.busy,
    {
        self.communication.is_busy()
    }

    /// The channel, for callers that run a transaction step by step.
    pub fn channel(&mut self) -> (channel: &mut Channel<Comm>)
        ensures
            channel@ == old(self)@,
            channel.wf() == old(self).wf(),
            final(self)@ == final(channel)@,
            final(self).wf() == final(channel).wf(),
    {
        &mut self.communication
    }

    /// One whole exchange on the channel: see [`Channel::transact`].
    pub fn transact(&mut self, request: &[u8], expected_len: usize) -> (outcome: Result<
        Vec<u8>,
        Error,
    >)
        requires
            old(self).wf(),
        ensures
            final(self).wf(),
            transacted(old(self)@, final(self)@, request@, expected_len as nat, outcome is Ok),
            old(self)@.busy ==> outcome == Err::<Vec<u8>, Error>(Error::ResourceBusy),
            !old(self)@.busy && outcome is Err ==> from_transport(outcome->Err_0),
            outcome is Ok ==> outcome->Ok_0@.len() == expected_len,
    {
        self.communication.transact(request, expected_len)
    }
}

} // verus!
