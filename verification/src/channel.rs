//! The shared channel: one bus, one transaction at a time.

use vstd::prelude::*;
use crate::communication::HerkulexCommunication;
use crate::error::{classify, fault_error, from_transport, Error, TransportFault};

verus! {

/// One step in the life of a channel, as the channel itself records it.
pub enum Event {
    /// Exclusive access was acquired.
    Begin,
    /// These bytes were handed to the transport for writing.
    Sent(Seq<u8>),
    /// The transport was asked for this many bytes.
    Read(nat),
    /// Exclusive access was released.
    End,
}

/// Whether a transaction is open at the end of `journal`.
pub open spec fn open_after(journal: Seq<Event>) -> bool
    decreases journal.len(),
{
    if journal.len() == 0 {
        false
    } else {
        match journal.last() {
            Event::Begin => true,
            Event::End => false,
            _ => open_after(journal.drop_last()),
        }
    }
}

/// Whether `journal` is a run of transactions, each a `Begin`, then writes
/// and reads, then an `End`, the last of them possibly still open: a
/// `Begin` stands only where no transaction is open, every other event only
/// where one is.
pub open spec fn well_bracketed(journal: Seq<Event>) -> bool
    decreases journal.len(),
{
    if journal.len() == 0 {
        true
    } else {
        &&& well_bracketed(journal.drop_last())
        &&& match journal.last() {
            Event::Begin => !open_after(journal.drop_last()),
            _ => open_after(journal.drop_last()),
        }
    }
}

/// What a channel is to its callers: whether a transaction is active, and
/// everything that has passed through it so far.
pub struct ChannelModel {
    pub busy: bool,
    pub journal: Seq<Event>,
}

impl ChannelModel {
    /// The state that every channel value is in.
    pub open spec fn valid(self) -> bool {
        &&& well_bracketed(self.journal)
        &&& self.busy == open_after(self.journal)
    }

    /// This state with `event` recorded and `busy` as given.
    pub open spec fn record(self, event: Event, busy: bool) -> ChannelModel {
        ChannelModel { busy, journal: self.journal.push(event) }
    }
}

/// The outcome of asking for a transaction in state `s`.
pub open spec fn begin_outcome(s: ChannelModel) -> Result<(), Error> {
    if s.busy {
        Err(Error::ResourceBusy)
    } else {
        Ok(())
    }
}

/// The state after asking for a transaction in state `s`.
pub open spec fn after_begin(s: ChannelModel) -> ChannelModel {
    if s.busy {
        s
    } else {
        s.record(Event::Begin, true)
    }
}

/// The state after traffic `event` in state `s`.  Inside a transaction the
/// event is recorded, and a failure closes the transaction.  Outside of one
/// the event makes a transaction of its own, and the channel stays free.
pub open spec fn after_traffic(s: ChannelModel, event: Event, done: bool) -> ChannelModel {
    if s.busy && done {
        s.record(event, true)
    } else {
        after_begin(s).record(event, true).record(Event::End, false)
    }
}

/// The state after a write of `bytes`; `done` says whether it went through.
pub open spec fn after_send(s: ChannelModel, bytes: Seq<u8>, done: bool) -> ChannelModel {
    after_traffic(s, Event::Sent(bytes), done)
}

/// The state after a read of `len` bytes; `done` says whether they came.
pub open spec fn after_receive(s: ChannelModel, len: nat, done: bool) -> ChannelModel {
    after_traffic(s, Event::Read(len), done)
}

/// The state after releasing the channel in state `s`.
pub open spec fn after_end(s: ChannelModel) -> ChannelModel {
    if s.busy {
        s.record(Event::End, false)
    } else {
        s
    }
}

/// What the channel reports for a write that the transport answered with
/// `reply`.
pub open spec fn send_outcome(reply: Result<(), TransportFault>) -> Result<(), Error> {
    match reply {
        Ok(()) => Ok(()),
        Err(fault) => Err(fault_error(fault)),
    }
}

/// What the channel reports for a read of `expected_len` bytes that the
/// transport answered with `reply`: a fault as its error; fewer bytes than
/// were asked for as a timeout, the partial buffer discarded; otherwise the
/// first `expected_len` bytes.
pub open spec fn receive_outcome(
    reply: Result<Seq<u8>, TransportFault>,
    expected_len: nat,
) -> Result<Seq<u8>, Error> {
    match reply {
        Err(fault) => Err(fault_error(fault)),
        Ok(bytes) => if bytes.len() < expected_len {
            Err(Error::Timeout)
        } else {
            Ok(bytes.take(expected_len as int))
        },
    }
}

/// Decides what a write reports, given the transport's answer.
pub fn settle_send(reply: Result<(), TransportFault>) -> (outcome: Result<(), Error>)
    ensures
        outcome == send_outcome(reply),
        outcome is Err ==> from_transport(outcome->Err_0),
{
    match reply {
        Ok(()) => Ok(()),
        Err(fault) => Err(classify(fault)),
    }
}

/// Decides what a read of `expected_len` bytes reports, given the
/// transport's answer.
pub fn settle_receive(reply: Result<Vec<u8>, TransportFault>, expected_len: usize) -> (outcome:
    Result<Vec<u8>, Error>)
    ensures
        match (outcome, receive_outcome(view_reply(reply), expected_len as nat)) {
            (Ok(bytes), Ok(wanted)) => bytes@ == wanted,
            (Err(error), Err(wanted)) => error == wanted,
            _ => false,
        },
        outcome is Ok ==> outcome->Ok_0@.len() == expected_len,
        outcome is Err ==> from_transport(outcome->Err_0),
{
    match reply {
        Err(fault) => Err(classify(fault)),
        Ok(bytes) => {
            if bytes.len() < expected_len {
                Err(Error::Timeout)
            } else {
                let mut bytes = bytes;
                bytes.truncate(expected_len);
                Ok(bytes)
            }
        },
    }
}

/// A transport's answer to a read, with the bytes as a sequence.
pub open spec fn view_reply(reply: Result<Vec<u8>, TransportFault>) -> Result<
    Seq<u8>,
    TransportFault,
> {
    match reply {
        Ok(bytes) => Ok(bytes@),
        Err(fault) => Err(fault),
    }
}

/// The events of one whole exchange: the request written, then, where a
/// response was asked for and the write went through, the read.
pub open spec fn exchange(request: Seq<u8>, expected_len: nat, read: bool) -> Seq<Event> {
    if read {
        seq![Event::Begin, Event::Sent(request), Event::Read(expected_len), Event::End]
    } else {
        seq![Event::Begin, Event::Sent(request), Event::End]
    }
}

/// How one call for a whole exchange changes a channel.  A busy channel
/// stays as it is and the call fails.  A free one is free again afterwards,
/// with one exchange more in its journal: the request and, where the call
/// succeeded and a response was asked for, the read; after a failure the
/// read is there if it was the read that failed.
pub open spec fn transacted(
    pre: ChannelModel,
    post: ChannelModel,
    request: Seq<u8>,
    expected_len: nat,
    done: bool,
) -> bool {
    if pre.busy {
        post == pre && !done
    } else if done {
        !post.busy && post.journal == pre.journal + exchange(
            request,
            expected_len,
            expected_len != 0,
        )
    } else {
        !post.busy && (post.journal == pre.journal + exchange(request, expected_len, false) || (
        expected_len != 0 && post.journal == pre.journal + exchange(request, expected_len, true)))
    }
}

/// The one owner of a transport.  It serialises all traffic on the bus:
/// between `begin_transaction` and the release no other transaction starts.
pub struct Channel<T: HerkulexCommunication> {
    transport: T,
    busy: bool,
    journal: Ghost<Seq<Event>>,
}

impl<T: HerkulexCommunication> Channel<T> {
    /// The channel as its callers see it.
    pub closed spec fn view(&self) -> ChannelModel {
        ChannelModel { busy: self.busy, journal: self.journal@ }
    }

    /// The invariant of every channel.
    pub open spec fn wf(&self) -> bool {
        self@.valid()
    }

    /// Takes ownership of `transport`.  Nothing is written to the bus.
    pub fn new(transport: T) -> (channel: Channel<T>)
        ensures
            channel.wf(),
            !channel@.busy,
            channel@.journal == Seq::<Event>::empty(),
    {
        Channel { transport, busy: false, journal: Ghost(Seq::empty()) }
    }

    /// Whether a transaction is active.
    pub fn is_busy(&self) -> (busy: bool)
        ensures
            busy == self@.busy,
    {
        self.busy
    }

    /// Acquires exclusive access, or reports `ResourceBusy` and changes
    /// nothing where a transaction is already active.
    pub fn begin_transaction(&mut self) -> (outcome: Result<(), Error>)
        requires
            old(self).wf(),
        ensures
            final(self).wf(),
            outcome == begin_outcome(old(self)@),
            final(self)@ == after_begin(old(self)@),
    {
        if self.busy {
            Err(Error::ResourceBusy)
        } else {
            self.acquire();
            Ok(())
        }
    }

    /// Writes `bytes` to the bus.  Inside a transaction, a write that fails
    /// closes it.  Outside of one, the write is a transaction of its own.
    pub fn send(&mut self, bytes: &[u8]) -> (outcome: Result<(), Error>)
        requires
            old(self).wf(),
        ensures
            final(self).wf(),
            final(self)@ == after_send(old(self)@, bytes@, outcome is Ok),
            outcome is Err ==> from_transport(outcome->Err_0),
    {
        let inside = self.busy;
        if !inside {
            self.acquire();
        }
        let reply = self.transport.send(bytes);
        let outcome = settle_send(reply);
        self.note(Ghost(Event::Sent(bytes@)));
        if !inside || outcome.is_err() {
            self.release();
        }
        outcome
    }

    /// Reads `expected_len` bytes from the bus.  Inside a transaction, a
    /// read that fails, or that brings fewer bytes, closes it, so that the
    /// next one can begin.  Outside of one, the read is a transaction of its
    /// own.
    pub fn receive(&mut self, expected_len: usize) -> (outcome: Result<Vec<u8>, Error>)
        requires
            old(self).wf(),
        ensures
            final(self).wf(),
            final(self)@ == after_receive(old(self)@, expected_len as nat, outcome is Ok),
            outcome is Ok ==> outcome->Ok_0@.len() == expected_len,
            outcome is Err ==> from_transport(outcome->Err_0),
    {
        let inside = self.busy;
        if !inside {
            self.acquire();
        }
        let reply = self.transport.receive(expected_len);
        let outcome = settle_receive(reply, expected_len);
        self.note(Ghost(Event::Read(expected_len as nat)));
        if !inside || outcome.is_err() {
            self.release();
        }
        outcome
    }

    /// Releases exclusive access.  Without an active transaction nothing
    /// changes.
    pub fn end_transaction(&mut self)
        requires
            old(self).wf(),
        ensures
            final(self).wf(),
            final(self)@ == after_end(old(self)@),
    {
        if self.busy {
            self.release();
        }
    }

    fn acquire(&mut self)
        requires
            old(self).wf(),
            !old(self)@.busy,
        ensures
            final(self).wf(),
            final(self)@ == old(self)@.record(Event::Begin, true),
    {
        self.busy = true;
        proof {
            self.journal@ = self.journal@.push(Event::Begin);
            lemma_push(old(self).journal@, Event::Begin);
        }
    }

    fn note(&mut self, Ghost(event): Ghost<Event>)
        requires
            old(self).wf(),
            old(self)@.busy,
            event is Sent || event is Read,
        ensures
            final(self).wf(),
            final(self)@ == old(self)@.record(event, true),
    {
        proof {
            self.journal@ = self.journal@.push(event);
            lemma_push(old(self).journal@, event);
        }
    }

    fn release(&mut self)
        requires
            old(self).wf(),
            old(self)@.busy,
        ensures
            final(self).wf(),
            final(self)@ == old(self)@.record(Event::End, false),
    {
        self.busy = false;
        proof {
            self.journal@ = self.journal@.push(Event::End);
            lemma_push(old(self).journal@, Event::End);
        }
    }

    /// One whole exchange: acquire, write `request`, read `expected_len`
    /// bytes where that is not zero, release.  On a busy channel nothing is
    /// written and nothing changes; otherwise the channel is free again
    /// afterwards, whatever the transport did.
    pub fn transact(&mut self, request: &[u8], expected_len: usize) -> (outcome: Result<
        Vec<u8>,
        Error,
    >)
        requires
            old(self).wf(),
        ensures
            final(self).wf(),
            transacted(old(self)@, final(self)@, request@, expected_len as nat, outcome is Ok),
            old(self)@.busy ==> outcome == Err::<Vec<u8>, Error>(Error::ResourceBusy),
            !old(self)@.busy && outcome is Err ==> from_transport(outcome->Err_0),
            outcome is Ok ==> outcome->Ok_0@.len() == expected_len,
    {
        if self.begin_transaction().is_err() {
            return Err(Error::ResourceBusy);
        }
        let ghost before = old(self)@.journal;
        match self.send(request) {
            Err(error) => {
                assert(self@.journal =~= before + exchange(request@, expected_len as nat, false));
                return Err(error);
            },
            Ok(()) => {},
        }
        if expected_len == 0 {
            self.end_transaction();
            assert(self@.journal =~= before + exchange(request@, expected_len as nat, false));
            return Ok(Vec::new());
        }
        let outcome = self.receive(expected_len);
        self.end_transaction();
        assert(self@.journal =~= before + exchange(request@, expected_len as nat, true));
        outcome
    }
}

/// Recording one event keeps a journal well bracketed where the event may
/// stand there, and opens or closes a transaction as the event says.
pub proof fn lemma_push(journal: Seq<Event>, event: Event)
    requires
        well_bracketed(journal),
        event is Begin ==> !open_after(journal),
        !(event is Begin) ==> open_after(journal),
    ensures
        well_bracketed(journal.push(event)),
        open_after(journal.push(event)) == !(event is End),
{
    let longer = journal.push(event);
    assert(longer.drop_last() =~= journal);
    assert(longer.last() == event);
}

/// A prefix of a well-bracketed journal is well bracketed.
pub proof fn lemma_prefix(journal: Seq<Event>, n: int)
    requires
        well_bracketed(journal),
        0 <= n <= journal.len(),
    ensures
        well_bracketed(journal.take(n)),
    decreases journal.len(),
{
    if n < journal.len() {
        lemma_prefix(journal.drop_last(), n);
        assert(journal.drop_last().take(n) =~= journal.take(n));
    } else {
        assert(journal.take(n) =~= journal);
    }
}

/// A transaction that is open after `from` events and closed after `to`
/// events was released by an `End` in between.
proof fn lemma_closed_by_end(journal: Seq<Event>, from: int, to: int) -> (m: int)
    requires
        0 <= from <= to <= journal.len(),
        open_after(journal.take(from)),
        !open_after(journal.take(to)),
    ensures
        from <= m < to,
        journal[m] is End,
    decreases to - from,
{
    let shorter = journal.take(to - 1);
    assert(from < to);
    assert(journal.take(to).drop_last() =~= shorter);
    assert(journal.take(to).last() == journal[to - 1]);
    if journal[to - 1] is End {
        to - 1
    } else {
        lemma_closed_by_end(journal, from, to - 1)
    }
}

/// Transactions never overlap: in the journal of a channel, between any two
/// `Begin` events stands the `End` that closed the first.
pub proof fn lemma_transactions_never_overlap(journal: Seq<Event>, first: int, second: int)
    requires
        well_bracketed(journal),
        0 <= first < second < journal.len(),
        journal[first] is Begin,
        journal[second] is Begin,
    ensures
        exists|end: int| first < end < second && #[trigger] journal[end] is End,
{
    lemma_prefix(journal, second + 1);
    assert(journal.take(second + 1).drop_last() =~= journal.take(second));
    assert(journal.take(second + 1).last() == journal[second]);
    assert(journal.take(first + 1).last() == journal[first]);
    let end = lemma_closed_by_end(journal, first + 1, second);
    assert(journal[end] is End);
}

/// Traffic belongs to a transaction: every write and read in the journal of
/// a channel comes after a `Begin` with no event between the two that is an
/// `End` or another `Begin`, so the bytes of two transactions never mix.
pub proof fn lemma_traffic_inside_transaction(journal: Seq<Event>, at: int) -> (begin: int)
    requires
        well_bracketed(journal),
        0 <= at < journal.len(),
        journal[at] is Sent || journal[at] is Read,
    ensures
        0 <= begin < at,
        journal[begin] is Begin,
        forall|k: int| begin < k < at ==> !(#[trigger] journal[k] is End) && !(journal[k] is Begin),
{
    lemma_prefix(journal, at + 1);
    assert(journal.take(at + 1).drop_last() =~= journal.take(at));
    assert(journal.take(at + 1).last() == journal[at]);
    lemma_opened_by_begin(journal, at)
}

/// A transaction that is open after `to` events was opened by a `Begin`
/// before them, and nothing but traffic has followed it.
proof fn lemma_opened_by_begin(journal: Seq<Event>, to: int) -> (begin: int)
    requires
        0 <= to <= journal.len(),
        open_after(journal.take(to)),
    ensures
        0 <= begin < to,
        journal[begin] is Begin,
        forall|k: int| begin < k < to ==> !(#[trigger] journal[k] is End) && !(journal[k] is Begin),
    decreases to,
{
    assert(to > 0);
    assert(journal.take(to).drop_last() =~= journal.take(to - 1));
    assert(journal.take(to).last() == journal[to - 1]);
    if journal[to - 1] is Begin {
        to - 1
    } else {
        lemma_opened_by_begin(journal, to - 1)
    }
}

/// While a transaction is active, asking for another one is refused with
/// `ResourceBusy` and leaves the channel as it was, however often it is
/// asked.
pub proof fn lemma_begin_while_active_is_refused(s: ChannelModel)
    requires
        s.busy,
    ensures
        begin_outcome(s) == Err::<(), Error>(Error::ResourceBusy),
        after_begin(s) == s,
        begin_outcome(after_begin(s)) == Err::<(), Error>(Error::ResourceBusy),
{
}

/// A transaction that was granted is active: the next request is refused
/// until the channel is released.
pub proof fn lemma_granted_transaction_excludes_next(s: ChannelModel)
    requires
        begin_outcome(s) is Ok,
    ensures
        begin_outcome(after_begin(s)) == Err::<(), Error>(Error::ResourceBusy),
        begin_outcome(after_end(after_begin(s))) is Ok,
{
}

/// No lockout: after a read that failed, by a timeout or by a transport
/// fault, the next transaction is granted, whatever state the read was made
/// in.
pub proof fn lemma_failed_receive_frees_channel(
    s: ChannelModel,
    reply: Result<Seq<u8>, TransportFault>,
    expected_len: nat,
)
    requires
        receive_outcome(reply, expected_len) is Err,
    ensures
        begin_outcome(after_receive(s, expected_len, receive_outcome(reply, expected_len) is Ok))
            is Ok,
{
}

/// A read that brought fewer bytes than were asked for is a timeout.
pub proof fn lemma_short_read_times_out(bytes: Seq<u8>, expected_len: nat)
    requires
        bytes.len() < expected_len,
    ensures
        receive_outcome(Ok(bytes), expected_len) == Err::<Seq<u8>, Error>(Error::Timeout),
{
}

} // verus!
