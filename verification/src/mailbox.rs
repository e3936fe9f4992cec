use vstd::prelude::*;

use crate::api_enquirer::StatusReport;

verus! {

/// What a send leaves pending: the new snapshot, whatever was pending before.
pub open spec fn spec_send(
    pending: Option<Seq<StatusReport>>,
    snapshot: Seq<StatusReport>,
) -> Option<Seq<StatusReport>> {
    Some(snapshot)
}

/// The single-slot hand-off between the acquisition and dispatch loops.  At
/// most one snapshot is ever pending, and it is always the newest one sent:
/// a send overwrites an unread snapshot instead of queuing behind it.
pub struct Mailbox {
    slot: Option<Vec<StatusReport>>,
}

impl View for Mailbox {
    type V = Option<Seq<StatusReport>>;

    /// The pending snapshot, if one was sent and not yet received.
    closed spec fn view(&self) -> Option<Seq<StatusReport>> {
        match self.slot {
            Option::Some(ref v) => Some(v@),
            Option::None => None,
        }
    }
}

impl Mailbox {
    /// A mailbox with nothing pending.
    pub fn new() -> (r: Mailbox)
        ensures
            r@ is None,
    {
        Mailbox { slot: None }
    }

    /// Publishes a snapshot.  The producer is never blocked: whatever was
    /// pending is unconditionally replaced, so an unread older snapshot is
    /// dropped in favour of the new one.
    pub fn send(&mut self, snapshot: Vec<StatusReport>)
        ensures
            final(self)@ == spec_send(old(self)@, snapshot@),
    {
        self.slot = Some(snapshot);
    }

    /// Takes the pending snapshot, if any, clearing the slot.  The consumer
    /// is never blocked: with nothing pending it comes back empty-handed.
    pub fn try_receive(&mut self) -> (r: Option<Vec<StatusReport>>)
        ensures
            final(self)@ is None,
            match r {
                Option::Some(v) => old(self)@ == Some(v@),
                Option::None => old(self)@ is None,
            },
    {
        self.slot.take()
    }
}

/// Law: the mailbox is latest-wins.  After two sends with no receive between
/// them, only the second snapshot is pending, whatever was pending before;
/// the consumer can never observe the first.
pub proof fn lemma_send_overwrites(
    pending: Option<Seq<StatusReport>>,
    first: Seq<StatusReport>,
    second: Seq<StatusReport>,
)
    ensures
        spec_send(spec_send(pending, first), second) == Some(second),
{
}

} // verus!
