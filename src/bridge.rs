use vstd::prelude::*;

verus! {

/// Severity of a log notice sent by the remote peer.
#[derive(Debug, Clone, Copy, PartialEq, Eq)]
pub enum LogLevel {
    Warn,
    Error,
}

/// What the relay reads from the transport.
#[derive(Debug, Clone, Copy, PartialEq, Eq)]
pub enum Inbound {
    /// A log notice: it goes to the log, never to a waiting caller.
    Log(LogLevel),
    /// Any other message: the answer to the oldest waiting request.
    Reply,
    /// The frame could not be decoded.
    DecodeError,
    /// The transport ended.
    Closed,
}

/// What the relay does about an inbound event.
#[derive(Debug, Clone, PartialEq, Eq)]
pub enum InboundAction {
    /// Write the notice to the log.
    Log(LogLevel),
    /// Hand the message to this caller.
    Deliver(u64),
    /// A reply that no caller waits for: drop it.
    Drop,
    /// The transport is gone: these callers get the disconnect error.
    FailAll(Vec<u64>),
}

/// The blocking side of the relay: which callers wait for a reply, in the
/// order their requests were sent, and whether the transport is still there.
pub struct Bridge {
    connected: bool,
    pending: Vec<u64>,
}

/// `connected`, and the callers that wait, oldest first.
pub struct BridgeView {
    pub connected: bool,
    pub pending: Seq<u64>,
}

/// The state after `caller` submits a request, and whether it was sent
/// (`false`: the caller gets the disconnect error at once).
pub open spec fn submit_step(v: BridgeView, caller: u64) -> (BridgeView, bool) {
    if v.connected {
        (BridgeView { connected: true, pending: v.pending.push(caller) }, true)
    } else {
        (v, false)
    }
}

/// The state after the transport ends; every waiting caller is failed.
pub open spec fn disconnect_step(v: BridgeView) -> BridgeView {
    BridgeView { connected: false, pending: Seq::empty() }
}

/// Submits the callers of `callers` one after another: whether each was sent.
pub open spec fn submit_all(v: BridgeView, callers: Seq<u64>) -> (BridgeView, Seq<bool>)
    decreases callers.len(),
{
    if callers.len() == 0 {
        (v, Seq::empty())
    } else {
        let (w, sent) = submit_all(v, callers.drop_last());
        let (x, s) = submit_step(w, callers.last());
        (x, sent.push(s))
    }
}

impl Bridge {
    pub closed spec fn view(&self) -> BridgeView {
        BridgeView { connected: self.connected, pending: self.pending@ }
    }

    pub fn new() -> (r: Self)
        ensures
            r@.connected,
            r@.pending == Seq::<u64>::empty(),
    {
        Bridge { connected: true, pending: Vec::new() }
    }

    pub fn is_connected(&self) -> (r: bool)
        ensures
            r == self@.connected,
    {
        self.connected
    }

    /// A caller issues a blocking request. It is sent and the caller waits
    /// while the transport is there; otherwise the caller is answered with
    /// the disconnect error at once (`false`).
    pub fn submit(&mut self, caller: u64) -> (r: bool)
        ensures
            (final(self)@, r) == submit_step(old(self)@, caller),
    {
        if self.connected {
            self.pending.push(caller);
            true
        } else {
            false
        }
    }

    /// The transport ended: every waiting caller is returned, to be failed
    /// with the disconnect error, and no caller waits any more.
    pub fn disconnect(&mut self) -> (r: Vec<u64>)
        ensures
            r@ == old(self)@.pending,
            final(self)@ == disconnect_step(old(self)@),
    {
        self.connected = false;
        let mut out: Vec<u64> = Vec::new();
        std::mem::swap(&mut out, &mut self.pending);
        out
    }

    /// What the relay does with an inbound event.
    pub fn on_inbound(&mut self, event: Inbound) -> (r: InboundAction)
        ensures
            match event {
                Inbound::Log(level) => r == InboundAction::Log(level) && final(self)@ == old(
                    self,
                )@,
                Inbound::Reply => if old(self)@.pending.len() > 0 {
                    r == InboundAction::Deliver(old(self)@.pending[0]) && final(self)@
                        == BridgeView {
                        connected: old(self)@.connected,
                        pending: old(self)@.pending.drop_first(),
                    }
                } else {
                    r == InboundAction::Drop && final(self)@ == old(self)@
                },
                _ => (r matches InboundAction::FailAll(v) && v@ == old(self)@.pending)
                    && final(self)@ == disconnect_step(old(self)@),
            },
    {
        match event {
            Inbound::Log(level) => InboundAction::Log(level),
            Inbound::Reply => {
                if self.pending.len() > 0 {
                    let caller = self.pending.remove(0);
                    assert(self.pending@ =~= old(self)@.pending.drop_first());
                    InboundAction::Deliver(caller)
                } else {
                    InboundAction::Drop
                }
            },
            _ => InboundAction::FailAll(self.disconnect()),
        }
    }
}

/// Once the transport has ended, every caller that was waiting is failed,
/// and every request issued afterwards is answered with the disconnect
/// error instead of being sent and waited for.
pub proof fn lemma_disconnect_fails_all(v: BridgeView, later: Seq<u64>)
    ensures
        disconnect_step(v).pending.len() == 0,
        submit_all(disconnect_step(v), later).0 == disconnect_step(v),
        forall|i: int| 0 <= i < later.len() ==> !(#[trigger] submit_all(disconnect_step(v), later).1[i]),
        submit_all(disconnect_step(v), later).1.len() == later.len(),
    decreases later.len(),
{
    if later.len() > 0 {
        lemma_disconnect_fails_all(v, later.drop_last());
        let (w, sent) = submit_all(disconnect_step(v), later.drop_last());
        assert forall|i: int| 0 <= i < later.len() implies !(#[trigger] submit_all(
            disconnect_step(v),
            later,
        ).1[i]) by {
            if i < later.len() - 1 {
                assert(submit_all(disconnect_step(v), later).1[i] == sent[i]);
            }
        }
    }
}

} // verus!
