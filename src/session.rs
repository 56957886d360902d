//! A connection's two flows and their common end: the outbound relay
//! (medium to client) and the inbound processor (client to medium).  The
//! first flow to end cancels the other, and only then are the subscription
//! and the transport released.

use vstd::prelude::*;
use crate::inbound::{InboundEvent, InboundProcessor};

verus! {

/// One of a connection's two flows.
#[derive(Clone, Copy, Debug, PartialEq, Eq, Structural)]
pub enum Flow {
    Inbound,
    Outbound,
}

/// Where a flow stands.
#[derive(Clone, Copy, Debug, PartialEq, Eq, Structural)]
pub enum FlowState {
    Running,
    /// The flow ended by itself (its transport or the medium failed).
    Ended,
    /// The flow was stopped because the other one ended.
    Cancelled,
}

/// The lifecycle of one connection.
#[derive(Clone, Copy, Debug, PartialEq, Eq, Structural)]
pub struct Session {
    pub inbound: FlowState,
    pub outbound: FlowState,
    /// The connection's subscription to the medium is held.
    pub subscribed: bool,
    /// The connection's transport is held.
    pub transport_held: bool,
}

pub open spec fn other(f: Flow) -> Flow {
    match f {
        Flow::Inbound => Flow::Outbound,
        Flow::Outbound => Flow::Inbound,
    }
}

impl Session {
    pub open spec fn state_of(self, f: Flow) -> FlowState {
        match f {
            Flow::Inbound => self.inbound,
            Flow::Outbound => self.outbound,
        }
    }

    /// Both flows run and both resources are held.
    pub open spec fn active(self) -> bool {
        self.inbound == FlowState::Running && self.outbound == FlowState::Running
            && self.subscribed && self.transport_held
    }

    /// One flow ended, the other was cancelled, and nothing is held.
    pub open spec fn torn_down(self) -> bool {
        !self.subscribed && !self.transport_held && (
        (self.inbound == FlowState::Ended && self.outbound == FlowState::Cancelled) || (
        self.inbound == FlowState::Cancelled && self.outbound == FlowState::Ended))
    }

    pub open spec fn wf(self) -> bool {
        self.active() || self.torn_down()
    }

    pub open spec fn any_running(self) -> bool {
        self.inbound == FlowState::Running || self.outbound == FlowState::Running
    }

    /// The session after flow `f` reports its end.
    pub open spec fn after_end(self, f: Flow) -> Session {
        if self.active() {
            match f {
                Flow::Inbound => Session {
                    inbound: FlowState::Ended,
                    outbound: FlowState::Cancelled,
                    subscribed: false,
                    transport_held: false,
                },
                Flow::Outbound => Session {
                    inbound: FlowState::Cancelled,
                    outbound: FlowState::Ended,
                    subscribed: false,
                    transport_held: false,
                },
            }
        } else {
            self
        }
    }

    /// A session whose two flows have just started.
    pub fn start() -> (r: Session)
        ensures
            r.active(),
            r.wf(),
    {
        Session {
            inbound: FlowState::Running,
            outbound: FlowState::Running,
            subscribed: true,
            transport_held: true,
        }
    }

    pub fn is_active(&self) -> (r: bool)
        ensures
            r == self.active(),
    {
        self.inbound == FlowState::Running && self.outbound == FlowState::Running && self.subscribed
            && self.transport_held
    }

    /// Records that flow `f` ended.  While the session is active this
    /// returns the flow to cancel, and the session releases its
    /// subscription and transport; a flow that ends after the session was
    /// torn down changes nothing.
    pub fn flow_ended(&mut self, f: Flow) -> (cancel: Option<Flow>)
        requires
            old(self).wf(),
        ensures
            *final(self) == old(self).after_end(f),
            final(self).wf(),
            cancel == (if old(self).active() {
                Some(other(f))
            } else {
                None
            }),
    {
        if self.is_active() {
            match f {
                Flow::Inbound => {
                    self.inbound = FlowState::Ended;
                    self.outbound = FlowState::Cancelled;
                },
                Flow::Outbound => {
                    self.inbound = FlowState::Cancelled;
                    self.outbound = FlowState::Ended;
                },
            }
            self.subscribed = false;
            self.transport_held = false;
            let c = match f {
                Flow::Inbound => Flow::Outbound,
                Flow::Outbound => Flow::Inbound,
            };
            Some(c)
        } else {
            None
        }
    }
}

/// Whichever flow of an active session ends first, no flow runs afterwards,
/// the subscription and the transport are released, and the session stays
/// so whatever flow reports its end later.
pub proof fn lemma_first_end_tears_down(s: Session, f: Flow, g: Flow)
    requires
        s.active(),
    ensures
        s.after_end(f).torn_down(),
        !s.after_end(f).any_running(),
        s.after_end(f).state_of(f) == FlowState::Ended,
        s.after_end(f).state_of(other(f)) == FlowState::Cancelled,
        s.after_end(f).after_end(g) == s.after_end(f),
{
}

/// When the transport closes under a running session, the inbound processor
/// ends without publishing or calling anything, and the session it reports
/// to is torn down: the outbound relay is cancelled and the subscription
/// released.
pub proof fn lemma_transport_closed(p: InboundProcessor, s: Session)
    requires
        !p.finished,
        s.active(),
    ensures
        p.expects(InboundEvent::TransportEnded),
        p.next(InboundEvent::TransportEnded).finished,
        p.published(InboundEvent::TransportEnded).len() == 0,
        p.requested(InboundEvent::TransportEnded).is_none(),
        s.after_end(Flow::Inbound).outbound == FlowState::Cancelled,
        !s.after_end(Flow::Inbound).any_running(),
        !s.after_end(Flow::Inbound).subscribed,
        !s.after_end(Flow::Inbound).transport_held,
{
}

/// What the outbound relay is handed: the next message of its
/// subscription, a notice that it fell behind, or a failure.
#[derive(Debug)]
pub enum OutboundEvent {
    Received(String),
    /// The subscription fell behind the medium's buffer and lost this many
    /// messages.
    Lagged(u64),
    /// The medium was closed.
    MediumClosed,
    /// Writing to the client's transport failed.
    WriteFailed,
}

/// What the outbound relay does next.
#[derive(Debug)]
pub enum OutboundAction {
    /// Write this message to the client.
    Deliver(String),
    /// Wait for the next message.
    Wait,
    /// End the flow.
    Stop,
}

pub open spec fn delivered(a: OutboundAction) -> Option<Seq<char>> {
    match a {
        OutboundAction::Deliver(m) => Some(m@),
        _ => None,
    }
}

/// Decides the outbound relay's next move: a received message is delivered
/// unchanged, a lag is passed over, and a closed medium or a failed write
/// ends the flow.
pub fn outbound_step(event: OutboundEvent) -> (a: OutboundAction)
    ensures
        delivered(a) == (match event {
            OutboundEvent::Received(m) => Some(m@),
            _ => None,
        }),
        a is Wait <==> event is Lagged,
        a is Stop <==> (event is MediumClosed || event is WriteFailed),
{
    match event {
        OutboundEvent::Received(m) => OutboundAction::Deliver(m),
        OutboundEvent::Lagged(_) => OutboundAction::Wait,
        OutboundEvent::MediumClosed => OutboundAction::Stop,
        OutboundEvent::WriteFailed => OutboundAction::Stop,
    }
}

} // verus!
