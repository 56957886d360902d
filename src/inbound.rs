//! The inbound processor of a connection: it takes client messages one at a
//! time, publishes the echo of each prompt, asks for one backend call, and
//! publishes the call's outcome.

use vstd::prelude::*;
use crate::message::{
    Model,
    model_name,
    resolve,
    resolve_model,
    echo_text,
    reply_text,
    error_text,
    advisory_text,
    advisory,
    echo_line,
    reply_line,
    error_line,
};

verus! {

/// A request read from a client: the backend identifier and the prompt.
#[derive(Clone, Debug)]
pub struct ChatMessage {
    pub model: String,
    pub text: String,
}

/// A backend call that the processor asks its driver to make.
#[derive(Clone, Debug)]
pub struct BackendCall {
    pub model: Model,
    pub prompt: String,
}

/// What the driver of a connection hands to its inbound processor.
#[derive(Debug)]
pub enum InboundEvent {
    /// A client message that parsed as a request.
    Request(ChatMessage),
    /// A client text message that did not parse as a request.
    Malformed,
    /// A client frame that carries no text (binary, ping, pong).
    NonText,
    /// The outcome of the requested backend call: the reply text, or the
    /// failure's detail.
    BackendDone(Result<String, String>),
    /// The transport reported its end or an error.
    TransportEnded,
}

/// What the driver does after a step: publish `publish` in order, then make
/// `call` if there is one.  `finished` says that this flow has ended.
#[derive(Debug)]
pub struct InboundAction {
    pub publish: Vec<String>,
    pub call: Option<BackendCall>,
    pub finished: bool,
}

/// The processor's state: the backend whose reply it awaits, if any, and
/// whether the flow has ended.
#[derive(Clone, Copy, Debug)]
pub struct InboundProcessor {
    pub pending: Option<Model>,
    pub finished: bool,
}

pub open spec fn call_view(c: Option<BackendCall>) -> Option<(Model, Seq<char>)> {
    match c {
        Some(c) => Some((c.model, c.prompt@)),
        None => None,
    }
}

/// The line that reports a backend call's outcome.
pub open spec fn outcome_text(model: Model, outcome: Result<String, String>) -> Seq<char> {
    match outcome {
        Ok(reply) => reply_text(model_name(model), reply@),
        Err(detail) => error_text(model_name(model), detail@),
    }
}

impl InboundProcessor {
    /// An event that the processor can take in its state: one message at a
    /// time, and a backend outcome only while one is awaited.
    pub open spec fn expects(self, e: InboundEvent) -> bool {
        !self.finished && match e {
            InboundEvent::BackendDone(_) => self.pending.is_some(),
            InboundEvent::TransportEnded => true,
            _ => self.pending.is_none(),
        }
    }

    /// The backend awaited after event `e`.
    pub open spec fn next_pending(self, e: InboundEvent) -> Option<Model> {
        match e {
            InboundEvent::Request(m) => resolve(m.model@),
            InboundEvent::BackendDone(_) => None,
            InboundEvent::TransportEnded => None,
            _ => self.pending,
        }
    }

    /// The processor after event `e`.
    pub open spec fn next(self, e: InboundEvent) -> InboundProcessor {
        InboundProcessor { pending: self.next_pending(e), finished: e is TransportEnded }
    }

    /// The lines published on event `e`, in order.
    pub open spec fn published(self, e: InboundEvent) -> Seq<Seq<char>> {
        match e {
            InboundEvent::Request(m) => match resolve(m.model@) {
                Some(_) => seq![echo_text(m.text@)],
                None => seq![echo_text(m.text@), reply_text(m.model@, advisory_text())],
            },
            InboundEvent::BackendDone(outcome) => seq![outcome_text(self.pending.unwrap(), outcome)],
            _ => seq![],
        }
    }

    /// The backend call asked for on event `e`.
    pub open spec fn requested(self, e: InboundEvent) -> Option<(Model, Seq<char>)> {
        match e {
            InboundEvent::Request(m) => match resolve(m.model@) {
                Some(k) => Some((k, m.text@)),
                None => None,
            },
            _ => None,
        }
    }

    /// A processor at the start of a connection.
    pub fn new() -> (r: InboundProcessor)
        ensures
            r.pending.is_none(),
            !r.finished,
    {
        InboundProcessor { pending: None, finished: false }
    }

    /// Takes one event and says what to publish and which call to make.
    pub fn step(&mut self, event: InboundEvent) -> (a: InboundAction)
        requires
            old(self).expects(event),
        ensures
            *final(self) == old(self).next(event),
            a.finished == final(self).finished,
            a.publish.deep_view() == old(self).published(event),
            call_view(a.call) == old(self).requested(event),
    {
        let mut publish: Vec<String> = Vec::new();
        let mut call: Option<BackendCall> = None;
        match event {
            InboundEvent::Request(m) => {
                publish.push(echo_line(m.text.as_str()));
                match resolve_model(m.model.as_str()) {
                    Some(k) => {
                        self.pending = Some(k);
                        call = Some(BackendCall { model: k, prompt: m.text });
                    },
                    None => {
                        publish.push(reply_line(m.model.as_str(), advisory()));
                    },
                }
            },
            InboundEvent::BackendDone(outcome) => {
                let k = self.pending.unwrap();
                publish.push(outcome_line(k, &outcome));
                self.pending = None;
            },
            InboundEvent::TransportEnded => {
                self.pending = None;
                self.finished = true;
            },
            _ => {},
        }
        proof {
            assert(publish.deep_view() =~= old(self).published(event));
        }
        InboundAction { publish, call, finished: self.finished }
    }
}

/// The line that reports a backend call's outcome: the reply, or the
/// failure's detail.
pub fn outcome_line(model: Model, outcome: &Result<String, String>) -> (r: String)
    ensures
        r@ == outcome_text(model, *outcome),
{
    match outcome {
        Ok(reply) => reply_line(model.name(), reply.as_str()),
        Err(detail) => error_line(model.name(), detail.as_str()),
    }
}

/// A request that names a known backend publishes exactly two lines, the
/// echo of its prompt first and then the line for the call's outcome, and
/// asks for exactly one call, to that backend with that prompt; whatever
/// the outcome, the processor is then ready for the next request.
pub proof fn lemma_recognized_request(p: InboundProcessor, m: ChatMessage, outcome: Result<String, String>)
    requires
        p.pending.is_none(),
        !p.finished,
        resolve(m.model@).is_some(),
    ensures
        ({
            let k = resolve(m.model@).unwrap();
            let e = InboundEvent::Request(m);
            let q = p.next(e);
            let d = InboundEvent::BackendDone(outcome);
            &&& p.expects(e)
            &&& p.requested(e) == Some((k, m.text@))
            &&& q.expects(d)
            &&& q.requested(d).is_none()
            &&& model_name(k) == m.model@
            &&& p.published(e) + q.published(d) == seq![echo_text(m.text@), outcome_text(k, outcome)]
            &&& q.next(d) == p
        }),
{
    let k = resolve(m.model@).unwrap();
    let e = InboundEvent::Request(m);
    let q = p.next(e);
    let d = InboundEvent::BackendDone(outcome);
    assert(p.published(e) + q.published(d) =~= seq![echo_text(m.text@), outcome_text(k, outcome)]);
}

/// A message that does not parse publishes nothing, asks for no call and
/// leaves the processor as it was, so the next request is handled as if the
/// malformed one had never come.
pub proof fn lemma_malformed_skipped(p: InboundProcessor, e: InboundEvent)
    requires
        p.expects(InboundEvent::Malformed),
    ensures
        p.published(InboundEvent::Malformed) == Seq::<Seq<char>>::empty(),
        p.requested(InboundEvent::Malformed).is_none(),
        p.next(InboundEvent::Malformed) == p,
        p.next(InboundEvent::Malformed).expects(e) == p.expects(e),
{
    assert(p.published(InboundEvent::Malformed) =~= Seq::<Seq<char>>::empty());
}

/// A backend failure is reported as one error line naming the backend and
/// carrying the failure's detail, and the flow goes on.
pub proof fn lemma_failure_reported(p: InboundProcessor, detail: String)
    requires
        p.expects(InboundEvent::BackendDone(Err(detail))),
    ensures
        p.published(InboundEvent::BackendDone(Err(detail))) == seq![
            error_text(model_name(p.pending.unwrap()), detail@),
        ],
        !p.next(InboundEvent::BackendDone(Err(detail))).finished,
        p.next(InboundEvent::BackendDone(Err(detail))).pending.is_none(),
{
}

} // verus!
