use nexus_relay::inbound::{ChatMessage, InboundEvent, InboundProcessor, outcome_line};
use nexus_relay::message::{Model, resolve_model, echo_line, reply_line, error_line, advisory};
use nexus_relay::relay::{Credentials, Medium};
use nexus_relay::session::{Flow, FlowState, OutboundAction, OutboundEvent, Session, outbound_step};
use tokio::sync::broadcast::error::TryRecvError;

fn request(model: &str, text: &str) -> InboundEvent {
    InboundEvent::Request(ChatMessage { model: model.to_string(), text: text.to_string() })
}

#[test]
fn resolves_known_identifiers_exactly() {
    assert_eq!(resolve_model("gemini"), Some(Model::Gemini));
    assert_eq!(resolve_model("openai"), Some(Model::OpenAi));
    assert_eq!(resolve_model("deepseek"), Some(Model::DeepSeek));
    assert_eq!(resolve_model("Gemini"), None);
    assert_eq!(resolve_model("gemini "), None);
    assert_eq!(resolve_model(""), None);
    assert_eq!(resolve_model("foo"), None);
}

#[test]
fn model_names() {
    assert_eq!(Model::Gemini.name(), "gemini");
    assert_eq!(Model::OpenAi.name(), "openai");
    assert_eq!(Model::DeepSeek.name(), "deepseek");
}

#[test]
fn line_templates() {
    assert_eq!(echo_line("hi"), "You: hi");
    assert_eq!(echo_line(""), "You: ");
    assert_eq!(reply_line("openai", "Hello!"), "🤖 openai: Hello!");
    assert_eq!(error_line("deepseek", "timeout"), "🤖 Error with deepseek: timeout");
    assert_eq!(advisory(), "Please select a valid AI model.");
}

#[test]
fn outcome_lines() {
    assert_eq!(outcome_line(Model::OpenAi, &Ok("42".to_string())), "🤖 openai: 42");
    assert_eq!(outcome_line(Model::Gemini, &Err("rate limited".to_string())), "🤖 Error with gemini: rate limited");
}

#[test]
fn unknown_model_gets_advisory_without_call() {
    let mut p = InboundProcessor::new();
    let a = p.step(request("foo", "hi"));
    assert_eq!(a.publish, vec!["You: hi".to_string(), "🤖 foo: Please select a valid AI model.".to_string()]);
    assert!(a.call.is_none());
    assert!(!a.finished);
    assert!(p.pending.is_none());
}

#[test]
fn known_model_echo_then_result() {
    let mut p = InboundProcessor::new();
    let a = p.step(request("gemini", "hello"));
    assert_eq!(a.publish, vec!["You: hello".to_string()]);
    let call = a.call.unwrap();
    assert_eq!(call.model, Model::Gemini);
    assert_eq!(call.prompt, "hello");
    assert_eq!(p.pending, Some(Model::Gemini));
    let b = p.step(InboundEvent::BackendDone(Ok("hey there".to_string())));
    assert_eq!(b.publish, vec!["🤖 gemini: hey there".to_string()]);
    assert!(b.call.is_none());
    assert!(!b.finished);
    assert!(p.pending.is_none());
}

#[test]
fn malformed_message_is_skipped() {
    let mut p = InboundProcessor::new();
    let a = p.step(InboundEvent::Malformed);
    assert!(a.publish.is_empty());
    assert!(a.call.is_none());
    assert!(!a.finished);
    let b = p.step(request("deepseek", "next"));
    assert_eq!(b.publish, vec!["You: next".to_string()]);
    assert_eq!(b.call.unwrap().model, Model::DeepSeek);
}

#[test]
fn non_text_frame_is_ignored() {
    let mut p = InboundProcessor::new();
    let a = p.step(InboundEvent::NonText);
    assert!(a.publish.is_empty());
    assert!(a.call.is_none());
    assert!(!p.finished);
}

#[test]
fn backend_failure_keeps_session_open() {
    let mut p = InboundProcessor::new();
    p.step(request("gemini", "q"));
    let a = p.step(InboundEvent::BackendDone(Err("rate limited".to_string())));
    assert_eq!(a.publish, vec!["🤖 Error with gemini: rate limited".to_string()]);
    assert!(!a.finished);
    let b = p.step(request("openai", "again"));
    assert_eq!(b.publish, vec!["You: again".to_string()]);
    assert_eq!(b.call.unwrap().model, Model::OpenAi);
}

#[test]
fn transport_end_finishes_inbound() {
    let mut p = InboundProcessor::new();
    p.step(request("openai", "x"));
    let a = p.step(InboundEvent::TransportEnded);
    assert!(a.finished);
    assert!(a.publish.is_empty());
    assert!(p.finished);
    assert!(p.pending.is_none());
}

#[test]
fn first_flow_end_cancels_other() {
    let mut s = Session::start();
    assert!(s.is_active());
    assert_eq!(s.flow_ended(Flow::Inbound), Some(Flow::Outbound));
    assert_eq!(s.inbound, FlowState::Ended);
    assert_eq!(s.outbound, FlowState::Cancelled);
    assert!(!s.subscribed);
    assert!(!s.transport_held);
    assert!(!s.is_active());
    let before = s;
    assert_eq!(s.flow_ended(Flow::Outbound), None);
    assert_eq!(s, before);
}

#[test]
fn outbound_failure_cancels_inbound() {
    let mut s = Session::start();
    assert!(matches!(outbound_step(OutboundEvent::WriteFailed), OutboundAction::Stop));
    assert_eq!(s.flow_ended(Flow::Outbound), Some(Flow::Inbound));
    assert_eq!(s.inbound, FlowState::Cancelled);
    assert_eq!(s.outbound, FlowState::Ended);
    assert!(!s.subscribed);
}

#[test]
fn outbound_decisions() {
    match outbound_step(OutboundEvent::Received("You: hi".to_string())) {
        OutboundAction::Deliver(m) => assert_eq!(m, "You: hi"),
        other => panic!("unexpected {:?}", other),
    }
    assert!(matches!(outbound_step(OutboundEvent::Lagged(7)), OutboundAction::Wait));
    assert!(matches!(outbound_step(OutboundEvent::MediumClosed), OutboundAction::Stop));
}

#[test]
fn publish_without_subscribers_is_no_failure() {
    let m = Medium::new(4);
    assert_eq!(m.capacity(), 4);
    assert_eq!(m.publish("nobody".to_string()), 0);
    assert_eq!(m.publish_all(&vec!["a".to_string(), "b".to_string()]), 2);
}

#[test]
fn two_sessions_see_same_order() {
    let m = Medium::new(16);
    let mut rx1 = m.sender().subscribe();
    let mut rx2 = m.sender().subscribe();
    let mut p1 = InboundProcessor::new();
    let mut p2 = InboundProcessor::new();
    let a1 = p1.step(request("foo", "one"));
    assert_eq!(m.publish_all(&a1.publish), 2);
    let a2 = p2.step(request("gemini", "two"));
    assert_eq!(m.publish_all(&a2.publish), 1);
    let b1 = p2.step(InboundEvent::BackendDone(Ok("done".to_string())));
    assert_eq!(m.publish(b1.publish[0].clone()), 2);
    let expected = vec![
        "You: one".to_string(),
        "🤖 foo: Please select a valid AI model.".to_string(),
        "You: two".to_string(),
        "🤖 gemini: done".to_string(),
    ];
    for e in &expected {
        assert_eq!(&rx1.try_recv().unwrap(), e);
        assert_eq!(&rx2.try_recv().unwrap(), e);
    }
    assert!(matches!(rx1.try_recv(), Err(TryRecvError::Empty)));
    assert!(matches!(rx2.try_recv(), Err(TryRecvError::Empty)));
}

#[test]
fn lagging_subscriber_gets_lag_signal() {
    let m = Medium::new(2);
    let mut slow = m.sender().subscribe();
    let mut fast = m.sender().subscribe();
    for i in 0..5 {
        assert_eq!(m.publish(format!("line {}", i)), 2);
        assert_eq!(fast.try_recv().unwrap(), format!("line {}", i));
    }
    let lag = match slow.try_recv() {
        Err(TryRecvError::Lagged(n)) => n,
        other => panic!("unexpected {:?}", other),
    };
    assert_eq!(lag, 3);
    assert!(matches!(outbound_step(OutboundEvent::Lagged(lag)), OutboundAction::Wait));
    assert_eq!(slow.try_recv().unwrap(), "line 3");
    assert_eq!(slow.try_recv().unwrap(), "line 4");
}

#[test]
fn credentials_by_model() {
    let c = Credentials {
        gemini: "g-key".to_string(),
        openai: "o-key".to_string(),
        deepseek: "d-key".to_string(),
    };
    assert_eq!(c.key_for(Model::Gemini), "g-key");
    assert_eq!(c.key_for(Model::OpenAi), "o-key");
    assert_eq!(c.key_for(Model::DeepSeek), "d-key");
}
