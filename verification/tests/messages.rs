use glyphic::channel_interface::{cross_wire, InterfaceHandle, TestRxMessage, TestTxMessage};
use glyphic::client::{BusAction, BusEvent, BusSource, MessageBus};
use glyphic::dispatch::{Cli, GlyphDispatch, PREDICTED_TOKENS};
use glyphic::operator::{operator_step, user_input, OperatorAction, OperatorEvent, OperatorMessage};

#[test]
fn scripted_operator_enters_test() {
    assert_eq!(user_input().message, "Test");
}

#[test]
fn operator_prints_what_it_receives() {
    let msg = OperatorMessage { message: String::from("hello") };
    match operator_step(OperatorEvent::Received(Some(msg))) {
        OperatorAction::Print(m) => assert_eq!(m.message, "hello"),
        _ => panic!("expected print"),
    }
    assert!(matches!(operator_step(OperatorEvent::Received(None)), OperatorAction::Idle));
    assert!(matches!(operator_step(OperatorEvent::SendFinished), OperatorAction::Idle));
}

#[test]
fn operator_sends_what_is_entered() {
    match operator_step(OperatorEvent::UserInput(user_input())) {
        OperatorAction::Send(m) => assert_eq!(m.message, "Test"),
        _ => panic!("expected send"),
    }
}

#[test]
fn bus_reports_triggers_and_stops_on_close() {
    let bus = MessageBus::new();
    assert_eq!(bus.on_event(BusEvent::Received(BusSource::Net)), BusAction::Trigger(BusSource::Net));
    assert_eq!(bus.on_event(BusEvent::Received(BusSource::File)), BusAction::Trigger(BusSource::File));
    assert_eq!(bus.on_event(BusEvent::Closed(BusSource::Net)), BusAction::Stop);
    assert_eq!(bus.on_event(BusEvent::Closed(BusSource::File)), BusAction::Stop);
}

#[test]
fn dispatch_builds_completion_requests() {
    let dispatch = GlyphDispatch::new(String::from("http://localhost:8080/"));
    assert_eq!(dispatch.system_prompt, "You are a helpful assistant");
    assert_eq!(dispatch.target_url, "http://localhost:8080/");
    assert_eq!(dispatch.completion_url(), "http://localhost:8080/completion");
    let request = dispatch.completion_request(Cli { input: String::from("hi there\n") });
    assert_eq!(request.prompt, "hi there\n");
    assert_eq!(request.n_predict, 128);
    assert_eq!(PREDICTED_TOKENS, 128);
}

#[test]
fn interface_handles_are_cross_wired() {
    let (internal, external) = cross_wire(("out-tx", "out-rx"), ("in-tx", "in-rx"));
    assert_eq!((internal.tx, internal.rx), ("out-tx", "in-rx"));
    assert_eq!((external.tx, external.rx), ("in-tx", "out-rx"));
    let handle = InterfaceHandle::new(1, 2);
    assert_eq!((handle.tx, handle.rx), (1, 2));
}

#[test]
fn cross_wired_channels_carry_messages_both_ways() {
    let (internal, external) = cross_wire(std::sync::mpsc::channel::<TestTxMessage>(), std::sync::mpsc::channel::<TestRxMessage>());
    internal.tx.send(TestTxMessage { message: String::from("from node") }).unwrap();
    assert_eq!(external.rx.recv().unwrap().message, "from node");
    external.tx.send(TestRxMessage { message: String::from("to node") }).unwrap();
    assert_eq!(internal.rx.recv().unwrap().message, "to node");
}
