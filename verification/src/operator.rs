//! The operator plugin: messages between the operator and the system, and
//! what the operator loop does with each thing that happens to it.
use vstd::prelude::*;

verus! {

/// A line of text exchanged with the operator.
#[derive(Debug)]
pub struct OperatorMessage {
    pub message: String,
}

/// The message that the scripted operator enters each round: `Test`.
pub fn user_input() -> (input: OperatorMessage)
    ensures
        input.message@ == "Test"@,
{
    OperatorMessage { message: String::from_str("Test") }
}

/// What the operator loop can be woken by.
pub enum OperatorEvent {
    /// The receiving side yielded: a message, or nothing once it is closed.
    Received(Option<OperatorMessage>),
    /// The send under way completed (its outcome is not looked at).
    SendFinished,
    /// The operator entered a message.
    UserInput(OperatorMessage),
}

/// What the operator loop does in answer.
pub enum OperatorAction {
    /// Show the message to the operator.
    Print(OperatorMessage),
    /// Nothing to do.
    Idle,
    /// Start sending the message, in place of any send still under way.
    Send(OperatorMessage),
}

/// The decision of the operator loop for one event: a received message is
/// shown, a closed receiver and a finished send change nothing, and what the
/// operator enters is sent on.
pub fn operator_step(event: OperatorEvent) -> (action: OperatorAction)
    ensures
        match event {
            OperatorEvent::Received(Some(message)) => action == OperatorAction::Print(message),
            OperatorEvent::Received(None) => action == OperatorAction::Idle,
            OperatorEvent::SendFinished => action == OperatorAction::Idle,
            OperatorEvent::UserInput(message) => action == OperatorAction::Send(message),
        },
{
    match event {
        OperatorEvent::Received(Some(message)) => OperatorAction::Print(message),
        OperatorEvent::Received(None) => OperatorAction::Idle,
        OperatorEvent::SendFinished => OperatorAction::Idle,
        OperatorEvent::UserInput(message) => OperatorAction::Send(message),
    }
}

} // verus!
