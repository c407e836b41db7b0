//! The message bus of the glyph client: it listens to the network handler
//! and the file loader until either of them hangs up.
use vstd::prelude::*;

verus! {

/// The nodes that talk to the message bus.
#[derive(Debug, Clone, Copy, PartialEq, Eq, Structural)]
pub enum BusSource {
    Net,
    File,
}

/// What the message bus can hear from a node.
#[derive(Debug, Clone, Copy, PartialEq, Eq, Structural)]
pub enum BusEvent {
    /// The node sent a message.
    Received(BusSource),
    /// The node's channel is closed.
    Closed(BusSource),
}

/// What the message bus does in answer.
#[derive(Debug, Clone, Copy, PartialEq, Eq, Structural)]
pub enum BusAction {
    /// Report that the node triggered, and keep listening.
    Trigger(BusSource),
    /// Stop listening.
    Stop,
}

/// The message bus between the glyph client's nodes.
pub struct MessageBus {}

impl MessageBus {
    pub fn new() -> Self {
        Self {}
    }

    /// A message from a node is reported as that node's trigger; a closed
    /// channel, from either node, stops the bus.
    pub fn on_event(&self, event: BusEvent) -> (action: BusAction)
        ensures
            match event {
                BusEvent::Received(source) => action == BusAction::Trigger(source),
                BusEvent::Closed(_) => action == BusAction::Stop,
            },
    {
        match event {
            BusEvent::Received(source) => BusAction::Trigger(source),
            BusEvent::Closed(_) => BusAction::Stop,
        }
    }
}

} // verus!
