//! The channel interface of a node.
//!
//! An interface is attached to a node. TX and RX directions are always
//! referred to from the node's perspective: what the node sends on its
//! handle arrives at the handle held by the others, and the other way round.
//! The handles are generic over the channel ends, so that the wiring holds
//! whatever channels carry the messages.
use vstd::prelude::*;

verus! {

/// The interface handle which will get sent to others (or ourself) that
/// would like to communicate with this channel: a sending end and a
/// receiving end.
pub struct InterfaceHandle<TX, RX> {
    pub tx: TX,
    pub rx: RX,
}

impl<TX, RX> InterfaceHandle<TX, RX> {
    pub fn new(tx: TX, rx: RX) -> (handle: Self)
        ensures
            handle.tx == tx,
            handle.rx == rx,
    {
        Self { tx, rx }
    }
}

/// Wires two channels, each given as its (sending end, receiving end), into
/// the node's own handle and the handle for the others: the node sends on the
/// first channel, which the others receive from, and receives from the
/// second, on which the others send.
pub fn cross_wire<S1, R1, S2, R2>(outgoing: (S1, R1), incoming: (S2, R2)) -> (handles: (
    InterfaceHandle<S1, R2>,
    InterfaceHandle<S2, R1>,
))
    ensures
        handles.0.tx == outgoing.0,
        handles.0.rx == incoming.1,
        handles.1.tx == incoming.0,
        handles.1.rx == outgoing.1,
{
    let (outgoing_tx, outgoing_rx) = outgoing;
    let (incoming_tx, incoming_rx) = incoming;
    let internal = InterfaceHandle::new(outgoing_tx, incoming_rx);
    let external = InterfaceHandle::new(incoming_tx, outgoing_rx);
    (internal, external)
}

/// A message that the test node sends.
pub struct TestTxMessage {
    pub message: String,
}

/// A message that the test node receives.
pub struct TestRxMessage {
    pub message: String,
}

} // verus!
