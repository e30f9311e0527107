use vstd::prelude::*;

use crate::bus::EventBus;
use crate::decode::{decode, decoded};

verus! {

/// Which producer feeds the bus for the life of the process.
#[derive(Clone, Copy, Debug, PartialEq, Eq, Structural)]
pub enum Producer {
    Hardware,
    Synthetic,
}

/// The input port to connect to, given how many were found: the first one,
/// or none when there is no device.
pub fn port_to_open(port_count: usize) -> (r: Option<usize>)
    ensures
        port_count == 0 ==> r is None,
        port_count > 0 ==> r == Some(0usize),
{
    if port_count == 0 {
        None
    } else {
        Some(0)
    }
}

/// The producer that runs: the hardware one only when a port was found and
/// the connection to it succeeded; the synthetic one otherwise.
pub fn active_producer(port_count: usize, connected: bool) -> (r: Producer)
    ensures
        r == (if port_count > 0 && connected {
            Producer::Hardware
        } else {
            Producer::Synthetic
        }),
{
    if port_count > 0 && connected {
        Producer::Hardware
    } else {
        Producer::Synthetic
    }
}

/// Handles one raw frame from the hardware: decodes it and publishes the
/// event, if any. Frames that do not decode are dropped. Returns whether an
/// event was kept by the bus.
pub fn ingest(bus: &mut EventBus, frame: &[u8]) -> (kept: bool)
    requires
        old(bus).wf(),
    ensures
        final(bus).wf(),
        match decoded(frame@) {
            Some(e) => {
                &&& final(bus)@ == old(bus)@.published(e)
                &&& kept == (old(bus)@.has_subscribers() && old(bus)@.history.len() < u64::MAX)
            },
            None => final(bus)@ == old(bus)@ && !kept,
        },
{
    match decode(frame) {
        Some(e) => bus.publish(e),
        None => false,
    }
}

} // verus!
