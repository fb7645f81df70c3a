use vstd::prelude::*;
use crate::network::packet_connection;

verus! {

#[derive(Debug)]
pub enum Error {
    PacketConnection(packet_connection::Error),
}

/// What the receive loop does after a receive.
#[derive(Debug, PartialEq, Eq)]
pub enum LoopAction {
    /// A stop was requested: leave the loop.
    Exit,
    /// Hand the packet to the subscribers and receive again.
    Invoke(Vec<u8>),
    /// The connection failed: request the stop, shut the connection down
    /// and leave the loop.
    StopAndShutDown,
}

/// Whether a `start` call runs the loop: only the first one does.
pub fn start_transition(was_started: bool) -> (run: bool)
    ensures
        run == !was_started,
{
    !was_started
}

/// The stop flag after a `stop` call, and whether this call is the one that
/// set it and so must shut the connection down.
pub fn stop_transition(was_stopped: bool) -> (r: (bool, bool))
    ensures
        r == (true, !was_stopped),
{
    (true, !was_stopped)
}

/// The loop's decision after a receive: leave when a stop was requested,
/// pass a packet on, and stop on a failed receive.
pub fn receive_loop_step<E>(stop_set: bool, received: Result<Vec<u8>, E>) -> (r: LoopAction)
    ensures
        stop_set ==> r is Exit,
        !stop_set && received is Ok ==> r == LoopAction::Invoke(received->Ok_0),
        !stop_set && received is Err ==> r is StopAndShutDown,
{
    if stop_set {
        return LoopAction::Exit;
    }
    match received {
        Ok(packet) => LoopAction::Invoke(packet),
        Err(_) => LoopAction::StopAndShutDown,
    }
}

} // verus!
