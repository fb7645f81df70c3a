use vstd::prelude::*;

verus! {

/// A channel that carries whole messages: what one end sends in one call,
/// the other end receives in one call.
pub trait Connection {
    type ErrorType;

    fn send(&mut self, data: &[u8]) -> Result<(), Self::ErrorType>;

    fn receive(&mut self) -> Result<Vec<u8>, Self::ErrorType>;
}

} // verus!
