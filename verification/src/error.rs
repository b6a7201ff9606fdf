//! The ways in which a request can fail.
use vstd::prelude::*;

verus! {

/// The serializer could not turn a value into a body.
#[derive(Clone, Debug, PartialEq, Eq)]
pub struct EncodeError {
    /// What the serializer said.
    pub message: String,
}

/// What went wrong in the transport engine.
#[derive(Clone, Copy, Debug, PartialEq, Eq)]
pub enum TransportKind {
    /// No connection could be made.
    Connect,
    /// The exchange took too long.
    Timeout,
    /// What was exchanged was not HTTP as the engine understands it.
    Protocol,
}

/// The transport engine could not complete the exchange.
#[derive(Clone, Debug, PartialEq, Eq)]
pub struct TransportError {
    pub kind: TransportKind,
    /// What the engine said.
    pub message: String,
}

/// Why a submission ended without a response.
#[derive(Clone, Debug, PartialEq, Eq)]
pub enum RequestError {
    /// The body could not be encoded. Nothing was handed to the transport.
    Build(EncodeError),
    /// The transport engine failed.
    Transport(TransportError),
}

} // verus!
