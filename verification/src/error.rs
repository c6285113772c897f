//! Failure taxonomy shared by the decoders and the pipeline.

use vstd::prelude::*;

verus! {

/// The four diagnostic endpoints, in dependency order.
#[derive(Clone, Copy, Debug, PartialEq, Eq, Structural)]
pub enum Stage {
    Identity,
    Mapping,
    Upstream,
    Downstream,
}

/// Why a response body was not accepted as an instance of its schema.
#[derive(Clone, Copy, Debug, PartialEq, Eq, Structural)]
pub enum SchemaError {
    /// The body is not a JSON document.
    Syntax,
    /// A required field is absent.
    MissingField,
    /// A value has another JSON type than its schema asks for.
    WrongType,
    /// An integer field is negative or does not fit in 32 bits.
    OutOfRange,
    /// An address field is not a dotted-quad IPv4 address.
    BadAddress,
    /// The hardware identifier holds something else than hex digits and colons.
    BadHardwareId,
    /// The cable interface is the empty string.
    EmptyInterface,
}

/// Why no usable response body arrived.
#[derive(Clone, Copy, Debug, PartialEq, Eq, Structural)]
pub enum NetworkError {
    /// The request could not be sent or the response could not be read.
    Transport,
    /// The call ran into its time limit.
    Timeout,
    /// The server answered with a status outside 200..=299.
    Status(u16),
}

/// Failure of one fetch: either nothing usable arrived, or what arrived did
/// not decode.
#[derive(Clone, Copy, Debug, PartialEq, Eq, Structural)]
pub enum FetchError {
    Network(NetworkError),
    Schema(SchemaError),
}

} // verus!
