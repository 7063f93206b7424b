use vstd::prelude::*;

verus! {

/// A failure of the transport layer.
#[derive(Clone, Debug, PartialEq, Eq)]
pub enum ProviderError {
    /// The endpoint answered with this non-2xx HTTP status.
    Code(u16),
    /// A developer-readable description of a connection, framing or parse failure.
    Message(String),
}

/// The error object that the remote node returned in a JSON-RPC failure.
#[derive(Clone, Debug, PartialEq, Eq)]
pub struct RpcError {
    pub code: i64,
    pub message: String,
}

/// Why a call failed.
#[derive(Clone, Debug, PartialEq, Eq)]
pub enum Error {
    /// The payload did not have the expected shape.
    Decoder(String),
    /// The transport failed.
    Provider(ProviderError),
    /// The node answered with an error object.
    Rpc(RpcError),
}

} // verus!
