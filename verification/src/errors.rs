use vstd::prelude::*;

verus! {

/// Connection-scoped failures of the proxy core.
///
/// Every variant is terminal for its connection; none of them affects
/// other connections or the accept loop.
#[derive(Clone, Copy, Debug, PartialEq, Eq, Structural)]
pub enum ProxyError {
    /// A startup-phase message arrived out of the allowed sequence
    /// (for example a repeated SSL or GSS request).
    ProtocolViolation,
    /// TLS is required by configuration but the client sent its startup
    /// message over the raw channel.
    InsecureConnection,
    /// The authentication backend rejected the client.
    AuthenticationFailure,
    /// The connection to the compute node could not be established.
    ComputeConnectFailure,
    /// A read or write on an underlying stream failed; not reportable
    /// to the client in protocol terms.
    TransportFailure,
}

impl ProxyError {
    /// The text a driver puts into the error message sent to the client.
    pub fn message(&self) -> (r: &'static str)
        ensures
            *self == ProxyError::ProtocolViolation ==> r@ == "protocol violation"@,
            *self == ProxyError::InsecureConnection ==> r@ == (
            "connection is insecure (try using `sslmode=require`)"@),
            *self == ProxyError::AuthenticationFailure ==> r@ == "authentication failed"@,
            *self == ProxyError::ComputeConnectFailure ==> r@ == (
            "could not connect to the compute node"@),
            *self == ProxyError::TransportFailure ==> r@ == "connection lost"@,
    {
        match self {
            ProxyError::ProtocolViolation => "protocol violation",
            ProxyError::InsecureConnection => "connection is insecure (try using `sslmode=require`)",
            ProxyError::AuthenticationFailure => "authentication failed",
            ProxyError::ComputeConnectFailure => "could not connect to the compute node",
            ProxyError::TransportFailure => "connection lost",
        }
    }
}

} // verus!
