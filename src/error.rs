use vstd::prelude::*;

verus! {

/// Every way a notarization session can fail.
#[derive(Clone, Copy, Debug, PartialEq, Eq, Structural)]
pub enum SessionError {
    /// Invalid protocol limits or build-time misconfiguration.
    Config,
    /// Proposed protocol limits or signature algorithm exceed the notary's policy.
    ConfigRejected,
    /// The local engine or the channel negotiation failed.
    Setup,
    /// The outbound connection to the server failed.
    Connection,
    /// The shielded transport failed, or a transcript limit was exceeded.
    Protocol,
    /// The server answered with a status other than 200.
    UnexpectedStatus(u16),
    /// The transcript does not split into a complete request and response.
    MalformedTranscript,
    /// The notary declined the commitment.
    Rejected,
    /// An artifact could not be written.
    Persist,
    /// An operation was invoked out of its required order.
    State,
}

} // verus!
