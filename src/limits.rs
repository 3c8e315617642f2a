use vstd::prelude::*;
use crate::error::SessionError;

verus! {

/// Bounds on the bytes a prover may send to and receive from the server.
#[derive(Clone, Copy, Debug, PartialEq, Eq, Structural)]
pub struct ProtocolLimits {
    pub max_sent: usize,
    pub max_recv: usize,
}

impl ProtocolLimits {
    /// Both bounds are positive.
    pub open spec fn valid(self) -> bool {
        self.max_sent > 0 && self.max_recv > 0
    }

    /// Neither bound exceeds the corresponding bound of `policy`.
    pub open spec fn fits(self, policy: ProtocolLimits) -> bool {
        self.max_sent <= policy.max_sent && self.max_recv <= policy.max_recv
    }

    /// Builds limits, refusing a zero bound with `Config`.
    pub fn new(max_sent: usize, max_recv: usize) -> (r: Result<ProtocolLimits, SessionError>)
        ensures
            r is Ok <==> max_sent > 0 && max_recv > 0,
            r matches Ok(l) ==> l.max_sent == max_sent && l.max_recv == max_recv,
            r is Err ==> r == Err::<ProtocolLimits, SessionError>(SessionError::Config),
    {
        if max_sent == 0 || max_recv == 0 {
            Err(SessionError::Config)
        } else {
            Ok(ProtocolLimits { max_sent, max_recv })
        }
    }

    /// Whether `sent` and `recv` byte counts stay within these limits.
    pub fn admits(&self, sent: usize, recv: usize) -> (r: bool)
        ensures
            r == (sent <= self.max_sent && recv <= self.max_recv),
    {
        sent <= self.max_sent && recv <= self.max_recv
    }
}

/// Checks limits proposed by a prover against the notary's policy maxima.
pub fn validate_limits(proposed: &ProtocolLimits, policy: &ProtocolLimits) -> (r: Result<
    (),
    SessionError,
>)
    ensures
        r is Ok <==> proposed.valid() && proposed.fits(*policy),
        !proposed.valid() ==> r == Err::<(), SessionError>(SessionError::Config),
        proposed.valid() && !proposed.fits(*policy) ==> r == Err::<(), SessionError>(
            SessionError::ConfigRejected,
        ),
{
    if proposed.max_sent == 0 || proposed.max_recv == 0 {
        Err(SessionError::Config)
    } else if proposed.max_sent > policy.max_sent || proposed.max_recv > policy.max_recv {
        Err(SessionError::ConfigRejected)
    } else {
        Ok(())
    }
}

} // verus!
