use vstd::prelude::*;
use crate::error::SessionError;
use crate::limits::{validate_limits, ProtocolLimits};

verus! {

/// Signature algorithms a notary may sign attestations with.
#[derive(Clone, Copy, Debug, PartialEq, Eq, Structural)]
pub enum SignatureAlg {
    Secp256k1,
    Secp256r1,
}

/// What a notary accepts: maxima for the protocol limits and the signature
/// algorithms it supports.
pub struct NotaryPolicy {
    pub limits: ProtocolLimits,
    pub algorithms: Vec<SignatureAlg>,
}

/// The proposal is acceptable under `policy`.
pub open spec fn accepts(policy: &NotaryPolicy, proposed: ProtocolLimits, alg: SignatureAlg) -> bool {
    proposed.valid() && proposed.fits(policy.limits) && policy.algorithms@.contains(alg)
}

/// Whether `alg` is among `algs`.
fn supports(algs: &Vec<SignatureAlg>, alg: SignatureAlg) -> (r: bool)
    ensures
        r == algs@.contains(alg),
{
    let mut i: usize = 0;
    while i < algs.len()
        invariant
            i <= algs@.len(),
            forall|j: int| 0 <= j < i ==> algs@[j] != alg,
        decreases algs@.len() - i,
    {
        if algs[i] == alg {
            return true;
        }
        i = i + 1;
    }
    false
}

/// Checks a prover's proposed limits and signature algorithm against the
/// notary's policy: invalid limits are `Config`; limits over the policy's
/// maxima or an unsupported algorithm are `ConfigRejected`.
pub fn check_proposal(policy: &NotaryPolicy, proposed: &ProtocolLimits, alg: SignatureAlg) -> (r:
    Result<(), SessionError>)
    ensures
        r is Ok <==> accepts(policy, *proposed, alg),
        !proposed.valid() ==> r == Err::<(), SessionError>(SessionError::Config),
        proposed.valid() && !accepts(policy, *proposed, alg) ==> r == Err::<(), SessionError>(
            SessionError::ConfigRejected,
        ),
{
    let v = validate_limits(proposed, &policy.limits);
    if v.is_err() {
        return v;
    }
    if supports(&policy.algorithms, alg) {
        Ok(())
    } else {
        Err(SessionError::ConfigRejected)
    }
}

/// Where a notary session stands; `Done` and `Failed` are terminal.
#[derive(Clone, Copy, Debug, PartialEq, Eq, Structural)]
pub enum NotaryPhase {
    AwaitingConnection,
    Validating,
    Notarizing,
    Done,
    Failed,
}

/// One notarization, from an incoming channel to the signed attestation.
pub struct NotarySession {
    phase: NotaryPhase,
}

impl NotarySession {
    pub closed spec fn spec_phase(&self) -> NotaryPhase {
        self.phase
    }

    /// A session waiting for its channel.
    pub fn new() -> (r: NotarySession)
        ensures
            r.spec_phase() == NotaryPhase::AwaitingConnection,
    {
        NotarySession { phase: NotaryPhase::AwaitingConnection }
    }

    pub fn phase(&self) -> (r: NotaryPhase)
        ensures
            r == self.spec_phase(),
    {
        self.phase
    }

    /// A channel arrived: the prover's proposal is next.
    pub fn accept(&mut self) -> (r: Result<(), SessionError>)
        ensures
            old(self).spec_phase() == NotaryPhase::AwaitingConnection ==> r is Ok
                && final(self).spec_phase() == NotaryPhase::Validating,
            old(self).spec_phase() != NotaryPhase::AwaitingConnection ==> r == Err::<
                (),
                SessionError,
            >(SessionError::State) && final(self).spec_phase() == old(self).spec_phase(),
    {
        if self.phase == NotaryPhase::AwaitingConnection {
            self.phase = NotaryPhase::Validating;
            Ok(())
        } else {
            Err(SessionError::State)
        }
    }

    /// Validates the prover's proposal; a refused proposal fails the session.
    pub fn validate(&mut self, policy: &NotaryPolicy, proposed: &ProtocolLimits, alg: SignatureAlg) -> (r:
        Result<(), SessionError>)
        ensures
            old(self).spec_phase() != NotaryPhase::Validating ==> r == Err::<(), SessionError>(
                SessionError::State,
            ) && final(self).spec_phase() == old(self).spec_phase(),
            old(self).spec_phase() == NotaryPhase::Validating ==> (r is Ok <==> accepts(
                policy,
                *proposed,
                alg,
            )) && (r is Ok ==> final(self).spec_phase() == NotaryPhase::Notarizing) && (r is Err
                ==> final(self).spec_phase() == NotaryPhase::Failed && (!proposed.valid() ==> r
                == Err::<(), SessionError>(SessionError::Config)) && (proposed.valid() ==> r
                == Err::<(), SessionError>(SessionError::ConfigRejected))),
    {
        if self.phase != NotaryPhase::Validating {
            return Err(SessionError::State);
        }
        let r = check_proposal(policy, proposed, alg);
        if r.is_ok() {
            self.phase = NotaryPhase::Notarizing;
        } else {
            self.phase = NotaryPhase::Failed;
        }
        r
    }

    /// Outcome of receiving the commitment and signing it; a failure is
    /// `Protocol` and ends the session.
    pub fn sign(&mut self, ok: bool) -> (r: Result<(), SessionError>)
        ensures
            old(self).spec_phase() != NotaryPhase::Notarizing ==> r == Err::<(), SessionError>(
                SessionError::State,
            ) && final(self).spec_phase() == old(self).spec_phase(),
            old(self).spec_phase() == NotaryPhase::Notarizing && ok ==> r is Ok
                && final(self).spec_phase() == NotaryPhase::Done,
            old(self).spec_phase() == NotaryPhase::Notarizing && !ok ==> r == Err::<
                (),
                SessionError,
            >(SessionError::Protocol) && final(self).spec_phase() == NotaryPhase::Failed,
    {
        if self.phase != NotaryPhase::Notarizing {
            Err(SessionError::State)
        } else if ok {
            self.phase = NotaryPhase::Done;
            Ok(())
        } else {
            self.phase = NotaryPhase::Failed;
            Err(SessionError::Protocol)
        }
    }
}

} // verus!
