//! Orchestration logic of a TLS notarization session: protocol limits, the
//! prover's session state machine, transcript commitments, the fixed HTTP
//! request surface, artifact naming and the notary's key and policy checks.

mod artifacts;
mod commit;
mod error;
mod http;
mod keys;
mod limits;
mod notary;
mod orchestrator;
mod session;

pub use artifacts::{artifact_name, artifact_paths};
pub use commit::{
    all_within, default_commit, default_ranges, direction_len, layout_fits, message_ranges,
    range_within, CommitRange, CommitmentBuilder, CommitmentConfig, Direction, HttpLayout, Purpose,
};
pub use error::SessionError;
pub use http::{
    build_request, check_status, header_views, request_builds, request_header_spec,
    request_headers, STATUS_OK, USER_AGENT,
};
pub use keys::{load_notary_key, pkcs8_secret_scalar, NotaryKey};
pub use limits::{validate_limits, ProtocolLimits};
pub use notary::{accepts, check_proposal, NotaryPhase, NotaryPolicy, NotarySession, SignatureAlg};
pub use orchestrator::{
    first_failure, lemma_actions_keep_order, next_action, next_action_spec, Action,
};
pub use session::{
    lemma_exceeding_limits_never_notarizes, lemma_failed_is_terminal, lemma_finalize_at_most_once,
    lemma_step_preserves_wf, NotaryReply, ProverPhase, ProverSession, SessionEvent, SessionState,
    Step,
};
