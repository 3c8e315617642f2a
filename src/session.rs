use vstd::prelude::*;
use crate::commit::CommitmentConfig;
use crate::error::SessionError;
use crate::limits::ProtocolLimits;

verus! {

/// Where a prover session stands. Sessions only move forward; `Finalized`
/// and `Failed` are terminal.
#[derive(Clone, Copy, Debug, PartialEq, Eq, Structural)]
pub enum ProverPhase {
    Idle,
    SettingUp,
    Connected,
    Notarizing,
    Finalized,
    Failed,
}

/// The notary's answer to a finalize request.
#[derive(Clone, Copy, Debug, PartialEq, Eq, Structural)]
pub enum NotaryReply {
    /// A signed attestation came back.
    Signed,
    /// The channel to the notary failed.
    TransportFailed,
    /// The notary's policy declined the commitment.
    Declined,
}

/// Plain record of a prover session.
#[derive(Clone, Copy, Debug, PartialEq, Eq, Structural)]
pub struct SessionState {
    pub phase: ProverPhase,
    pub limits: ProtocolLimits,
    /// Bytes sent to the server so far.
    pub sent: usize,
    /// Bytes received from the server so far.
    pub recv: usize,
    /// The server's response carried status 200.
    pub response_ok: bool,
    /// The background protocol task has been joined; the transcript is frozen.
    pub background_joined: bool,
    /// A commitment has been handed to the notary.
    pub finalize_requested: bool,
}

/// One outside occurrence that drives a prover session.
#[derive(Clone, Copy, Debug, PartialEq, Eq, Structural)]
pub enum SessionEvent {
    Setup(bool),
    Connect(bool),
    Sent(usize),
    Received(usize),
    Response(u16),
    BackgroundJoined(bool),
    StartNotarize,
    /// A finalize request for a commitment built over a transcript of the
    /// given sent and received lengths.
    RequestFinalize(usize, usize),
    FinalizeReply(NotaryReply),
}

/// What an operation leaves behind: the next state and the outcome.
pub type Step = (SessionState, Result<(), SessionError>);

impl SessionState {
    /// The limits are valid and the transcript stays within them.
    pub open spec fn wf(self) -> bool {
        &&& self.limits.valid()
        &&& self.sent <= self.limits.max_sent
        &&& self.recv <= self.limits.max_recv
        &&& (self.phase == ProverPhase::Notarizing || self.phase == ProverPhase::Finalized)
            ==> self.response_ok && self.background_joined
        &&& self.phase == ProverPhase::Finalized ==> self.finalize_requested
    }

    /// The session fails with `e`; nothing else changes.
    pub open spec fn fail(self, e: SessionError) -> Step {
        (SessionState { phase: ProverPhase::Failed, ..self }, Err(e))
    }

    /// The operation is out of order: the state is untouched.
    pub open spec fn refuse(self) -> Step {
        (self, Err(SessionError::State))
    }

    pub open spec fn after_setup(self, ok: bool) -> Step {
        if self.phase != ProverPhase::Idle {
            self.refuse()
        } else if ok {
            (SessionState { phase: ProverPhase::SettingUp, ..self }, Ok(()))
        } else {
            self.fail(SessionError::Setup)
        }
    }

    pub open spec fn after_connect(self, ok: bool) -> Step {
        if self.phase != ProverPhase::SettingUp {
            self.refuse()
        } else if ok {
            (SessionState { phase: ProverPhase::Connected, ..self }, Ok(()))
        } else {
            self.fail(SessionError::Connection)
        }
    }

    /// Bytes may move only while connected and before the transcript freezes.
    pub open spec fn exchanging(self) -> bool {
        self.phase == ProverPhase::Connected && !self.background_joined
    }

    pub open spec fn after_sent(self, n: usize) -> Step {
        if !self.exchanging() {
            self.refuse()
        } else if self.sent + n > self.limits.max_sent {
            self.fail(SessionError::Protocol)
        } else {
            (SessionState { sent: (self.sent + n) as usize, ..self }, Ok(()))
        }
    }

    pub open spec fn after_received(self, n: usize) -> Step {
        if !self.exchanging() {
            self.refuse()
        } else if self.recv + n > self.limits.max_recv {
            self.fail(SessionError::Protocol)
        } else {
            (SessionState { recv: (self.recv + n) as usize, ..self }, Ok(()))
        }
    }

    pub open spec fn after_response(self, status: u16) -> Step {
        if self.phase != ProverPhase::Connected || self.response_ok {
            self.refuse()
        } else if status == 200 {
            (SessionState { response_ok: true, ..self }, Ok(()))
        } else {
            self.fail(SessionError::UnexpectedStatus(status))
        }
    }

    pub open spec fn after_join(self, ok: bool) -> Step {
        if self.phase != ProverPhase::Connected || self.background_joined {
            self.refuse()
        } else if ok {
            (SessionState { background_joined: true, ..self }, Ok(()))
        } else {
            self.fail(SessionError::Protocol)
        }
    }

    pub open spec fn after_start_notarize(self) -> Step {
        if self.phase == ProverPhase::Connected && self.background_joined && self.response_ok {
            (SessionState { phase: ProverPhase::Notarizing, ..self }, Ok(()))
        } else {
            self.refuse()
        }
    }

    pub open spec fn after_request_finalize(self, sent_len: usize, recv_len: usize) -> Step {
        if self.phase != ProverPhase::Notarizing || self.finalize_requested {
            self.refuse()
        } else if sent_len != self.sent || recv_len != self.recv {
            (self, Err(SessionError::Config))
        } else {
            (SessionState { finalize_requested: true, ..self }, Ok(()))
        }
    }

    pub open spec fn after_reply(self, reply: NotaryReply) -> Step {
        if self.phase != ProverPhase::Notarizing || !self.finalize_requested {
            self.refuse()
        } else {
            match reply {
                NotaryReply::Signed => (
                    SessionState { phase: ProverPhase::Finalized, ..self },
                    Ok(()),
                ),
                NotaryReply::TransportFailed => self.fail(SessionError::Protocol),
                NotaryReply::Declined => self.fail(SessionError::Rejected),
            }
        }
    }

    /// The effect of one event.
    pub open spec fn step(self, ev: SessionEvent) -> Step {
        match ev {
            SessionEvent::Setup(ok) => self.after_setup(ok),
            SessionEvent::Connect(ok) => self.after_connect(ok),
            SessionEvent::Sent(n) => self.after_sent(n),
            SessionEvent::Received(n) => self.after_received(n),
            SessionEvent::Response(status) => self.after_response(status),
            SessionEvent::BackgroundJoined(ok) => self.after_join(ok),
            SessionEvent::StartNotarize => self.after_start_notarize(),
            SessionEvent::RequestFinalize(s, r) => self.after_request_finalize(s, r),
            SessionEvent::FinalizeReply(reply) => self.after_reply(reply),
        }
    }

    /// The state after a run of events, in order.
    pub open spec fn run(self, evs: Seq<SessionEvent>) -> SessionState
        decreases evs.len(),
    {
        if evs.len() == 0 {
            self
        } else {
            self.step(evs[0]).0.run(evs.drop_first())
        }
    }

    /// Whether `ev` would push a byte count past its limit.
    pub open spec fn exceeds(self, ev: SessionEvent) -> bool {
        match ev {
            SessionEvent::Sent(n) => self.sent + n > self.limits.max_sent,
            SessionEvent::Received(n) => self.recv + n > self.limits.max_recv,
            _ => false,
        }
    }
}

/// Every event keeps a well-formed session well-formed: the transcript never
/// holds more bytes than the limits allow.
pub proof fn lemma_step_preserves_wf(s: SessionState, ev: SessionEvent)
    requires
        s.wf(),
    ensures
        s.step(ev).0.wf(),
{
}

/// A failed session stays failed whatever happens next.
pub proof fn lemma_failed_is_terminal(s: SessionState, evs: Seq<SessionEvent>)
    requires
        s.phase == ProverPhase::Failed,
    ensures
        s.run(evs).phase == ProverPhase::Failed,
    decreases evs.len(),
{
    if evs.len() > 0 {
        lemma_failed_is_terminal(s.step(evs[0]).0, evs.drop_first());
    }
}

/// Exchanging bytes beyond the configured limit fails the session with
/// `Protocol` at once, and no later events bring it to `Finalized`.
pub proof fn lemma_exceeding_limits_never_notarizes(
    s: SessionState,
    ev: SessionEvent,
    rest: Seq<SessionEvent>,
)
    requires
        s.wf(),
        s.exchanging(),
        s.exceeds(ev),
    ensures
        s.step(ev).1 == Err::<(), SessionError>(SessionError::Protocol),
        s.step(ev).0.phase == ProverPhase::Failed,
        s.step(ev).0.run(rest).phase != ProverPhase::Finalized,
{
    lemma_failed_is_terminal(s.step(ev).0, rest);
}

/// A finalize request is accepted at most once: a second one is refused with
/// `State` and leaves the session as the first left it, whether or not the
/// notary has replied in between.
pub proof fn lemma_finalize_at_most_once(
    s: SessionState,
    first: (usize, usize),
    reply: Option<NotaryReply>,
    second: (usize, usize),
)
    requires
        s.wf(),
        s.after_request_finalize(first.0, first.1).1 is Ok,
    ensures
        ({
            let s1 = s.after_request_finalize(first.0, first.1).0;
            let s2 = match reply {
                Some(rp) => s1.after_reply(rp).0,
                None => s1,
            };
            s2.after_request_finalize(second.0, second.1) == s2.refuse()
        }),
{
}

/// A prover session, driven by the outcomes of the work done outside it.
pub struct ProverSession {
    st: SessionState,
}

impl View for ProverSession {
    type V = SessionState;

    closed spec fn view(&self) -> SessionState {
        self.st
    }
}

impl ProverSession {
    /// A fresh session in `Idle` with an empty transcript.
    pub fn new(limits: ProtocolLimits) -> (r: ProverSession)
        requires
            limits.valid(),
        ensures
            r@ == (SessionState {
                phase: ProverPhase::Idle,
                limits,
                sent: 0,
                recv: 0,
                response_ok: false,
                background_joined: false,
                finalize_requested: false,
            }),
            r@.wf(),
    {
        ProverSession {
            st: SessionState {
                phase: ProverPhase::Idle,
                limits,
                sent: 0,
                recv: 0,
                response_ok: false,
                background_joined: false,
                finalize_requested: false,
            },
        }
    }

    /// The session's current record.
    pub fn state(&self) -> (r: SessionState)
        ensures
            r == self@,
    {
        self.st
    }

    fn fail(&mut self, e: SessionError) -> (r: Result<(), SessionError>)
        ensures
            (final(self)@, r) == old(self)@.fail(e),
    {
        self.st.phase = ProverPhase::Failed;
        Err(e)
    }

    /// Outcome of initialising the local engine over the notary channel.
    pub fn setup(&mut self, ok: bool) -> (r: Result<(), SessionError>)
        requires
            old(self)@.wf(),
        ensures
            (final(self)@, r) == old(self)@.after_setup(ok),
            final(self)@.wf(),
    {
        if self.st.phase != ProverPhase::Idle {
            Err(SessionError::State)
        } else if ok {
            self.st.phase = ProverPhase::SettingUp;
            Ok(())
        } else {
            self.fail(SessionError::Setup)
        }
    }

    /// Outcome of binding the outbound server connection.
    pub fn connect(&mut self, ok: bool) -> (r: Result<(), SessionError>)
        requires
            old(self)@.wf(),
        ensures
            (final(self)@, r) == old(self)@.after_connect(ok),
            final(self)@.wf(),
    {
        if self.st.phase != ProverPhase::SettingUp {
            Err(SessionError::State)
        } else if ok {
            self.st.phase = ProverPhase::Connected;
            Ok(())
        } else {
            self.fail(SessionError::Connection)
        }
    }

    /// Accounts for `n` bytes about to be sent to the server.
    pub fn record_sent(&mut self, n: usize) -> (r: Result<(), SessionError>)
        requires
            old(self)@.wf(),
        ensures
            (final(self)@, r) == old(self)@.after_sent(n),
            final(self)@.wf(),
    {
        if self.st.phase != ProverPhase::Connected || self.st.background_joined {
            Err(SessionError::State)
        } else if n > self.st.limits.max_sent - self.st.sent {
            self.fail(SessionError::Protocol)
        } else {
            self.st.sent = self.st.sent + n;
            Ok(())
        }
    }

    /// Accounts for `n` bytes about to be received from the server.
    pub fn record_recv(&mut self, n: usize) -> (r: Result<(), SessionError>)
        requires
            old(self)@.wf(),
        ensures
            (final(self)@, r) == old(self)@.after_received(n),
            final(self)@.wf(),
    {
        if self.st.phase != ProverPhase::Connected || self.st.background_joined {
            Err(SessionError::State)
        } else if n > self.st.limits.max_recv - self.st.recv {
            self.fail(SessionError::Protocol)
        } else {
            self.st.recv = self.st.recv + n;
            Ok(())
        }
    }

    /// The status line of the server's response; anything but 200 fails the
    /// session before notarization can begin.
    pub fn check_response(&mut self, status: u16) -> (r: Result<(), SessionError>)
        requires
            old(self)@.wf(),
        ensures
            (final(self)@, r) == old(self)@.after_response(status),
            final(self)@.wf(),
    {
        if self.st.phase != ProverPhase::Connected || self.st.response_ok {
            Err(SessionError::State)
        } else if status == 200 {
            self.st.response_ok = true;
            Ok(())
        } else {
            self.fail(SessionError::UnexpectedStatus(status))
        }
    }

    /// Outcome of joining the background protocol task.
    pub fn join_background(&mut self, ok: bool) -> (r: Result<(), SessionError>)
        requires
            old(self)@.wf(),
        ensures
            (final(self)@, r) == old(self)@.after_join(ok),
            final(self)@.wf(),
    {
        if self.st.phase != ProverPhase::Connected || self.st.background_joined {
            Err(SessionError::State)
        } else if ok {
            self.st.background_joined = true;
            Ok(())
        } else {
            self.fail(SessionError::Protocol)
        }
    }

    /// Enters the commit phase; needs a good response and a joined
    /// background task.
    pub fn start_notarize(&mut self) -> (r: Result<(), SessionError>)
        requires
            old(self)@.wf(),
        ensures
            (final(self)@, r) == old(self)@.after_start_notarize(),
            final(self)@.wf(),
    {
        if self.st.phase == ProverPhase::Connected && self.st.background_joined
            && self.st.response_ok {
            self.st.phase = ProverPhase::Notarizing;
            Ok(())
        } else {
            Err(SessionError::State)
        }
    }

    /// Asks leave to send `config` to the notary. Granted once only, and only
    /// for a commitment built over this session's frozen transcript.
    pub fn request_finalize(&mut self, config: &CommitmentConfig) -> (r: Result<
        (),
        SessionError,
    >)
        requires
            old(self)@.wf(),
        ensures
            (final(self)@, r) == old(self)@.after_request_finalize(
                config.spec_sent_len(),
                config.spec_recv_len(),
            ),
            final(self)@.wf(),
    {
        let sent_len = config.sent_len();
        let recv_len = config.recv_len();
        if self.st.phase != ProverPhase::Notarizing || self.st.finalize_requested {
            Err(SessionError::State)
        } else if sent_len != self.st.sent || recv_len != self.st.recv {
            Err(SessionError::Config)
        } else {
            self.st.finalize_requested = true;
            Ok(())
        }
    }

    /// The notary's reply to the finalize request.
    pub fn complete_finalize(&mut self, reply: NotaryReply) -> (r: Result<(), SessionError>)
        requires
            old(self)@.wf(),
        ensures
            (final(self)@, r) == old(self)@.after_reply(reply),
            final(self)@.wf(),
    {
        if self.st.phase != ProverPhase::Notarizing || !self.st.finalize_requested {
            Err(SessionError::State)
        } else {
            match reply {
                NotaryReply::Signed => {
                    self.st.phase = ProverPhase::Finalized;
                    Ok(())
                },
                NotaryReply::TransportFailed => self.fail(SessionError::Protocol),
                NotaryReply::Declined => self.fail(SessionError::Rejected),
            }
        }
    }
}

} // verus!
