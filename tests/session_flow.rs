use tlsn_session::{
    artifact_paths, default_commit, first_failure, next_action, Action, CommitRange,
    CommitmentBuilder, Direction, HttpLayout, NotaryReply, ProtocolLimits, ProverPhase,
    ProverSession, Purpose, SessionError,
};

fn limits(s: usize, r: usize) -> ProtocolLimits {
    ProtocolLimits::new(s, r).unwrap()
}

fn connected(s: usize, r: usize) -> ProverSession {
    let mut p = ProverSession::new(limits(s, r));
    assert_eq!(next_action(&p.state()), Action::Setup);
    p.setup(true).unwrap();
    assert_eq!(next_action(&p.state()), Action::Connect);
    p.connect(true).unwrap();
    assert_eq!(next_action(&p.state()), Action::SendRequest);
    p
}

#[test]
fn successful_session_writes_two_artifacts() {
    let mut p = connected(1024, 4096);
    p.record_sent(300).unwrap();
    p.record_recv(2000).unwrap();
    p.check_response(200).unwrap();
    assert_eq!(next_action(&p.state()), Action::JoinBackground);
    p.join_background(true).unwrap();
    assert_eq!(next_action(&p.state()), Action::StartNotarize);
    p.start_notarize().unwrap();
    assert_eq!(next_action(&p.state()), Action::Commit);
    let layout = HttpLayout { request_head_end: 300, response_head_end: 150 };
    let config = default_commit(&layout, 300, 2000).unwrap();
    assert_eq!(config.ranges().len(), 3);
    p.request_finalize(&config).unwrap();
    assert_eq!(next_action(&p.state()), Action::AwaitReply);
    p.complete_finalize(NotaryReply::Signed).unwrap();
    assert_eq!(p.state().phase, ProverPhase::Finalized);
    assert_eq!(next_action(&p.state()), Action::Persist);
    let (a, s) = artifact_paths("example", "tlsn");
    assert_eq!(a, "example.attestation.tlsn");
    assert_eq!(s, "example.secrets.tlsn");
    assert_ne!(a, s);
}

#[test]
fn not_found_aborts_before_notarization() {
    let mut p = connected(1024, 4096);
    p.record_sent(100).unwrap();
    p.record_recv(100).unwrap();
    assert_eq!(p.check_response(404), Err(SessionError::UnexpectedStatus(404)));
    assert_eq!(p.state().phase, ProverPhase::Failed);
    assert_eq!(next_action(&p.state()), Action::Abort);
    assert_eq!(p.join_background(true), Err(SessionError::State));
    assert_eq!(p.start_notarize(), Err(SessionError::State));
    assert_eq!(p.state().phase, ProverPhase::Failed);
}

#[test]
fn concurrent_sessions_are_independent() {
    let mut a = connected(1024, 4096);
    let mut b = connected(1024, 4096);
    a.record_sent(200).unwrap();
    b.record_sent(50).unwrap();
    a.record_recv(900).unwrap();
    b.record_recv(70).unwrap();
    for p in [&mut a, &mut b] {
        p.check_response(200).unwrap();
        p.join_background(true).unwrap();
        p.start_notarize().unwrap();
    }
    assert_eq!(a.state().sent, 200);
    assert_eq!(b.state().sent, 50);
    let layout_a = HttpLayout { request_head_end: 120, response_head_end: 400 };
    let config_a = default_commit(&layout_a, 200, 900).unwrap();
    let layout_b = HttpLayout { request_head_end: 50, response_head_end: 70 };
    let config_b = default_commit(&layout_b, 50, 70).unwrap();
    assert_eq!(b.request_finalize(&config_a), Err(SessionError::Config));
    assert!(!b.state().finalize_requested);
    b.request_finalize(&config_b).unwrap();
    a.request_finalize(&config_a).unwrap();
    for r in config_b.ranges() {
        let len = if r.direction == Direction::Sent { 50 } else { 70 };
        assert!(r.end <= len);
    }
}

#[test]
fn finalize_twice_is_a_state_error() {
    let mut p = connected(1024, 4096);
    p.record_sent(10).unwrap();
    p.record_recv(20).unwrap();
    p.check_response(200).unwrap();
    p.join_background(true).unwrap();
    p.start_notarize().unwrap();
    let config = default_commit(&HttpLayout { request_head_end: 10, response_head_end: 5 }, 10, 20)
        .unwrap();
    assert_eq!(p.request_finalize(&config), Ok(()));
    let before = p.state();
    assert_eq!(p.request_finalize(&config), Err(SessionError::State));
    assert_eq!(p.state(), before);
    p.complete_finalize(NotaryReply::Signed).unwrap();
    assert_eq!(p.request_finalize(&config), Err(SessionError::State));
    assert_eq!(p.complete_finalize(NotaryReply::Signed), Err(SessionError::State));
    assert_eq!(p.state().phase, ProverPhase::Finalized);
}

#[test]
fn exceeding_sent_limit_fails_with_protocol_error() {
    let mut p = connected(1024, 4096);
    p.record_sent(1000).unwrap();
    assert_eq!(p.record_sent(25), Err(SessionError::Protocol));
    assert_eq!(p.state().phase, ProverPhase::Failed);
    assert_eq!(p.state().sent, 1000);
    assert_eq!(p.check_response(200), Err(SessionError::State));
    assert_eq!(p.start_notarize(), Err(SessionError::State));
    assert_eq!(p.complete_finalize(NotaryReply::Signed), Err(SessionError::State));
    assert_eq!(p.state().phase, ProverPhase::Failed);
}

#[test]
fn exceeding_recv_limit_fails_with_protocol_error() {
    let mut p = connected(1024, 4096);
    p.record_recv(4096).unwrap();
    assert_eq!(p.record_recv(1), Err(SessionError::Protocol));
    assert_eq!(p.state().phase, ProverPhase::Failed);
    let mut q = connected(1024, 4096);
    assert_eq!(q.record_recv(usize::MAX), Err(SessionError::Protocol));
}

#[test]
fn bytes_after_join_are_refused() {
    let mut p = connected(16, 16);
    p.check_response(200).unwrap();
    p.join_background(true).unwrap();
    assert_eq!(p.record_sent(1), Err(SessionError::State));
    assert_eq!(p.state().phase, ProverPhase::Connected);
}

#[test]
fn out_of_order_operations_are_refused() {
    let mut p = ProverSession::new(limits(8, 8));
    assert_eq!(p.connect(true), Err(SessionError::State));
    assert_eq!(p.start_notarize(), Err(SessionError::State));
    assert_eq!(p.state().phase, ProverPhase::Idle);
    p.setup(true).unwrap();
    assert_eq!(p.setup(true), Err(SessionError::State));
    assert_eq!(p.connect(false), Err(SessionError::Connection));
    assert_eq!(p.state().phase, ProverPhase::Failed);
    let mut q = ProverSession::new(limits(8, 8));
    assert_eq!(q.setup(false), Err(SessionError::Setup));
}

#[test]
fn start_notarize_needs_joined_background_task() {
    let mut p = connected(64, 64);
    p.check_response(200).unwrap();
    assert_eq!(p.start_notarize(), Err(SessionError::State));
    assert_eq!(p.join_background(false), Err(SessionError::Protocol));
    assert_eq!(p.state().phase, ProverPhase::Failed);
}

#[test]
fn notary_failures_fail_the_session() {
    for (reply, err) in [
        (NotaryReply::TransportFailed, SessionError::Protocol),
        (NotaryReply::Declined, SessionError::Rejected),
    ] {
        let mut p = connected(64, 64);
        p.record_sent(4).unwrap();
        p.record_recv(4).unwrap();
        p.check_response(200).unwrap();
        p.join_background(true).unwrap();
        p.start_notarize().unwrap();
        let c = CommitmentBuilder::new(4, 4).build();
        assert_eq!(p.complete_finalize(reply), Err(SessionError::State));
        p.request_finalize(&c).unwrap();
        assert_eq!(p.complete_finalize(reply), Err(err));
        assert_eq!(next_action(&p.state()), Action::Abort);
    }
}

#[test]
fn default_commit_ranges_lie_within_transcript() {
    let c = default_commit(&HttpLayout { request_head_end: 40, response_head_end: 60 }, 100, 60)
        .unwrap();
    let expected = vec![
        CommitRange { direction: Direction::Sent, purpose: Purpose::RequestHead, start: 0, end: 40 },
        CommitRange { direction: Direction::Sent, purpose: Purpose::RequestBody, start: 40, end: 100 },
        CommitRange {
            direction: Direction::Received,
            purpose: Purpose::ResponseHead,
            start: 0,
            end: 60,
        },
    ];
    assert_eq!(c.ranges(), &expected);
    assert_eq!(c.sent_len(), 100);
    assert_eq!(c.recv_len(), 60);
}

#[test]
fn default_commit_refuses_malformed_layout() {
    let bad = [
        HttpLayout { request_head_end: 0, response_head_end: 10 },
        HttpLayout { request_head_end: 11, response_head_end: 10 },
        HttpLayout { request_head_end: 5, response_head_end: 0 },
        HttpLayout { request_head_end: 5, response_head_end: 21 },
    ];
    for l in bad {
        assert!(matches!(default_commit(&l, 10, 20), Err(SessionError::MalformedTranscript)));
    }
}

#[test]
fn builder_refuses_ranges_outside_transcript() {
    let mut b = CommitmentBuilder::new(10, 20);
    let r = |d, s, e| CommitRange { direction: d, purpose: Purpose::Selected, start: s, end: e };
    assert_eq!(b.commit(r(Direction::Sent, 0, 10)), Ok(()));
    assert_eq!(b.commit(r(Direction::Sent, 0, 11)), Err(SessionError::Config));
    assert_eq!(b.commit(r(Direction::Received, 5, 5)), Err(SessionError::Config));
    assert_eq!(b.commit(r(Direction::Received, 6, 5)), Err(SessionError::Config));
    assert_eq!(b.commit(r(Direction::Received, 19, 20)), Ok(()));
    let c = b.build();
    assert_eq!(c.ranges().len(), 2);
    assert_eq!(c.ranges()[1].start, 19);
}

#[test]
fn first_failure_reports_earliest_error() {
    assert_eq!(first_failure(&vec![]), Ok(()));
    assert_eq!(first_failure(&vec![Ok(()), Ok(())]), Ok(()));
    assert_eq!(
        first_failure(&vec![Ok(()), Err(SessionError::Connection), Err(SessionError::Protocol)]),
        Err(SessionError::Connection)
    );
}
