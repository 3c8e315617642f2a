use vstd::prelude::*;
use crate::error::SessionError;

verus! {

/// Which half of the transcript a range points into.
#[derive(Clone, Copy, Debug, PartialEq, Eq, Structural)]
pub enum Direction {
    /// Bytes the prover sent to the server.
    Sent,
    /// Bytes the prover received from the server.
    Received,
}

/// What a committed range covers.
#[derive(Clone, Copy, Debug, PartialEq, Eq, Structural)]
pub enum Purpose {
    RequestHead,
    RequestBody,
    ResponseHead,
    ResponseBody,
    /// A range chosen by a redacting policy.
    Selected,
}

/// A half-open byte range `[start, end)` of one direction of the transcript.
#[derive(Clone, Copy, Debug, PartialEq, Eq, Structural)]
pub struct CommitRange {
    pub direction: Direction,
    pub purpose: Purpose,
    pub start: usize,
    pub end: usize,
}

/// The length of the transcript half that `d` names.
pub open spec fn direction_len(d: Direction, sent_len: nat, recv_len: nat) -> nat {
    match d {
        Direction::Sent => sent_len,
        Direction::Received => recv_len,
    }
}

/// `0 <= start < end <= length` of the range's own direction.
pub open spec fn range_within(r: CommitRange, sent_len: nat, recv_len: nat) -> bool {
    r.start < r.end && r.end <= direction_len(r.direction, sent_len, recv_len)
}

/// Every range of `rs` lies within the transcript.
pub open spec fn all_within(rs: Seq<CommitRange>, sent_len: nat, recv_len: nat) -> bool {
    forall|i: int| 0 <= i < rs.len() ==> #[trigger] range_within(rs[i], sent_len, recv_len)
}

/// Where the external HTTP parser found each message's head to end: the
/// head of a message is `[0, head_end)` and its body the rest.
#[derive(Clone, Copy, Debug, PartialEq, Eq, Structural)]
pub struct HttpLayout {
    pub request_head_end: usize,
    pub response_head_end: usize,
}

/// The layout describes a non-empty head inside each message.
pub open spec fn layout_fits(layout: HttpLayout, sent_len: nat, recv_len: nat) -> bool {
    0 < layout.request_head_end <= sent_len && 0 < layout.response_head_end <= recv_len
}

/// A message's head, then its body when it has one.
pub open spec fn message_ranges(
    d: Direction,
    head: Purpose,
    body: Purpose,
    head_end: usize,
    len: usize,
) -> Seq<CommitRange> {
    let h = seq![CommitRange { direction: d, purpose: head, start: 0, end: head_end }];
    if head_end < len {
        h.push(CommitRange { direction: d, purpose: body, start: head_end, end: len })
    } else {
        h
    }
}

/// The default policy: the request's head and body, then the response's head
/// and body, each as a range of its own.
pub open spec fn default_ranges(
    layout: HttpLayout,
    sent_len: usize,
    recv_len: usize,
) -> Seq<CommitRange> {
    message_ranges(
        Direction::Sent,
        Purpose::RequestHead,
        Purpose::RequestBody,
        layout.request_head_end,
        sent_len,
    ) + message_ranges(
        Direction::Received,
        Purpose::ResponseHead,
        Purpose::ResponseBody,
        layout.response_head_end,
        recv_len,
    )
}

/// The byte ranges a prover commits to, over a frozen transcript.
pub struct CommitmentConfig {
    sent_len: usize,
    recv_len: usize,
    ranges: Vec<CommitRange>,
}

impl CommitmentConfig {
    pub closed spec fn spec_sent_len(&self) -> usize {
        self.sent_len
    }

    pub closed spec fn spec_recv_len(&self) -> usize {
        self.recv_len
    }

    pub closed spec fn spec_ranges(&self) -> Seq<CommitRange> {
        self.ranges@
    }

    /// Every range lies within the transcript it was built over.
    pub open spec fn wf(&self) -> bool {
        all_within(self.spec_ranges(), self.spec_sent_len() as nat, self.spec_recv_len() as nat)
    }

    #[verifier::type_invariant]
    closed spec fn inv(&self) -> bool {
        self.wf()
    }

    /// Length of the sent half of the transcript.
    pub fn sent_len(&self) -> (r: usize)
        ensures
            r == self.spec_sent_len(),
    {
        self.sent_len
    }

    /// Length of the received half of the transcript.
    pub fn recv_len(&self) -> (r: usize)
        ensures
            r == self.spec_recv_len(),
    {
        self.recv_len
    }

    /// The committed ranges, in the order they were added.
    pub fn ranges(&self) -> (r: &Vec<CommitRange>)
        ensures
            r@ == self.spec_ranges(),
            all_within(r@, self.spec_sent_len() as nat, self.spec_recv_len() as nat),
    {
        proof {
            use_type_invariant(self);
        }
        &self.ranges
    }
}

/// Collects ranges over a transcript, refusing any that falls outside it.
pub struct CommitmentBuilder {
    sent_len: usize,
    recv_len: usize,
    ranges: Vec<CommitRange>,
}

impl CommitmentBuilder {
    pub closed spec fn spec_sent_len(&self) -> usize {
        self.sent_len
    }

    pub closed spec fn spec_recv_len(&self) -> usize {
        self.recv_len
    }

    pub closed spec fn spec_ranges(&self) -> Seq<CommitRange> {
        self.ranges@
    }

    pub open spec fn wf(&self) -> bool {
        all_within(self.spec_ranges(), self.spec_sent_len() as nat, self.spec_recv_len() as nat)
    }

    /// An empty builder over a transcript of `sent_len` and `recv_len` bytes.
    pub fn new(sent_len: usize, recv_len: usize) -> (r: CommitmentBuilder)
        ensures
            r.spec_sent_len() == sent_len,
            r.spec_recv_len() == recv_len,
            r.spec_ranges() == Seq::<CommitRange>::empty(),
            r.wf(),
    {
        CommitmentBuilder { sent_len, recv_len, ranges: Vec::new() }
    }

    /// Adds `range`, or refuses it with `Config` when it is empty or runs past
    /// its half of the transcript.
    pub fn commit(&mut self, range: CommitRange) -> (r: Result<(), SessionError>)
        requires
            old(self).wf(),
        ensures
            final(self).spec_sent_len() == old(self).spec_sent_len(),
            final(self).spec_recv_len() == old(self).spec_recv_len(),
            r is Ok <==> range_within(
                range,
                old(self).spec_sent_len() as nat,
                old(self).spec_recv_len() as nat,
            ),
            r is Ok ==> final(self).spec_ranges() == old(self).spec_ranges().push(range),
            r is Err ==> final(self).spec_ranges() == old(self).spec_ranges() && r
                == Err::<(), SessionError>(SessionError::Config),
            final(self).wf(),
    {
        let len = match range.direction {
            Direction::Sent => self.sent_len,
            Direction::Received => self.recv_len,
        };
        if range.start < range.end && range.end <= len {
            self.ranges.push(range);
            proof {
                assert forall|i: int| 0 <= i < self.ranges@.len() implies #[trigger] range_within(
                    self.ranges@[i],
                    self.sent_len as nat,
                    self.recv_len as nat,
                ) by {
                    if i < old(self).ranges@.len() {
                        assert(self.ranges@[i] == old(self).ranges@[i]);
                    }
                }
            }
            Ok(())
        } else {
            Err(SessionError::Config)
        }
    }

    /// The finished commitment, holding the ranges added so far.
    pub fn build(self) -> (r: CommitmentConfig)
        requires
            self.wf(),
        ensures
            r.spec_sent_len() == self.spec_sent_len(),
            r.spec_recv_len() == self.spec_recv_len(),
            r.spec_ranges() == self.spec_ranges(),
            r.wf(),
    {
        CommitmentConfig { sent_len: self.sent_len, recv_len: self.recv_len, ranges: self.ranges }
    }
}

/// Commits a message's head and, when it has one, its body.
fn commit_message(
    b: &mut CommitmentBuilder,
    d: Direction,
    head: Purpose,
    body: Purpose,
    head_end: usize,
    len: usize,
)
    requires
        old(b).wf(),
        0 < head_end <= len,
        len == direction_len(d, old(b).spec_sent_len() as nat, old(b).spec_recv_len() as nat),
    ensures
        final(b).wf(),
        final(b).spec_sent_len() == old(b).spec_sent_len(),
        final(b).spec_recv_len() == old(b).spec_recv_len(),
        final(b).spec_ranges() == old(b).spec_ranges() + message_ranges(
            d,
            head,
            body,
            head_end,
            len,
        ),
{
    let h = CommitRange { direction: d, purpose: head, start: 0, end: head_end };
    let r1 = b.commit(h);
    assert(r1 is Ok);
    if head_end < len {
        let r2 = b.commit(CommitRange { direction: d, purpose: body, start: head_end, end: len });
        assert(r2 is Ok);
        assert(b.spec_ranges() =~= old(b).spec_ranges() + message_ranges(
            d,
            head,
            body,
            head_end,
            len,
        ));
    } else {
        assert(b.spec_ranges() =~= old(b).spec_ranges() + message_ranges(
            d,
            head,
            body,
            head_end,
            len,
        ));
    }
}

/// Builds the default commitment over a transcript of `sent_len` and
/// `recv_len` bytes whose messages the HTTP parser split as `layout`.
/// A layout with an empty head or a head past its message is refused with
/// `MalformedTranscript`.
pub fn default_commit(layout: &HttpLayout, sent_len: usize, recv_len: usize) -> (r: Result<
    CommitmentConfig,
    SessionError,
>)
    ensures
        r is Ok <==> layout_fits(*layout, sent_len as nat, recv_len as nat),
        r matches Ok(c) ==> c.wf() && c.spec_sent_len() == sent_len && c.spec_recv_len()
            == recv_len && c.spec_ranges() == default_ranges(*layout, sent_len, recv_len),
        r is Err ==> r == Err::<CommitmentConfig, SessionError>(SessionError::MalformedTranscript),
{
    if layout.request_head_end == 0 || layout.request_head_end > sent_len
        || layout.response_head_end == 0 || layout.response_head_end > recv_len {
        return Err(SessionError::MalformedTranscript);
    }
    let mut b = CommitmentBuilder::new(sent_len, recv_len);
    commit_message(
        &mut b,
        Direction::Sent,
        Purpose::RequestHead,
        Purpose::RequestBody,
        layout.request_head_end,
        sent_len,
    );
    commit_message(
        &mut b,
        Direction::Received,
        Purpose::ResponseHead,
        Purpose::ResponseBody,
        layout.response_head_end,
        recv_len,
    );
    assert(b.spec_ranges() =~= default_ranges(*layout, sent_len, recv_len));
    Ok(b.build())
}

} // verus!
