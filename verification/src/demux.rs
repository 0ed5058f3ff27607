//! The demultiplexer skeleton shared by every command family.
//!
//! A command's demultiplexer reads records off the response stream, one
//! at a time, until it meets the completion reply carrying the command's
//! own tag.  A record that matches the command's shape is kept; one that
//! is a unilateral server update is routed to the sink; anything else is
//! a protocol violation and stops the run.  The spec function [`demux`]
//! is the whole of that discipline; [`run_demux`] is its executable
//! counterpart, and each command family in [`crate::parse`] folds the
//! records it keeps into its typed result.

use vstd::prelude::*;

use crate::error::Error;
use crate::error::SpecError;
use crate::response::MailboxDatum;
use crate::response::ReplyStatus;
use crate::response::RequestId;
use crate::response::Response;
use crate::response::ResponseData;
use crate::response::SpecMailboxDatum;
use crate::response::SpecResponse;
use crate::response::SpecResponseData;
use crate::response::SpecUnsolicited;
use crate::response::UnsolicitedResponse;
use crate::stream::ResponseStream;
use crate::stream::Sink;

verus! {

/// The command families that drain the response stream.
#[derive(Clone, Copy, PartialEq, Eq, Structural, Debug)]
pub enum CommandKind {
    /// LIST and friends: keeps `List` mailbox data.
    ListCmd,
    /// FETCH and friends: keeps `Fetch` records.
    FetchCmd,
    /// EXPUNGE: keeps `Expunge` records as results rather than routing them.
    ExpungeCmd,
    /// CAPABILITY: keeps `Capabilities` records.
    CapabilityCmd,
    /// NOOP and plain completion checks: keeps nothing.
    NoopCmd,
    /// SELECT / EXAMINE / STATUS: keeps the records the mailbox
    /// accumulator folds.
    SelectCmd,
    /// SEARCH: keeps `Ids` records.
    SearchCmd,
}

/// The parsed sequence of a record sequence.
pub open spec fn parsed_of(rs: Seq<SpecResponseData>) -> Seq<SpecResponse> {
    rs.map_values(|rd: SpecResponseData| rd.parsed)
}

/// Whether `r` is one of the unilateral updates of RFC 3501 section 7
/// that a server may push at any time.
pub open spec fn is_unilateral(r: SpecResponse) -> bool {
    match r {
        SpecResponse::MailboxData(d) => d is Status || d is Recent || d is Exists,
        SpecResponse::Expunge(_) => true,
        _ => false,
    }
}

/// The event a unilateral record carries.
pub open spec fn unilateral_event(r: SpecResponse) -> SpecUnsolicited {
    match r {
        SpecResponse::MailboxData(d) => match d {
            SpecMailboxDatum::Status { mailbox, attributes } => SpecUnsolicited::Status {
                mailbox,
                attributes,
            },
            SpecMailboxDatum::Recent(n) => SpecUnsolicited::Recent(n),
            SpecMailboxDatum::Exists(n) => SpecUnsolicited::Exists(n),
            _ => arbitrary(),
        },
        SpecResponse::Expunge(n) => SpecUnsolicited::Expunge(n),
        _ => arbitrary(),
    }
}

/// Whether `r` matches the shape the command family keeps.
pub open spec fn command_matches(kind: CommandKind, r: SpecResponse) -> bool {
    match kind {
        CommandKind::ListCmd => r matches SpecResponse::MailboxData(SpecMailboxDatum::List {
            ..
        }),
        CommandKind::FetchCmd => r is Fetch,
        CommandKind::ExpungeCmd => r is Expunge,
        CommandKind::CapabilityCmd => r is Capabilities,
        CommandKind::NoopCmd => false,
        CommandKind::SelectCmd => match r {
            SpecResponse::Data { status, .. } => status is Okay,
            SpecResponse::MailboxData(d) => !(d is Status),
            _ => false,
        },
        CommandKind::SearchCmd => r is Ids,
    }
}

/// Whether `r` is the completion reply carrying `tag`.
pub open spec fn is_done_with(r: SpecResponse, tag: Seq<char>) -> bool {
    match r {
        SpecResponse::Done { tag: t, .. } => t == tag,
        _ => false,
    }
}

/// How a demultiplexer run ended.
pub enum SpecDemuxEnd {
    /// The stream ran out before the completion reply.
    Exhausted,
    /// The completion reply carrying the command's tag, consumed.
    Terminated(SpecResponse),
    /// A record that matches neither the command shape nor a unilateral
    /// event; nothing beyond it is consumed.
    Rejected(SpecResponse),
}

/// Everything one demultiplexer run does: how many records it consumes,
/// which it keeps, which events it routes, and how it ends.
pub struct SpecDemux {
    pub consumed: int,
    pub matched: Seq<SpecResponse>,
    pub events: Seq<SpecUnsolicited>,
    pub end: SpecDemuxEnd,
}

/// The demultiplexer discipline over a record sequence: consume records
/// in arrival order up to and including the completion reply carrying
/// `tag`; keep what matches the command, route what is unilateral, stop
/// at the first record that is neither.
pub open spec fn demux(rs: Seq<SpecResponse>, tag: Seq<char>, kind: CommandKind) -> SpecDemux
    decreases rs.len(),
{
    if rs.len() == 0 {
        SpecDemux {
            consumed: 0,
            matched: Seq::empty(),
            events: Seq::empty(),
            end: SpecDemuxEnd::Exhausted,
        }
    } else {
        let r = rs[0];
        if is_done_with(r, tag) {
            SpecDemux {
                consumed: 1,
                matched: Seq::empty(),
                events: Seq::empty(),
                end: SpecDemuxEnd::Terminated(r),
            }
        } else if command_matches(kind, r) {
            let rest = demux(rs.drop_first(), tag, kind);
            SpecDemux {
                consumed: 1 + rest.consumed,
                matched: seq![r] + rest.matched,
                events: rest.events,
                end: rest.end,
            }
        } else if is_unilateral(r) {
            let rest = demux(rs.drop_first(), tag, kind);
            SpecDemux {
                consumed: 1 + rest.consumed,
                matched: rest.matched,
                events: seq![unilateral_event(r)] + rest.events,
                end: rest.end,
            }
        } else {
            SpecDemux {
                consumed: 1,
                matched: Seq::empty(),
                events: Seq::empty(),
                end: SpecDemuxEnd::Rejected(r),
            }
        }
    }
}

/// A run never consumes more records than the stream holds.
pub proof fn lemma_demux_consumed_bounds(rs: Seq<SpecResponse>, tag: Seq<char>, kind: CommandKind)
    ensures
        0 <= demux(rs, tag, kind).consumed <= rs.len(),
    decreases rs.len(),
{
    if rs.len() > 0 {
        lemma_demux_consumed_bounds(rs.drop_first(), tag, kind);
    }
}

/// Whether a run stands for a completed command or for a failure, and
/// for which failure.
pub enum SpecOutcome {
    Success,
    Failure(SpecError),
}

/// Outcome of an eager command (CAPABILITY, NOOP, SELECT, SEARCH): an
/// exhausted stream counts as success with whatever accumulated, and the
/// completion reply's own status decides between success, `NO` and `BAD`.
pub open spec fn eager_outcome(end: SpecDemuxEnd) -> SpecOutcome {
    match end {
        SpecDemuxEnd::Exhausted => SpecOutcome::Success,
        SpecDemuxEnd::Terminated(r) => match r {
            SpecResponse::Done { status, information, .. } => match status {
                ReplyStatus::Okay => SpecOutcome::Success,
                ReplyStatus::No => SpecOutcome::Failure(SpecError::No(information)),
                ReplyStatus::Bad => SpecOutcome::Failure(SpecError::Bad(information)),
                _ => SpecOutcome::Failure(SpecError::Protocol(r)),
            },
            _ => SpecOutcome::Failure(SpecError::Protocol(r)),
        },
        SpecDemuxEnd::Rejected(r) => SpecOutcome::Failure(SpecError::Protocol(r)),
    }
}

/// Outcome of a streaming command (LIST, FETCH, EXPUNGE): the completion
/// reply only terminates the item sequence, whatever its status.
pub open spec fn lazy_outcome(end: SpecDemuxEnd) -> SpecOutcome {
    match end {
        SpecDemuxEnd::Exhausted => SpecOutcome::Success,
        SpecDemuxEnd::Terminated(_) => SpecOutcome::Success,
        SpecDemuxEnd::Rejected(r) => SpecOutcome::Failure(SpecError::Protocol(r)),
    }
}

/// Outcome of a completion check: here the reply is owed, so an
/// exhausted stream is a stream failure.
pub open spec fn check_outcome(end: SpecDemuxEnd) -> SpecOutcome {
    match end {
        SpecDemuxEnd::Exhausted => SpecOutcome::Failure(SpecError::Io),
        _ => eager_outcome(end),
    }
}

/// How an executable run ended; carries the terminating or offending
/// record itself.
#[derive(Clone, PartialEq, Eq, Debug)]
pub enum RunEnd {
    Exhausted,
    Terminated(ResponseData),
    Rejected(ResponseData),
}

impl View for RunEnd {
    type V = SpecDemuxEnd;

    open spec fn view(&self) -> SpecDemuxEnd {
        match self {
            RunEnd::Exhausted => SpecDemuxEnd::Exhausted,
            RunEnd::Terminated(rd) => SpecDemuxEnd::Terminated(rd@.parsed),
            RunEnd::Rejected(rd) => SpecDemuxEnd::Rejected(rd@.parsed),
        }
    }
}

/// Routes `res` to the sink when it is a unilateral update (RFC 3501
/// section 7) and hands it back otherwise.
pub fn handle_unilateral(res: ResponseData, sink: &mut Sink) -> (r: Option<ResponseData>)
    ensures
        is_unilateral(res@.parsed) ==> r is None && final(sink)@ == old(sink)@.push(
            unilateral_event(res@.parsed),
        ),
        !is_unilateral(res@.parsed) ==> r == Some(res) && final(sink)@ == old(sink)@,
{
    let ResponseData { raw, response } = res;
    match response {
        Response::MailboxData(MailboxDatum::Status { mailbox, attributes }) => {
            sink.send(UnsolicitedResponse::Status { mailbox, attributes });
            None
        }
        Response::MailboxData(MailboxDatum::Recent(n)) => {
            sink.send(UnsolicitedResponse::Recent(n));
            None
        }
        Response::MailboxData(MailboxDatum::Exists(n)) => {
            sink.send(UnsolicitedResponse::Exists(n));
            None
        }
        Response::Expunge(n) => {
            sink.send(UnsolicitedResponse::Expunge(n));
            None
        }
        other => Some(ResponseData { raw, response: other }),
    }
}

fn matches_command(kind: CommandKind, r: &Response) -> (b: bool)
    ensures
        b == command_matches(kind, r@),
{
    match kind {
        CommandKind::ListCmd => matches!(
            r,
            Response::MailboxData(MailboxDatum::List { .. })
        ),
        CommandKind::FetchCmd => matches!(r, Response::Fetch(..)),
        CommandKind::ExpungeCmd => matches!(r, Response::Expunge(_)),
        CommandKind::CapabilityCmd => matches!(r, Response::Capabilities(_)),
        CommandKind::NoopCmd => false,
        CommandKind::SelectCmd => match r {
            Response::Data { status, .. } => matches!(status, ReplyStatus::Okay),
            Response::MailboxData(d) => !matches!(d, MailboxDatum::Status { .. }),
            _ => false,
        },
        CommandKind::SearchCmd => matches!(r, Response::Ids(_)),
    }
}

fn is_done_for(rd: &ResponseData, tag: &RequestId) -> (b: bool)
    ensures
        b == is_done_with(rd@.parsed, tag@),
{
    match &rd.response {
        Response::Done { tag: t, .. } => t.text == tag.text,
        _ => false,
    }
}

/// Drains the stream for one command: returns the records the command
/// keeps, in arrival order, and how the run ended, having routed every
/// unilateral record to the sink.
pub fn run_demux(
    stream: &mut ResponseStream,
    sink: &mut Sink,
    command_tag: &RequestId,
    kind: CommandKind,
) -> (r: (Vec<ResponseData>, RunEnd))
    ensures
        ({
            let d = demux(parsed_of(old(stream)@), command_tag@, kind);
            &&& final(stream)@ == old(stream)@.skip(d.consumed)
            &&& final(sink)@ == old(sink)@ + d.events
            &&& parsed_of(r.0.deep_view()) == d.matched
            &&& r.1@ == d.end
        }),
{
    let ghost rs0: Seq<SpecResponse> = parsed_of(old(stream)@);
    let ghost d: SpecDemux = demux(rs0, command_tag@, kind);
    let mut matched: Vec<ResponseData> = Vec::new();
    let ghost mut k: int = 0;
    let ghost mut evs: Seq<SpecUnsolicited> = Seq::empty();
    proof {
        assert(parsed_of(matched.deep_view()) =~= Seq::<SpecResponse>::empty());
    }
    loop
        invariant
            0 <= k <= old(stream)@.len(),
            stream@ == old(stream)@.skip(k),
            sink@ == old(sink)@ + evs,
            d == demux(rs0, command_tag@, kind),
            rs0 == parsed_of(old(stream)@),
            ({
                let cur = demux(parsed_of(stream@), command_tag@, kind);
                &&& d.consumed == k + cur.consumed
                &&& d.matched == parsed_of(matched.deep_view()) + cur.matched
                &&& d.events == evs + cur.events
                &&& d.end == cur.end
            }),
        decreases stream@.len(),
    {
        let ghost pre: Seq<SpecResponseData> = stream@;
        let ghost cur: SpecDemux = demux(parsed_of(pre), command_tag@, kind);
        match stream.next() {
            None => {
                proof {
                    assert(d.matched =~= parsed_of(matched.deep_view()));
                    assert(d.events =~= evs);
                    assert(old(stream)@.skip(k) =~= old(stream)@.skip(d.consumed));
                }
                return (matched, RunEnd::Exhausted);
            }
            Some(rd) => {
                proof {
                    assert(parsed_of(pre)[0] == rd@.parsed);
                    assert(parsed_of(pre).drop_first() =~= parsed_of(pre.drop_first()));
                    assert(old(stream)@.skip(k).drop_first() =~= old(stream)@.skip(k + 1));
                }
                if is_done_for(&rd, command_tag) {
                    proof {
                        assert(d.matched =~= parsed_of(matched.deep_view()));
                        assert(d.events =~= evs);
                        assert(d.consumed == k + 1);
                    }
                    return (matched, RunEnd::Terminated(rd));
                }
                if matches_command(kind, &rd.response) {
                    let ghost m_pre: Seq<SpecResponseData> = matched.deep_view();
                    matched.push(rd);
                    proof {
                        assert(matched.deep_view() =~= m_pre.push(rd@));
                        assert(parsed_of(m_pre.push(rd@))
                            =~= parsed_of(m_pre).push(rd@.parsed));
                        assert(parsed_of(m_pre) + cur.matched
                            =~= parsed_of(m_pre).push(rd@.parsed)
                                + demux(parsed_of(pre.drop_first()), command_tag@, kind).matched);
                        k = k + 1;
                    }
                } else {
                    match handle_unilateral(rd, sink) {
                        None => {
                            proof {
                                assert(evs.push(unilateral_event(rd@.parsed)) + demux(
                                    parsed_of(pre.drop_first()),
                                    command_tag@,
                                    kind,
                                ).events =~= evs + cur.events);
                                evs = evs.push(unilateral_event(rd@.parsed));
                                k = k + 1;
                            }
                        }
                        Some(back) => {
                            proof {
                                assert(d.matched =~= parsed_of(matched.deep_view()));
                                assert(d.events =~= evs);
                                assert(d.consumed == k + 1);
                            }
                            return (matched, RunEnd::Rejected(back));
                        }
                    }
                }
            }
        }
    }
}

/// Maps how an eager command's run ended to its `Result`, carrying the
/// completion reply's information text or the offending record.
pub fn eager_result(end: RunEnd) -> (r: Result<(), Error>)
    ensures
        match eager_outcome(end@) {
            SpecOutcome::Success => r is Ok,
            SpecOutcome::Failure(e) => r matches Err(err) && err@ == e,
        },
{
    match end {
        RunEnd::Exhausted => Ok(()),
        RunEnd::Terminated(rd) => match rd.response {
            Response::Done { tag, status, code, information } => match status {
                ReplyStatus::Okay => Ok(()),
                ReplyStatus::No => Err(Error::No(information)),
                ReplyStatus::Bad => Err(Error::Bad(information)),
                _ => Err(Error::Protocol(Response::Done { tag, status, code, information })),
            },
            other => Err(Error::Protocol(other)),
        },
        RunEnd::Rejected(rd) => Err(Error::Protocol(rd.response)),
    }
}

/// Maps how a streaming command's run ended to its `Result`.
pub fn lazy_result(end: RunEnd) -> (r: Result<(), Error>)
    ensures
        match lazy_outcome(end@) {
            SpecOutcome::Success => r is Ok,
            SpecOutcome::Failure(e) => r matches Err(err) && err@ == e,
        },
{
    match end {
        RunEnd::Exhausted => Ok(()),
        RunEnd::Terminated(_) => Ok(()),
        RunEnd::Rejected(rd) => Err(Error::Protocol(rd.response)),
    }
}

} // verus!
