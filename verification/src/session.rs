//! The session: the response stream, the unsolicited sink, the tag
//! counter, and the log of lines sent to the server.
//!
//! Sending a line over the wire is the network layer's concern; here the
//! session records, in order, exactly the lines the core asks it to
//! emit, so that the contracts pin down the bytes of every command.

use vstd::prelude::*;

use crate::demux::check_outcome;
use crate::demux::demux;
use crate::demux::eager_result;
use crate::demux::parsed_of;
use crate::demux::run_demux;
use crate::demux::CommandKind;
use crate::demux::RunEnd;
use crate::demux::SpecOutcome;
use crate::error::Error;
use crate::response::RequestId;
use crate::response::SpecResponseData;
use crate::response::SpecUnsolicited;
use crate::stream::ResponseStream;
use crate::stream::Sink;
use crate::text::spec_tag;
use crate::text::tag_text;

verus! {

/// One session with a server.
#[derive(Clone, PartialEq, Eq, Debug)]
pub struct Session {
    /// The responses not yet read.
    pub stream: ResponseStream,
    /// The unsolicited events fanned out so far.
    pub sink: Sink,
    /// Serial number of the next tag to mint.
    pub next_tag: u32,
    /// The lines handed to the wire so far, in order.
    pub wire: Vec<String>,
}

/// Spec mirror of [`Session`].
#[verifier::ext_equal]
pub struct SpecSession {
    pub stream: Seq<SpecResponseData>,
    pub sink: Seq<SpecUnsolicited>,
    pub next_tag: u32,
    pub wire: Seq<Seq<char>>,
}

impl View for Session {
    type V = SpecSession;

    open spec fn view(&self) -> SpecSession {
        SpecSession {
            stream: self.stream@,
            sink: self.sink@,
            next_tag: self.next_tag,
            wire: self.wire.deep_view(),
        }
    }
}

/// The line of a tagged command: `<tag> <cmd>` and CRLF.
pub open spec fn command_line(tag: Seq<char>, cmd: Seq<char>) -> Seq<char> {
    tag + seq![' '] + cmd + seq!['\r', '\n']
}

/// The line of an untagged client message: `<cmd>` and CRLF.
pub open spec fn untagged_line(cmd: Seq<char>) -> Seq<char> {
    cmd + seq!['\r', '\n']
}

/// What dispatching a tagged command does to the session: one tag is
/// consumed and the command's line goes out.
pub open spec fn spec_run_command(s: SpecSession, cmd: Seq<char>) -> SpecSession {
    SpecSession {
        next_tag: (s.next_tag + 1) as u32,
        wire: s.wire.push(command_line(spec_tag(s.next_tag), cmd)),
        ..s
    }
}

/// What sending an untagged client message does to the session.
pub open spec fn spec_run_untagged(s: SpecSession, cmd: Seq<char>) -> SpecSession {
    SpecSession { wire: s.wire.push(untagged_line(cmd)), ..s }
}

/// What draining responses up to the completion reply carrying `tag`
/// does to the session, and whether the drain found `tag OK`.
pub open spec fn spec_check_ok(s: SpecSession, tag: Seq<char>) -> (SpecSession, SpecOutcome) {
    let d = demux(parsed_of(s.stream), tag, CommandKind::NoopCmd);
    (
        SpecSession { stream: s.stream.skip(d.consumed), sink: s.sink + d.events, ..s },
        check_outcome(d.end),
    )
}

impl Session {
    /// A fresh session over a response source: no events yet, nothing
    /// sent, tags starting from serial number one.
    pub fn new(stream: ResponseStream) -> (r: Session)
        ensures
            r@.stream == stream@,
            r@.sink == Seq::<SpecUnsolicited>::empty(),
            r@.next_tag == 1,
            r@.wire == Seq::<Seq<char>>::empty(),
    {
        let r = Session { stream, sink: Sink::new(), next_tag: 1, wire: Vec::new() };
        proof {
            assert(r@.wire =~= Seq::<Seq<char>>::empty());
        }
        r
    }

    /// Mints a fresh tag, emits `<tag> <cmd>` and returns the tag for
    /// the caller to await.
    pub fn run_command(&mut self, cmd: &str) -> (t: RequestId)
        requires
            old(self).next_tag < u32::MAX,
        ensures
            t@ == spec_tag(old(self)@.next_tag),
            final(self)@ == spec_run_command(old(self)@, cmd@),
    {
        proof {
            reveal_strlit(" ");
            reveal_strlit("\r\n");
        }
        let t = tag_text(self.next_tag);
        let mut line = t.clone();
        line.append(" ");
        line.append(cmd);
        line.append("\r\n");
        let ghost wire_pre: Seq<Seq<char>> = self@.wire;
        self.wire.push(line);
        self.next_tag = self.next_tag + 1;
        proof {
            assert(line@ =~= command_line(spec_tag(old(self).next_tag), cmd@));
            assert(self@.wire =~= wire_pre.push(line@));
            assert(self@ =~= spec_run_command(old(self)@, cmd@));
        }
        RequestId { text: t }
    }

    /// Emits `<cmd>` with no tag; used only for `DONE`, the one
    /// untagged client message of the protocol.
    pub fn run_command_untagged(&mut self, cmd: &str)
        ensures
            final(self)@ == spec_run_untagged(old(self)@, cmd@),
    {
        proof {
            reveal_strlit("\r\n");
        }
        let mut line = String::new();
        line.append(cmd);
        line.append("\r\n");
        let ghost wire_pre: Seq<Seq<char>> = self@.wire;
        self.wire.push(line);
        proof {
            assert(line@ =~= untagged_line(cmd@));
            assert(self@.wire =~= wire_pre.push(line@));
            assert(self@ =~= spec_run_untagged(old(self)@, cmd@));
        }
    }

    /// Drains responses, routing unilateral updates, until the
    /// completion reply carrying `tag`: success exactly on `OK`; a
    /// stream that ends first is a stream failure.
    pub fn check_ok(&mut self, tag: &RequestId) -> (r: Result<(), Error>)
        ensures
            final(self)@ == spec_check_ok(old(self)@, tag@).0,
            match r {
                Ok(_) => spec_check_ok(old(self)@, tag@).1 is Success,
                Err(e) => spec_check_ok(old(self)@, tag@).1 matches SpecOutcome::Failure(se)
                    && e@ == se,
            },
    {
        let (_matched, end) = run_demux(&mut self.stream, &mut self.sink, tag, CommandKind::NoopCmd);
        proof {
            assert(self@ =~= spec_check_ok(old(self)@, tag@).0);
        }
        if matches!(end, RunEnd::Exhausted) {
            return Err(Error::Io);
        }
        eager_result(end)
    }
}

} // verus!
