//! The IDLE handle (RFC 2177): a scoped push-reception mode.
//!
//! The handle owns the session, so no other command can be dispatched
//! while the connection idles.  `init` sends `IDLE` and waits for the
//! server's continuation request; `stream` turns the handle into a
//! reader of the pushed responses; `done` sends the untagged `DONE`,
//! awaits `OK` under the tag minted at entry, and gives the session
//! back.
//!
//! `stream` moves the handle into the [`IdleStream`] and
//! [`IdleStream::into_handle`] returns it, so that exclusive use of the
//! session while listening is carried by ownership.

use vstd::prelude::*;

use crate::demux::SpecOutcome;
use crate::error::Error;
use crate::response::RequestId;
use crate::response::Response;
use crate::response::ResponseData;
use crate::response::SpecResponseData;
use crate::session::spec_check_ok;
use crate::session::spec_run_command;
use crate::session::spec_run_untagged;
use crate::session::Session;
use crate::session::SpecSession;
use crate::text::spec_tag;

verus! {

/// The index of the first continuation request in a record sequence.
pub open spec fn first_continue(rs: Seq<SpecResponseData>) -> Option<int>
    decreases rs.len(),
{
    if rs.len() == 0 {
        None
    } else if rs[0].parsed is Continue {
        Some(0int)
    } else {
        match first_continue(rs.drop_first()) {
            Some(i) => Some(i + 1),
            None => None,
        }
    }
}

/// The index returned by [`first_continue`] is in range, points at a
/// continuation request, and nothing before it is one.
pub proof fn lemma_first_continue_bounds(rs: Seq<SpecResponseData>)
    ensures
        ({
            match first_continue(rs) {
                Some(c) => 0 <= c < rs.len() && rs[c].parsed is Continue && (forall|j: int|
                    0 <= j < c ==> !(rs[j].parsed is Continue)),
                None => forall|j: int| 0 <= j < rs.len() ==> !(rs[j].parsed is Continue),
            }
        }),
    decreases rs.len(),
{
    if rs.len() == 0 {
    } else if rs[0].parsed is Continue {
    } else {
        lemma_first_continue_bounds(rs.drop_first());
        match first_continue(rs.drop_first()) {
            Some(i) => {
                assert forall|j: int| 0 <= j < i + 1 implies !(rs[j].parsed is Continue) by {
                    if j > 0 {
                        assert(rs.drop_first()[j - 1] == rs[j]);
                    }
                }
            }
            None => {
                assert forall|j: int| 0 <= j < rs.len() implies !(rs[j].parsed is Continue) by {
                    if j > 0 {
                        assert(rs.drop_first()[j - 1] == rs[j]);
                    }
                }
            }
        }
    }
}

/// How many records IDLE initialisation consumes: everything up to and
/// including the first continuation request, or the whole stream when
/// none arrives.
pub open spec fn init_consumed(rs: Seq<SpecResponseData>) -> int {
    match first_continue(rs) {
        Some(c) => c + 1,
        None => rs.len() as int,
    }
}

/// What initialisation does to the session: the `IDLE` line goes out
/// with a fresh tag, and the stream is read up to the continuation
/// request.  Records before it are ignored.
pub open spec fn spec_idle_init(s: SpecSession) -> SpecSession {
    let s1 = spec_run_command(s, "IDLE"@);
    SpecSession { stream: s.stream.skip(init_consumed(s.stream)), ..s1 }
}

/// A handle that holds the connection in IDLE mode.  `id` is the tag
/// minted when the mode was entered, `None` before that.
#[derive(Debug)]
pub struct Handle {
    pub session: Session,
    pub id: Option<RequestId>,
}

/// A reader of the responses the server pushes while the connection
/// idles.  It owns the handle; `into_handle` gives it back.
#[derive(Debug)]
pub struct IdleStream {
    handle: Handle,
}

/// Spec mirror of [`Handle`] and of [`IdleStream`].
#[verifier::ext_equal]
pub struct SpecHandle {
    pub session: SpecSession,
    pub id: Option<Seq<char>>,
}

impl View for Handle {
    type V = SpecHandle;

    open spec fn view(&self) -> SpecHandle {
        SpecHandle { session: self.session@, id: self.id.deep_view() }
    }
}

impl View for IdleStream {
    type V = SpecHandle;

    closed spec fn view(&self) -> SpecHandle {
        self.handle@
    }
}

impl Handle {
    /// A fresh handle around a session; IDLE mode is not yet entered.
    pub fn new(session: Session) -> (h: Handle)
        ensures
            h@.session == session@,
            h@.id is None,
    {
        Handle { session, id: None }
    }

    /// Enters IDLE mode: sends `IDLE` under a fresh tag, stores the tag,
    /// and reads responses until the server's continuation request.
    /// Records before the continuation are ignored.  If the stream ends
    /// first, the connection was refused.
    pub fn init(&mut self) -> (r: Result<(), Error>)
        requires
            old(self).id is None,
            old(self).session.next_tag < u32::MAX,
        ensures
            final(self)@.session == spec_idle_init(old(self)@.session),
            final(self)@.id == Some(spec_tag(old(self)@.session.next_tag)),
            match r {
                Ok(_) => first_continue(old(self)@.session.stream) is Some,
                Err(e) => first_continue(old(self)@.session.stream) is None && e@
                    == crate::error::SpecError::ConnectionRefused,
            },
    {
        let id = self.session.run_command("IDLE");
        self.id = Some(id);
        let ghost rs0: Seq<SpecResponseData> = old(self)@.session.stream;
        let ghost mut k: int = 0;
        proof {
            assert(rs0.skip(0) =~= rs0);
            lemma_first_continue_bounds(rs0);
        }
        loop
            invariant
                rs0 == old(self)@.session.stream,
                old(self).session.next_tag < u32::MAX,
                0 <= k <= rs0.len(),
                self.session@.stream == rs0.skip(k),
                self.session@.sink == old(self)@.session.sink,
                self.session@.next_tag == old(self)@.session.next_tag + 1,
                self.session@.wire == spec_run_command(old(self)@.session, "IDLE"@).wire,
                self.id.deep_view() == Some(spec_tag(old(self)@.session.next_tag)),
                ({
                    match first_continue(rs0) {
                        Some(c) => k <= c && first_continue(rs0.skip(k)) == Some(c - k),
                        None => first_continue(rs0.skip(k)) is None,
                    }
                }),
            decreases rs0.len() - k,
        {
            let ghost pre: Seq<SpecResponseData> = self.session@.stream;
            match self.session.stream.next() {
                None => {
                    proof {
                        assert(first_continue(pre) is None);
                        assert(first_continue(rs0) is None);
                        assert(rs0.skip(k) =~= rs0.skip(rs0.len() as int));
                        assert(self@.session =~= spec_idle_init(old(self)@.session));
                    }
                    return Err(Error::ConnectionRefused);
                }
                Some(rd) => {
                    proof {
                        assert(rs0.skip(k).drop_first() =~= rs0.skip(k + 1));
                    }
                    if matches!(rd.response, Response::Continue { .. }) {
                        proof {
                            assert(first_continue(pre) == Some(0int));
                            assert(self@.session =~= spec_idle_init(old(self)@.session));
                        }
                        return Ok(());
                    }
                    proof {
                        assert(!(pre[0].parsed is Continue));
                        assert(rs0.skip(k)[0] == pre[0]);
                        lemma_first_continue_bounds(rs0.skip(k + 1));
                        k = k + 1;
                    }
                }
            }
        }
    }

    /// Starts listening to the pushed responses.  May only be called
    /// once IDLE mode was entered.  The handle moves into the returned
    /// stream; [`IdleStream::into_handle`] gives it back.
    pub fn stream(self) -> (r: IdleStream)
        requires
            self.id is Some,
        ensures
            r@ == self@,
    {
        IdleStream { handle: self }
    }

    /// Leaves IDLE mode: sends the untagged `DONE`, awaits `OK` under
    /// the tag minted at entry, and returns the session.
    pub fn done(self) -> (r: Result<Session, Error>)
        requires
            self.id is Some,
        ensures
            ({
                let s1 = spec_run_untagged(self@.session, "DONE"@);
                let drained = spec_check_ok(s1, self@.id->0);
                match r {
                    Ok(sess) => drained.1 is Success && sess@ == drained.0,
                    Err(e) => drained.1 matches SpecOutcome::Failure(se) && e@ == se,
                }
            }),
    {
        let Handle { mut session, id } = self;
        session.run_command_untagged("DONE");
        let tag = match id {
            Some(t) => t,
            None => {
                proof {
                    assert(false);
                }
                unreached()
            }
        };
        match session.check_ok(&tag) {
            Ok(_) => Ok(session),
            Err(e) => Err(e),
        }
    }
}

impl IdleStream {
    /// The next pushed response, in arrival order, or `None` when the
    /// stream has ended.  The responses are not interpreted: the
    /// consumer decides when enough change has been observed.
    pub fn next_response(&mut self) -> (r: Option<ResponseData>)
        ensures
            final(self)@.id == old(self)@.id,
            (final(self)@.session == SpecSession {
                stream: final(self)@.session.stream,
                ..old(self)@.session
            }),
            (old(self)@.session.stream.len() == 0 ==> r is None && final(self)@.session.stream
                == old(self)@.session.stream),
            (old(self)@.session.stream.len() > 0 ==> match r {
                Some(rd) => rd@ == old(self)@.session.stream[0] && final(self)@.session.stream
                    == old(self)@.session.stream.drop_first(),
                None => false,
            }),
    {
        self.handle.session.stream.next()
    }

    /// Whether the underlying response source has ended: no further
    /// pushed response will ever arrive.
    pub fn is_terminated(&self) -> (r: bool)
        ensures
            r == (self@.session.stream.len() == 0),
    {
        self.handle.session.stream.is_empty()
    }

    /// Ends the listening borrow: gives the handle back, for `done`.
    pub fn into_handle(self) -> (h: Handle)
        ensures
            h@ == self@,
    {
        self.handle
    }
}

} // verus!
