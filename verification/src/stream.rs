//! The response source and the unsolicited-event sink, as owned values.
//!
//! A live connection feeds records in from the network and applies
//! backpressure when the event channel fills; both of those concerns
//! belong to the asynchronous layer around this library.  Here the source
//! is the queue of records not yet read, consumed strictly in arrival
//! order, and the sink is the queue of events fanned out so far.

use vstd::prelude::*;

use crate::response::ResponseData;
use crate::response::SpecResponseData;
use crate::response::SpecUnsolicited;
use crate::response::UnsolicitedResponse;

verus! {

/// The stream of response records a session yields, positioned on the
/// next unread record.  Reading consumes the head; whatever a command
/// leaves unread stays for the next reader.
#[derive(Clone, PartialEq, Eq, Debug)]
pub struct ResponseStream {
    items: Vec<ResponseData>,
}

impl View for ResponseStream {
    type V = Seq<SpecResponseData>;

    closed spec fn view(&self) -> Seq<SpecResponseData> {
        self.items.deep_view()
    }
}

impl ResponseStream {
    pub fn new(items: Vec<ResponseData>) -> (r: ResponseStream)
        ensures
            r@ == items.deep_view(),
    {
        ResponseStream { items }
    }

    pub fn len(&self) -> (r: usize)
        ensures
            r == self@.len(),
    {
        self.items.len()
    }

    pub fn is_empty(&self) -> (r: bool)
        ensures
            r == (self@.len() == 0),
    {
        self.items.len() == 0
    }

    /// Takes the next record off the stream, in arrival order.
    pub fn next(&mut self) -> (r: Option<ResponseData>)
        ensures
            old(self)@.len() == 0 ==> r is None && final(self)@ == old(self)@,
            old(self)@.len() > 0 ==> match r {
                Some(rd) => rd@ == old(self)@[0] && final(self)@ == old(self)@.drop_first(),
                None => false,
            },
    {
        if self.items.len() == 0 {
            None
        } else {
            let rd = self.items.remove(0);
            proof {
                assert(final(self)@ =~= old(self)@.drop_first());
            }
            Some(rd)
        }
    }
}

/// The unsolicited-response sink: the server-pushed mailbox events fanned
/// out so far, in arrival order.  The consumer reads them first-in
/// first-out.
#[derive(Clone, PartialEq, Eq, Debug)]
pub struct Sink {
    events: Vec<UnsolicitedResponse>,
}

impl View for Sink {
    type V = Seq<SpecUnsolicited>;

    closed spec fn view(&self) -> Seq<SpecUnsolicited> {
        self.events.deep_view()
    }
}

impl Sink {
    pub fn new() -> (r: Sink)
        ensures
            r@ == Seq::<SpecUnsolicited>::empty(),
    {
        let r = Sink { events: Vec::new() };
        proof {
            assert(r@ =~= Seq::<SpecUnsolicited>::empty());
        }
        r
    }

    pub fn len(&self) -> (r: usize)
        ensures
            r == self@.len(),
    {
        self.events.len()
    }

    pub fn is_empty(&self) -> (r: bool)
        ensures
            r == (self@.len() == 0),
    {
        self.events.len() == 0
    }

    /// Appends one event, preserving arrival order.
    pub fn send(&mut self, event: UnsolicitedResponse)
        ensures
            final(self)@ == old(self)@.push(event@),
    {
        self.events.push(event);
        proof {
            assert(final(self)@ =~= old(self)@.push(event@));
        }
    }

    /// Takes the oldest event not yet consumed.
    pub fn recv(&mut self) -> (r: Option<UnsolicitedResponse>)
        ensures
            old(self)@.len() == 0 ==> r is None && final(self)@ == old(self)@,
            old(self)@.len() > 0 ==> match r {
                Some(ev) => ev@ == old(self)@[0] && final(self)@ == old(self)@.drop_first(),
                None => false,
            },
    {
        if self.events.len() == 0 {
            None
        } else {
            let ev = self.events.remove(0);
            proof {
                assert(final(self)@ =~= old(self)@.drop_first());
            }
            Some(ev)
        }
    }
}

} // verus!
