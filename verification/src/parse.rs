//! The per-command demultiplexers.
//!
//! Each one drains the response stream up to (and including) the
//! completion reply carrying its command's tag, routes unilateral server
//! updates to the sink on the way, and folds the records its command
//! keeps into the command's typed result.  The contracts are exact: the
//! records consumed, the events routed, the result built and the error
//! returned are all pinned to the [`crate::demux::demux`] run over the
//! stream's contents.

use vstd::prelude::*;

use std::collections::HashSet;

use crate::demux::demux;
use crate::demux::eager_outcome;
use crate::demux::eager_result;
use crate::demux::lazy_outcome;
use crate::demux::lazy_result;
use crate::demux::parsed_of;
use crate::demux::run_demux;
use crate::demux::CommandKind;
use crate::demux::SpecOutcome;
use crate::error::Error;
use crate::response::MailboxDatum;
use crate::response::ReplyStatus;
use crate::response::RequestId;
use crate::response::RespCode;
use crate::response::Response;
use crate::response::SpecResponse;
use crate::response::SpecResponseData;
use crate::stream::ResponseStream;
use crate::stream::Sink;
use crate::types::caps_fold;
use crate::types::caps_of;
use crate::types::caps_tokens_fold;
use crate::types::expunges_fold;
use crate::types::expunges_of;
use crate::types::fetches_fold;
use crate::types::fetches_of;
use crate::types::flags_from;
use crate::types::ids_fold;
use crate::types::ids_insert_all;
use crate::types::ids_of;
use crate::types::mailbox_apply;
use crate::types::mailbox_fold;
use crate::types::mailbox_of;
use crate::types::names_fold;
use crate::types::names_of;
use crate::types::Capabilities;
use crate::types::Fetch;
use crate::types::Mailbox;
use crate::types::Name;

verus! {

/// Runs the LIST-family demultiplexer: yields one [`Name`] per `List`
/// mailbox datum seen before the completion reply, in arrival order.
pub fn parse_names(
    stream: &mut ResponseStream,
    sink: &mut Sink,
    command_tag: RequestId,
) -> (r: Result<Vec<Name>, Error>)
    ensures
        ({
            let d = demux(parsed_of(old(stream)@), command_tag@, CommandKind::ListCmd);
            &&& final(stream)@ == old(stream)@.skip(d.consumed)
            &&& final(sink)@ == old(sink)@ + d.events
            &&& match r {
                Ok(names) => lazy_outcome(d.end) is Success && names.deep_view() == names_of(
                    d.matched,
                ),
                Err(e) => lazy_outcome(d.end) matches SpecOutcome::Failure(se) && e@ == se,
            }
        }),
{
    let (matched, end) = run_demux(stream, sink, &command_tag, CommandKind::ListCmd);
    if let Err(e) = lazy_result(end) {
        return Err(e);
    }
    let ghost all: Seq<SpecResponse> = parsed_of(matched.deep_view());
    let mut rest = matched;
    let mut names: Vec<Name> = Vec::new();
    proof {
        assert(names.deep_view() =~= Seq::<crate::types::SpecName>::empty());
    }
    while rest.len() > 0
        invariant
            names_of(all) == names_fold(names.deep_view(), parsed_of(rest.deep_view())),
        decreases rest.len(),
    {
        let ghost pre: Seq<SpecResponseData> = rest.deep_view();
        let rd = rest.remove(0);
        proof {
            assert(rest.deep_view() =~= pre.drop_first());
            assert(parsed_of(pre).drop_first() =~= parsed_of(pre.drop_first()));
            assert(parsed_of(pre)[0] == rd@.parsed);
        }
        let ghost names_pre: Seq<crate::types::SpecName> = names.deep_view();
        match rd.response {
            Response::MailboxData(MailboxDatum::List { flags, delimiter, name }) => {
                let nm = Name { attributes: flags, delimiter, name };
                let ghost nmv = nm@;
                names.push(nm);
                proof {
                    assert(names.deep_view() =~= names_pre.push(nmv));
                }
            }
            _ => {}
        }
    }
    proof {
        assert(parsed_of(rest.deep_view()).len() == 0);
    }
    Ok(names)
}

/// Runs the FETCH-family demultiplexer: decodes one [`Fetch`] per
/// `Fetch` record seen before the completion reply, in arrival order.
pub fn parse_fetches(
    stream: &mut ResponseStream,
    sink: &mut Sink,
    command_tag: RequestId,
) -> (r: Result<Vec<Fetch>, Error>)
    ensures
        ({
            let d = demux(parsed_of(old(stream)@), command_tag@, CommandKind::FetchCmd);
            &&& final(stream)@ == old(stream)@.skip(d.consumed)
            &&& final(sink)@ == old(sink)@ + d.events
            &&& match r {
                Ok(fetches) => lazy_outcome(d.end) is Success && fetches.deep_view()
                    == fetches_of(d.matched),
                Err(e) => lazy_outcome(d.end) matches SpecOutcome::Failure(se) && e@ == se,
            }
        }),
{
    let (matched, end) = run_demux(stream, sink, &command_tag, CommandKind::FetchCmd);
    if let Err(e) = lazy_result(end) {
        return Err(e);
    }
    let ghost all: Seq<SpecResponse> = parsed_of(matched.deep_view());
    let mut rest = matched;
    let mut fetches: Vec<Fetch> = Vec::new();
    proof {
        assert(fetches.deep_view() =~= Seq::<crate::types::SpecFetch>::empty());
    }
    while rest.len() > 0
        invariant
            fetches_of(all) == fetches_fold(fetches.deep_view(), parsed_of(rest.deep_view())),
        decreases rest.len(),
    {
        let ghost pre: Seq<SpecResponseData> = rest.deep_view();
        let rd = rest.remove(0);
        proof {
            assert(rest.deep_view() =~= pre.drop_first());
            assert(parsed_of(pre).drop_first() =~= parsed_of(pre.drop_first()));
            assert(parsed_of(pre)[0] == rd@.parsed);
        }
        let ghost fetches_pre: Seq<crate::types::SpecFetch> = fetches.deep_view();
        match rd.response {
            Response::Fetch(n, attrs) => {
                let f = Fetch::new(n, attrs);
                fetches.push(f);
                proof {
                    assert(fetches.deep_view() =~= fetches_pre.push(f@));
                }
            }
            _ => {}
        }
    }
    proof {
        assert(parsed_of(rest.deep_view()).len() == 0);
    }
    Ok(fetches)
}

/// Runs the EXPUNGE demultiplexer: inside this command an `Expunge`
/// record is the expected result rather than a unilateral push, so its
/// sequence numbers are yielded in arrival order.
pub fn parse_expunge(
    stream: &mut ResponseStream,
    sink: &mut Sink,
    command_tag: RequestId,
) -> (r: Result<Vec<u32>, Error>)
    ensures
        ({
            let d = demux(parsed_of(old(stream)@), command_tag@, CommandKind::ExpungeCmd);
            &&& final(stream)@ == old(stream)@.skip(d.consumed)
            &&& final(sink)@ == old(sink)@ + d.events
            &&& match r {
                Ok(ids) => lazy_outcome(d.end) is Success && ids@ == expunges_of(d.matched),
                Err(e) => lazy_outcome(d.end) matches SpecOutcome::Failure(se) && e@ == se,
            }
        }),
{
    let (matched, end) = run_demux(stream, sink, &command_tag, CommandKind::ExpungeCmd);
    if let Err(e) = lazy_result(end) {
        return Err(e);
    }
    let ghost all: Seq<SpecResponse> = parsed_of(matched.deep_view());
    let mut rest = matched;
    let mut ids: Vec<u32> = Vec::new();
    while rest.len() > 0
        invariant
            expunges_of(all) == expunges_fold(ids@, parsed_of(rest.deep_view())),
        decreases rest.len(),
    {
        let ghost pre: Seq<SpecResponseData> = rest.deep_view();
        let rd = rest.remove(0);
        proof {
            assert(rest.deep_view() =~= pre.drop_first());
            assert(parsed_of(pre).drop_first() =~= parsed_of(pre.drop_first()));
            assert(parsed_of(pre)[0] == rd@.parsed);
        }
        match rd.response {
            Response::Expunge(n) => {
                ids.push(n);
            }
            _ => {}
        }
    }
    proof {
        assert(parsed_of(rest.deep_view()).len() == 0);
    }
    Ok(ids)
}

/// Runs the CAPABILITY demultiplexer: merges the tokens of every
/// `CAPABILITY` line seen before the completion reply into one set,
/// first spelling kept, exact duplicates dropped.
pub fn parse_capabilities(
    stream: &mut ResponseStream,
    sink: &mut Sink,
    command_tag: RequestId,
) -> (r: Result<Capabilities, Error>)
    ensures
        ({
            let d = demux(parsed_of(old(stream)@), command_tag@, CommandKind::CapabilityCmd);
            &&& final(stream)@ == old(stream)@.skip(d.consumed)
            &&& final(sink)@ == old(sink)@ + d.events
            &&& match r {
                Ok(caps) => eager_outcome(d.end) is Success && caps@ == caps_of(d.matched)
                    && caps.wf(),
                Err(e) => eager_outcome(d.end) matches SpecOutcome::Failure(se) && e@ == se,
            }
        }),
{
    let (matched, end) = run_demux(stream, sink, &command_tag, CommandKind::CapabilityCmd);
    if let Err(e) = eager_result(end) {
        return Err(e);
    }
    let ghost all: Seq<SpecResponse> = parsed_of(matched.deep_view());
    let mut rest = matched;
    let mut caps = Capabilities::new();
    while rest.len() > 0
        invariant
            caps_of(all) == caps_fold(caps@, parsed_of(rest.deep_view())),
            caps.wf(),
        decreases rest.len(),
    {
        let ghost pre: Seq<SpecResponseData> = rest.deep_view();
        let rd = rest.remove(0);
        proof {
            assert(rest.deep_view() =~= pre.drop_first());
            assert(parsed_of(pre).drop_first() =~= parsed_of(pre.drop_first()));
            assert(parsed_of(pre)[0] == rd@.parsed);
        }
        match rd.response {
            Response::Capabilities(tokens) => {
                let ghost toks: Seq<Seq<char>> = tokens.deep_view();
                let ghost caps_entry: Seq<Seq<char>> = caps@;
                let mut ts = tokens;
                while ts.len() > 0
                    invariant
                        caps_tokens_fold(caps_entry, toks) == caps_tokens_fold(
                            caps@,
                            ts.deep_view(),
                        ),
                        caps.wf(),
                    decreases ts.len(),
                {
                    let ghost tpre: Seq<Seq<char>> = ts.deep_view();
                    let t = ts.remove(0);
                    proof {
                        assert(ts.deep_view() =~= tpre.drop_first());
                        assert(tpre[0] == t@);
                    }
                    caps.insert_token(t);
                }
                proof {
                    assert(ts.deep_view().len() == 0);
                }
            }
            _ => {}
        }
    }
    proof {
        assert(parsed_of(rest.deep_view()).len() == 0);
    }
    Ok(caps)
}

/// Runs the NOOP demultiplexer: every record before the completion reply
/// must be a unilateral update; they are routed and nothing is kept.
pub fn parse_noop(
    stream: &mut ResponseStream,
    sink: &mut Sink,
    command_tag: RequestId,
) -> (r: Result<(), Error>)
    ensures
        ({
            let d = demux(parsed_of(old(stream)@), command_tag@, CommandKind::NoopCmd);
            &&& final(stream)@ == old(stream)@.skip(d.consumed)
            &&& final(sink)@ == old(sink)@ + d.events
            &&& match r {
                Ok(_) => eager_outcome(d.end) is Success,
                Err(e) => eager_outcome(d.end) matches SpecOutcome::Failure(se) && e@ == se,
            }
        }),
{
    let (_matched, end) = run_demux(stream, sink, &command_tag, CommandKind::NoopCmd);
    eager_result(end)
}

/// Runs the SELECT / EXAMINE / STATUS demultiplexer: folds the mailbox
/// data seen before the completion reply into a [`Mailbox`], routing
/// `STATUS` data and `EXPUNGE` records to the sink on the way.
pub fn parse_mailbox(
    stream: &mut ResponseStream,
    sink: &mut Sink,
    command_tag: RequestId,
) -> (r: Result<Mailbox, Error>)
    ensures
        ({
            let d = demux(parsed_of(old(stream)@), command_tag@, CommandKind::SelectCmd);
            &&& final(stream)@ == old(stream)@.skip(d.consumed)
            &&& final(sink)@ == old(sink)@ + d.events
            &&& match r {
                Ok(mailbox) => eager_outcome(d.end) is Success && mailbox@ == mailbox_of(
                    d.matched,
                ),
                Err(e) => eager_outcome(d.end) matches SpecOutcome::Failure(se) && e@ == se,
            }
        }),
{
    let (matched, end) = run_demux(stream, sink, &command_tag, CommandKind::SelectCmd);
    if let Err(e) = eager_result(end) {
        return Err(e);
    }
    let ghost all: Seq<SpecResponse> = parsed_of(matched.deep_view());
    let mut rest = matched;
    let mut mailbox = Mailbox::default();
    while rest.len() > 0
        invariant
            mailbox_of(all) == mailbox_fold(mailbox@, parsed_of(rest.deep_view())),
        decreases rest.len(),
    {
        let ghost pre: Seq<SpecResponseData> = rest.deep_view();
        let rd = rest.remove(0);
        proof {
            assert(rest.deep_view() =~= pre.drop_first());
            assert(parsed_of(pre).drop_first() =~= parsed_of(pre.drop_first()));
            assert(parsed_of(pre)[0] == rd@.parsed);
        }
        let ghost m_pre: crate::types::SpecMailbox = mailbox@;
        match rd.response {
            Response::Data { status: ReplyStatus::Okay, code: Some(c), .. } => match c {
                RespCode::UidValidity(v) => {
                    mailbox.uid_validity = Some(v);
                    proof {
                        assert(mailbox@ =~= mailbox_apply(m_pre, parsed_of(pre)[0]));
                    }
                }
                RespCode::UidNext(v) => {
                    mailbox.uid_next = Some(v);
                    proof {
                        assert(mailbox@ =~= mailbox_apply(m_pre, parsed_of(pre)[0]));
                    }
                }
                RespCode::Unseen(v) => {
                    mailbox.unseen = Some(v);
                    proof {
                        assert(mailbox@ =~= mailbox_apply(m_pre, parsed_of(pre)[0]));
                    }
                }
                RespCode::PermanentFlags(fs) => {
                    let mut more = flags_from(fs);
                    mailbox.permanent_flags.append(&mut more);
                    proof {
                        assert(mailbox@ =~= mailbox_apply(m_pre, parsed_of(pre)[0]));
                    }
                }
                _ => {
                    proof {
                        assert(mailbox@ =~= mailbox_apply(m_pre, parsed_of(pre)[0]));
                    }
                }
            },
            Response::MailboxData(d) => match d {
                MailboxDatum::Exists(n) => {
                    mailbox.exists = n;
                    proof {
                        assert(mailbox@ =~= mailbox_apply(m_pre, parsed_of(pre)[0]));
                    }
                }
                MailboxDatum::Recent(n) => {
                    mailbox.recent = n;
                    proof {
                        assert(mailbox@ =~= mailbox_apply(m_pre, parsed_of(pre)[0]));
                    }
                }
                MailboxDatum::Flags(fs) => {
                    let mut more = flags_from(fs);
                    mailbox.flags.append(&mut more);
                    proof {
                        assert(mailbox@ =~= mailbox_apply(m_pre, parsed_of(pre)[0]));
                    }
                }
                _ => {
                    proof {
                        assert(mailbox@ =~= mailbox_apply(m_pre, parsed_of(pre)[0]));
                    }
                }
            },
            _ => {
                proof {
                    assert(mailbox@ =~= mailbox_apply(m_pre, parsed_of(pre)[0]));
                }
            }
        }
    }
    proof {
        assert(parsed_of(rest.deep_view()).len() == 0);
    }
    Ok(mailbox)
}

/// Runs the SEARCH demultiplexer: unions the id lists of every `SEARCH`
/// line seen before the completion reply, duplicates collapsed.
pub fn parse_ids(
    stream: &mut ResponseStream,
    sink: &mut Sink,
    command_tag: RequestId,
) -> (r: Result<HashSet<u32>, Error>)
    ensures
        ({
            let d = demux(parsed_of(old(stream)@), command_tag@, CommandKind::SearchCmd);
            &&& final(stream)@ == old(stream)@.skip(d.consumed)
            &&& final(sink)@ == old(sink)@ + d.events
            &&& match r {
                Ok(ids) => eager_outcome(d.end) is Success && ids@ == ids_of(d.matched),
                Err(e) => eager_outcome(d.end) matches SpecOutcome::Failure(se) && e@ == se,
            }
        }),
{
    let (matched, end) = run_demux(stream, sink, &command_tag, CommandKind::SearchCmd);
    if let Err(e) = eager_result(end) {
        return Err(e);
    }
    let ghost all: Seq<SpecResponse> = parsed_of(matched.deep_view());
    let mut rest = matched;
    let mut ids: HashSet<u32> = HashSet::new();
    while rest.len() > 0
        invariant
            ids_of(all) == ids_fold(ids@, parsed_of(rest.deep_view())),
        decreases rest.len(),
    {
        let ghost pre: Seq<SpecResponseData> = rest.deep_view();
        let rd = rest.remove(0);
        proof {
            assert(rest.deep_view() =~= pre.drop_first());
            assert(parsed_of(pre).drop_first() =~= parsed_of(pre.drop_first()));
            assert(parsed_of(pre)[0] == rd@.parsed);
        }
        match rd.response {
            Response::Ids(list) => {
                let ghost ids_entry: Set<u32> = ids@;
                let ghost l0: Seq<u32> = list@;
                proof {
                    assert(l0.skip(0) =~= l0);
                }
                let mut j: usize = 0;
                while j < list.len()
                    invariant
                        j <= list.len(),
                        l0 == list@,
                        ids_insert_all(ids_entry, l0) == ids_insert_all(ids@, l0.skip(j as int)),
                    decreases list.len() - j,
                {
                    proof {
                        assert(l0.skip(j as int)[0] == l0[j as int]);
                        assert(l0.skip(j as int).drop_first() =~= l0.skip(j as int + 1));
                    }
                    ids.insert(list[j]);
                    j += 1;
                }
                proof {
                    assert(l0.skip(list@.len() as int).len() == 0);
                }
            }
            _ => {}
        }
    }
    proof {
        assert(parsed_of(rest.deep_view()).len() == 0);
    }
    Ok(ids)
}

} // verus!
