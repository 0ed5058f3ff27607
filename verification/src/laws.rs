//! The laws of the demultiplexer and of the IDLE handle, each proved
//! once over the spec model that every contract in this crate speaks.

use vstd::prelude::*;

use crate::demux::check_outcome;
use crate::demux::command_matches;
use crate::demux::demux;
use crate::demux::is_done_with;
use crate::demux::is_unilateral;
use crate::demux::parsed_of;
use crate::demux::unilateral_event;
use crate::demux::CommandKind;
use crate::demux::SpecDemuxEnd;
use crate::idle::first_continue;
use crate::idle::init_consumed;
use crate::idle::spec_idle_init;
use crate::response::ReplyStatus;
use crate::response::SpecResponse;
use crate::response::SpecResponseData;
use crate::response::SpecUnsolicited;
use crate::session::command_line;
use crate::session::spec_check_ok;
use crate::session::spec_run_untagged;
use crate::session::untagged_line;
use crate::session::SpecSession;
use crate::text::ci_equal;
use crate::text::spec_tag;
use crate::types::caps_has_ci;
use crate::types::ids_insert_all;
use crate::types::ids_fold;
use crate::types::ids_of;

verus! {

/// Tag discipline.  When the completion reply carrying the command's
/// tag first appears at index `c`, no demultiplexer consumes a record
/// beyond it; and when every earlier record is one the command keeps or
/// a unilateral update, the run consumes exactly the records up to and
/// including that reply and terminates on it.  (A protocol-violating
/// record before the reply stops the run earlier: for a record such as
/// a stray continuation request the demultiplexer ends at it instead.)
pub proof fn lemma_tag_discipline(
    rs: Seq<SpecResponse>,
    tag: Seq<char>,
    kind: CommandKind,
    c: int,
)
    requires
        0 <= c < rs.len(),
        is_done_with(rs[c], tag),
        forall|i: int| 0 <= i < c ==> !is_done_with(#[trigger] rs[i], tag),
    ensures
        demux(rs, tag, kind).consumed <= c + 1,
        (forall|i: int|
            0 <= i < c ==> command_matches(kind, #[trigger] rs[i]) || is_unilateral(rs[i]))
            ==> demux(rs, tag, kind).consumed == c + 1 && demux(rs, tag, kind).end
            == SpecDemuxEnd::Terminated(rs[c]),
    decreases rs.len(),
{
    if c == 0 {
    } else {
        let rest = rs.drop_first();
        assert forall|i: int| 0 <= i < c - 1 implies !is_done_with(#[trigger] rest[i], tag) by {
            assert(rest[i] == rs[i + 1]);
        }
        assert(rest[c - 1] == rs[c]);
        lemma_tag_discipline(rest, tag, kind, c - 1);
        if forall|i: int|
            0 <= i < c ==> command_matches(kind, #[trigger] rs[i]) || is_unilateral(rs[i]) {
            assert forall|i: int|
                0 <= i < c - 1 implies command_matches(kind, #[trigger] rest[i]) || is_unilateral(
                rest[i],
            ) by {
                assert(rest[i] == rs[i + 1]);
            }
            assert(command_matches(kind, rs[0]) || is_unilateral(rs[0]));
        }
    }
}

/// Whether this command family routes `r` to the sink rather than
/// keeping it or rejecting it.
pub open spec fn is_routed(kind: CommandKind, r: SpecResponse) -> bool {
    !command_matches(kind, r) && is_unilateral(r)
}

/// `rs` with the records this command family would route to the sink
/// removed.
pub open spec fn without_unilateral(rs: Seq<SpecResponse>, kind: CommandKind) -> Seq<SpecResponse>
    decreases rs.len(),
{
    if rs.len() == 0 {
        Seq::empty()
    } else if is_routed(kind, rs[0]) {
        without_unilateral(rs.drop_first(), kind)
    } else {
        seq![rs[0]] + without_unilateral(rs.drop_first(), kind)
    }
}

/// Unilateral routing.  A demultiplexer's result does not depend on the
/// unilateral records interleaved with its command's records: on the
/// interleaving with those records removed it keeps the same records,
/// ends the same way, and routes nothing.
pub proof fn lemma_unilateral_routing(rs: Seq<SpecResponse>, tag: Seq<char>, kind: CommandKind)
    ensures
        ({
            let d = demux(rs, tag, kind);
            let df = demux(without_unilateral(rs, kind), tag, kind);
            &&& df.matched == d.matched
            &&& df.end == d.end
            &&& df.events == Seq::<SpecUnsolicited>::empty()
        }),
    decreases rs.len(),
{
    if rs.len() == 0 {
    } else {
        let r = rs[0];
        lemma_unilateral_routing(rs.drop_first(), tag, kind);
        if is_routed(kind, r) && !is_done_with(r, tag) {
        } else if is_routed(kind, r) && is_done_with(r, tag) {
            assert(!is_unilateral(r));
        } else {
            let tail = without_unilateral(rs.drop_first(), kind);
            assert((seq![r] + tail)[0] == r);
            assert((seq![r] + tail).drop_first() =~= tail);
        }
    }
}

/// The events a demultiplexer routes are exactly the events of the
/// routed records among the records it consumes, in arrival order.
pub open spec fn routed_events(rs: Seq<SpecResponse>, kind: CommandKind) -> Seq<SpecUnsolicited>
    decreases rs.len(),
{
    if rs.len() == 0 {
        Seq::empty()
    } else if is_routed(kind, rs[0]) {
        seq![unilateral_event(rs[0])] + routed_events(rs.drop_first(), kind)
    } else {
        routed_events(rs.drop_first(), kind)
    }
}

/// Unilateral routing, the other half: what reaches the sink is the
/// sequence of unilateral events among the consumed records, in their
/// order of arrival.
pub proof fn lemma_events_are_routed(rs: Seq<SpecResponse>, tag: Seq<char>, kind: CommandKind)
    ensures
        demux(rs, tag, kind).events == routed_events(rs.take(demux(rs, tag, kind).consumed), kind),
    decreases rs.len(),
{
    let d = demux(rs, tag, kind);
    if rs.len() == 0 {
        assert(rs.take(0) =~= Seq::<SpecResponse>::empty());
    } else {
        let r = rs[0];
        lemma_events_are_routed(rs.drop_first(), tag, kind);
        if is_done_with(r, tag) {
            assert(rs.take(1) =~= seq![r]);
            assert(rs.take(1).drop_first() =~= Seq::<SpecResponse>::empty());
            assert(routed_events(Seq::<SpecResponse>::empty(), kind)
                == Seq::<SpecUnsolicited>::empty());
            assert(routed_events(rs.take(1), kind) == Seq::<SpecUnsolicited>::empty());
        } else if command_matches(kind, r) || is_unilateral(r) {
            let rest = demux(rs.drop_first(), tag, kind);
            crate::demux::lemma_demux_consumed_bounds(rs.drop_first(), tag, kind);
            let taken = rs.take(1 + rest.consumed);
            assert(taken[0] == r);
            assert(taken.drop_first() =~= rs.drop_first().take(rest.consumed));
            assert(d.consumed == 1 + rest.consumed);
            assert(routed_events(taken, kind) == if is_routed(kind, r) {
                seq![unilateral_event(r)] + routed_events(taken.drop_first(), kind)
            } else {
                routed_events(taken.drop_first(), kind)
            });
            assert(rest.events == routed_events(taken.drop_first(), kind));
        } else {
            assert(rs.take(1) =~= seq![r]);
            assert(rs.take(1).drop_first() =~= Seq::<SpecResponse>::empty());
            assert(routed_events(Seq::<SpecResponse>::empty(), kind)
                == Seq::<SpecUnsolicited>::empty());
            assert(routed_events(rs.take(1), kind) == Seq::<SpecUnsolicited>::empty());
        }
    }
}

/// Capability case-insensitivity.  Membership in the capability set
/// cannot tell two spellings apart that fold to the same ASCII letters:
/// after parsing `IMAP4rev1` or `IMAP4REV1`, `has_str` answers alike
/// for either spelling.
pub proof fn lemma_has_ci_spelling(toks: Seq<Seq<char>>, a: Seq<char>, b: Seq<char>)
    requires
        ci_equal(a, b),
    ensures
        caps_has_ci(toks, a) == caps_has_ci(toks, b),
{
    if caps_has_ci(toks, a) {
        let i = choose|i: int| 0 <= i < toks.len() && ci_equal(toks[i], a);
        assert(ci_equal(toks[i], b));
    }
    if caps_has_ci(toks, b) {
        let i = choose|i: int| 0 <= i < toks.len() && ci_equal(toks[i], b);
        assert(ci_equal(toks[i], a));
    }
}

/// Whether `r` is a `SEARCH` record listing `n`.
pub open spec fn ids_record_with(r: SpecResponse, n: u32) -> bool {
    match r {
        SpecResponse::Ids(l) => l.contains(n),
        _ => false,
    }
}

proof fn lemma_ids_insert_all_members(acc: Set<u32>, l: Seq<u32>, n: u32)
    ensures
        ids_insert_all(acc, l).contains(n) <==> acc.contains(n) || l.contains(n),
    decreases l.len(),
{
    if l.len() == 0 {
    } else {
        lemma_ids_insert_all_members(acc.insert(l[0]), l.drop_first(), n);
        if l.contains(n) {
            let i = choose|i: int| 0 <= i < l.len() && l[i] == n;
            if i > 0 {
                assert(l.drop_first()[i - 1] == n);
            }
        }
        if l.drop_first().contains(n) {
            let i = choose|i: int| 0 <= i < l.drop_first().len() && l.drop_first()[i] == n;
            assert(l[i + 1] == n);
        }
    }
}

proof fn lemma_ids_fold_members(acc: Set<u32>, rs: Seq<SpecResponse>, n: u32)
    ensures
        ids_fold(acc, rs).contains(n) <==> acc.contains(n) || (exists|i: int|
            0 <= i < rs.len() && ids_record_with(#[trigger] rs[i], n)),
    decreases rs.len(),
{
    if rs.len() == 0 {
    } else {
        let next = match rs[0] {
            SpecResponse::Ids(l) => ids_insert_all(acc, l),
            _ => acc,
        };
        lemma_ids_fold_members(next, rs.drop_first(), n);
        match rs[0] {
            SpecResponse::Ids(l) => lemma_ids_insert_all_members(acc, l, n),
            _ => (),
        }
        if ids_fold(acc, rs).contains(n) && !acc.contains(n) {
            if next.contains(n) {
                assert(ids_record_with(rs[0], n));
            } else {
                let i = choose|i: int|
                    0 <= i < rs.drop_first().len() && ids_record_with(
                        #[trigger] rs.drop_first()[i],
                        n,
                    );
                assert(rs[i + 1] == rs.drop_first()[i]);
                assert(ids_record_with(rs[i + 1], n));
            }
        }
        if exists|i: int| 0 <= i < rs.len() && ids_record_with(#[trigger] rs[i], n) {
            let i = choose|i: int| 0 <= i < rs.len() && ids_record_with(#[trigger] rs[i], n);
            if i > 0 {
                assert(rs.drop_first()[i - 1] == rs[i]);
                assert(ids_record_with(rs.drop_first()[i - 1], n));
            }
        }
    }
}

/// Search idempotence, membership form.  An id is in the union exactly
/// when some `SEARCH` record of the sequence lists it; so duplicate ids
/// collapse, and a line repeated verbatim adds nothing.
pub proof fn lemma_ids_members(rs: Seq<SpecResponse>, n: u32)
    ensures
        ids_of(rs).contains(n) <==> exists|i: int|
            0 <= i < rs.len() && ids_record_with(#[trigger] rs[i], n),
{
    lemma_ids_fold_members(Set::empty(), rs, n);
}

/// Search idempotence, ordering form.  Two record sequences holding the
/// same `SEARCH` records in any order union to the same id set.
pub proof fn lemma_ids_order_independent(rs1: Seq<SpecResponse>, rs2: Seq<SpecResponse>)
    requires
        rs1.to_multiset() == rs2.to_multiset(),
    ensures
        ids_of(rs1) == ids_of(rs2),
{
    broadcast use vstd::seq_lib::group_to_multiset_ensures;

    assert forall|n: u32| ids_of(rs1).contains(n) implies ids_of(rs2).contains(n) by {
        lemma_ids_members(rs1, n);
        lemma_ids_members(rs2, n);
        let i = choose|i: int| 0 <= i < rs1.len() && ids_record_with(#[trigger] rs1[i], n);
        assert(rs1.contains(rs1[i]));
        assert(rs1.to_multiset().count(rs1[i]) > 0);
        assert(rs2.to_multiset().count(rs1[i]) > 0);
        assert(rs2.contains(rs1[i]));
        let j = choose|j: int| 0 <= j < rs2.len() && rs2[j] == rs1[i];
        assert(ids_record_with(rs2[j], n));
    }
    assert forall|n: u32| ids_of(rs2).contains(n) implies ids_of(rs1).contains(n) by {
        lemma_ids_members(rs1, n);
        lemma_ids_members(rs2, n);
        let i = choose|i: int| 0 <= i < rs2.len() && ids_record_with(#[trigger] rs2[i], n);
        assert(rs2.contains(rs2[i]));
        assert(rs2.to_multiset().count(rs2[i]) > 0);
        assert(rs1.to_multiset().count(rs2[i]) > 0);
        assert(rs1.contains(rs2[i]));
        let j = choose|j: int| 0 <= j < rs1.len() && rs1[j] == rs2[i];
        assert(ids_record_with(rs1[j], n));
    }
    assert(ids_of(rs1) =~= ids_of(rs2));
}

/// IDLE round trip.  On a stream that begins with the continuation
/// request and the `OK` completion under the tag IDLE will mint,
/// entering IDLE mode and leaving it at once returns the session as it
/// was: the stream is past exactly those two records, the sink is
/// untouched, one tag is consumed, and the wire carries the `IDLE` and
/// `DONE` lines and nothing else.
pub proof fn lemma_idle_round_trip(
    s: SpecSession,
    cont: SpecResponseData,
    done_rd: SpecResponseData,
    rest: Seq<SpecResponseData>,
)
    requires
        s.stream == seq![cont, done_rd] + rest,
        cont.parsed is Continue,
        done_rd.parsed matches SpecResponse::Done { tag, status: ReplyStatus::Okay, .. } && tag
            == spec_tag(s.next_tag),
        s.next_tag < u32::MAX,
    ensures
        first_continue(s.stream) is Some,
        ({
            let after_init = spec_idle_init(s);
            let drained = spec_check_ok(
                spec_run_untagged(after_init, "DONE"@),
                spec_tag(s.next_tag),
            );
            &&& drained.1 is Success
            &&& drained.0.stream == rest
            &&& drained.0.sink == s.sink
            &&& drained.0.next_tag == s.next_tag + 1
            &&& drained.0.wire == s.wire.push(command_line(spec_tag(s.next_tag), "IDLE"@)).push(
                untagged_line("DONE"@),
            )
        }),
{
    assert(s.stream[0] == cont);
    assert(first_continue(s.stream) == Some(0int));
    assert(init_consumed(s.stream) == 1);
    let after_init = spec_idle_init(s);
    assert(after_init.stream =~= seq![done_rd] + rest);
    let s1 = spec_run_untagged(after_init, "DONE"@);
    assert(s1.stream == after_init.stream);
    assert(parsed_of(s1.stream)[0] == done_rd.parsed);
    assert(is_done_with(done_rd.parsed, spec_tag(s.next_tag)));
    let d = demux(parsed_of(s1.stream), spec_tag(s.next_tag), CommandKind::NoopCmd);
    assert(d.consumed == 1);
    assert(d.end == SpecDemuxEnd::Terminated(done_rd.parsed));
    assert(check_outcome(d.end) is Success);
    let drained = spec_check_ok(s1, spec_tag(s.next_tag));
    assert(drained.0.stream =~= rest);
    assert(drained.0.sink =~= s.sink);
}

} // verus!
