//! Properties that hold across several operations of a multiplexer.

use vstd::prelude::*;
use crate::bridge::{poll_model, publish_model, BridgeModel};
use crate::muxer::{
    close_model, dropped_model, event_model, inbound_model, open_model, CloseStep, MuxModel, MuxerEvent,
    Phase,
};
use crate::registry::{drain_model, lemma_live_count_zero, live_count, Entry};

verus! {

/// Each delivered value is observed by one poll at most: once a poll has
/// taken it, the next poll finds nothing until another value is published.
/// The same holds of inbound substreams on a multiplexer.
pub proof fn lemma_delivered_at_most_once<C, W>(b: BridgeModel<C, W>, m: MuxModel<C, W>, w1: W, w2: W)
    ensures
        poll_model(b, w1).1 is Some ==> poll_model(poll_model(b, w1).0, w2).1 is None,
        inbound_model(m, w1).1 is Some ==> inbound_model(inbound_model(m, w1).0, w2).1 is None,
{
}

/// On an open connection, each arrival in `events` is published and then
/// polled for; the channels handed out, in order, and the final state.
pub open spec fn arrivals_polled<C, W>(m: MuxModel<C, W>, events: Seq<C>, waker: W) -> (MuxModel<C, W>, Seq<C>)
    decreases events.len(),
{
    if events.len() == 0 {
        (m, Seq::empty())
    } else {
        let published = MuxModel { inbound: publish_model(m.inbound, events[0]).0, ..m };
        let (polled, got) = inbound_model(published, waker);
        let (last, rest) = arrivals_polled(polled, events.drop_first(), waker);
        match got {
            Some(c) => (last, seq![c] + rest),
            None => (last, rest),
        }
    }
}

/// When every arrival is followed by a poll, no arrival is lost: all of
/// them are handed out exactly once, in the order they arrived.
pub proof fn lemma_arrivals_in_order<C, W>(m: MuxModel<C, W>, events: Seq<C>, waker: W)
    requires
        m.inbound.slot is None,
    ensures
        arrivals_polled(m, events, waker).1 == events,
    decreases events.len(),
{
    if events.len() > 0 {
        let published = MuxModel { inbound: publish_model(m.inbound, events[0]).0, ..m };
        let polled = inbound_model(published, waker).0;
        lemma_arrivals_in_order(polled, events.drop_first(), waker);
        assert(seq![events[0]] + events.drop_first() =~= events);
    }
}

/// `k` substreams handed out one after another.
pub open spec fn open_many<C, W>(m: MuxModel<C, W>, k: nat) -> MuxModel<C, W>
    decreases k,
{
    if k == 0 {
        m
    } else {
        open_model(open_many(m, (k - 1) as nat))
    }
}

/// The substreams of `tokens` reported destroyed, in that order.
pub open spec fn drop_each<C, W>(m: MuxModel<C, W>, tokens: Seq<usize>) -> MuxModel<C, W>
    decreases tokens.len(),
{
    if tokens.len() == 0 {
        m
    } else {
        dropped_model(drop_each(m, tokens.drop_last()), tokens.last()).0
    }
}

proof fn lemma_open_many<C, W>(m: MuxModel<C, W>, k: nat)
    ensures
        open_many(m, k).entries.len() == m.entries.len() + k,
        forall|i: int| 0 <= i < m.entries.len() ==> open_many(m, k).entries[i] == m.entries[i],
        forall|i: int| m.entries.len() <= i < m.entries.len() + k ==> open_many(m, k).entries[i] == Entry::Live,
        k > 0 ==> open_many(m, k).busy,
    decreases k,
{
    if k > 0 {
        lemma_open_many(m, (k - 1) as nat);
    }
}

proof fn lemma_drop_each<C, W>(m: MuxModel<C, W>, tokens: Seq<usize>)
    requires
        m.entries.len() <= usize::MAX,
    ensures
        drop_each(m, tokens).entries.len() == m.entries.len(),
        drop_each(m, tokens).busy == m.busy,
        forall|i: int| 0 <= i < m.entries.len() ==> drop_each(m, tokens).entries[i] == if m.entries[i] == Entry::Live
            && tokens.contains(i as usize) {
            Entry::Signalled
        } else {
            m.entries[i]
        },
    decreases tokens.len(),
{
    if tokens.len() > 0 {
        let prefix = tokens.drop_last();
        lemma_drop_each(m, prefix);
        assert forall|i: int| 0 <= i < m.entries.len() implies drop_each(m, tokens).entries[i] == if m.entries[i]
            == Entry::Live && tokens.contains(i as usize) {
            Entry::Signalled
        } else {
            m.entries[i]
        } by {
            if tokens.contains(i as usize) && !prefix.contains(i as usize) {
                let j = choose|j: int| 0 <= j < tokens.len() && tokens[j] == i as usize;
                if j < prefix.len() {
                    assert(prefix[j] == tokens[j]);
                }
            }
            if prefix.contains(i as usize) {
                let j = choose|j: int| 0 <= j < prefix.len() && prefix[j] == i as usize;
                assert(tokens[j] == prefix[j]);
            }
            if tokens.last() == i as usize {
                assert(tokens[tokens.len() - 1] == i as usize);
            }
        }
    }
}

/// Handing out `k` substreams on a multiplexer with none live, then
/// reporting all `k` destroyed in any order, yields exactly one idle
/// event: the first poll reports it, the next one does not.
pub proof fn lemma_idle_exactly_once<C, W>(m: MuxModel<C, W>, k: nat, tokens: Seq<usize>, w1: W, w2: W)
    requires
        live_count(m.entries) == 0,
        k >= 1,
        m.entries.len() + k <= usize::MAX,
        forall|t: usize| m.entries.len() <= t < m.entries.len() + k ==> #[trigger] tokens.contains(t),
    ensures
        event_model(drop_each(open_many(m, k), tokens), w1).1 == Some(MuxerEvent::Idle),
        event_model(event_model(drop_each(open_many(m, k), tokens), w1).0, w2).1 is None,
{
    let opened = open_many(m, k);
    let dropped = drop_each(opened, tokens);
    lemma_open_many(m, k);
    lemma_drop_each(opened, tokens);
    lemma_live_count_zero(m.entries);
    let drained = drain_model(dropped.entries);
    assert(drained.len() == dropped.entries.len());
    assert forall|i: int| 0 <= i < drained.len() implies drained[i] == Entry::Observed by {
        if i >= m.entries.len() {
            assert(tokens.contains(i as usize));
            assert(opened.entries[i] == Entry::Live);
            assert(dropped.entries[i] == Entry::Signalled);
        } else {
            assert(m.entries[i] == Entry::Observed);
            assert(dropped.entries[i] == Entry::Observed);
        }
        assert(drained[i] == (if dropped.entries[i] == Entry::Signalled { Entry::Observed } else { dropped.entries[i] }));
    }
    lemma_live_count_zero(drained);
    let after = event_model(dropped, w1).0;
    assert(drain_model(after.entries) =~= drained);
}

/// While any of the `k` substreams handed out is not reported destroyed,
/// polling yields no idle event.
pub proof fn lemma_no_idle_while_live<C, W>(m: MuxModel<C, W>, k: nat, tokens: Seq<usize>, t: int, w: W)
    requires
        m.entries.len() + k <= usize::MAX,
        m.entries.len() <= t < m.entries.len() + k,
        !tokens.contains(t as usize),
    ensures
        event_model(drop_each(open_many(m, k), tokens), w).1 is None,
{
    let opened = open_many(m, k);
    let dropped = drop_each(opened, tokens);
    lemma_open_many(m, k);
    lemma_drop_each(opened, tokens);
    let drained = drain_model(dropped.entries);
    assert(opened.entries[t] == Entry::Live);
    assert(dropped.entries[t] == Entry::Live);
    assert(drained[t] == Entry::Live);
    lemma_live_count_zero(drained);
}

/// Closing never releases the connection handle twice: only a request on
/// an open connection answers `Release`, and no request reopens it. Once
/// the release is finished, a further request is done at once and
/// changes nothing.
pub proof fn lemma_close_idempotent<C, W>(m: MuxModel<C, W>)
    ensures
        (close_model(m).1 == CloseStep::Release) == (m.phase == Phase::Open),
        close_model(m).0.phase != Phase::Open,
        close_model(close_model(m).0).1 != CloseStep::Release,
        m.phase == Phase::Closed ==> close_model(m) == (m, CloseStep::Done),
        ({
            let finished = MuxModel { phase: Phase::Closed, ..close_model(m).0 };
            close_model(finished) == (finished, CloseStep::Done)
        }),
{
}

} // verus!
