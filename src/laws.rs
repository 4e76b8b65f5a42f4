//! Properties that hold across calls and across whole streams, proved over
//! the step functions that the handlers' contracts are stated with.
use vstd::prelude::*;
use crate::bidi::{
    bidi_actions, bidi_cancel, bidi_final, BidiActionView, Inbound,
};
use crate::client::{client_run, ClientStreamView};
use crate::message::{Fault, Request, ServiceError};
use crate::stream::{ServerStreamView, StreamState};
use crate::text::{join_queries, lemma_join_push, upper_of};

verus! {

/// In a sequence without duplicates each element occurs once.
proof fn lemma_distinct_count_one(s: Seq<Seq<char>>, q: Seq<char>)
    requires
        s.no_duplicates(),
        s.contains(q),
    ensures
        s.to_multiset().count(q) == 1,
    decreases s.len(),
{
    broadcast use vstd::seq_lib::group_to_multiset_ensures;

    let init = s.drop_last();
    assert(s =~= init.push(s.last()));
    assert(init.no_duplicates());
    if s.last() == q {
        assert(!init.contains(q));
    } else {
        let k = choose|k: int| 0 <= k < s.len() && s[k] == q;
        assert(init[k] == q);
        lemma_distinct_count_one(init, q);
    }
}

/// Along a chain of logs in which each is the one before plus one query,
/// the `k`-th log is the first plus the first `k` queries.
proof fn lemma_log_chain(logs: Seq<Seq<Seq<char>>>, order: Seq<Seq<char>>, k: int)
    requires
        logs.len() == order.len() + 1,
        forall|n: int| #![trigger order[n]] 0 <= n < order.len() ==> logs[n + 1] == logs[n].push(order[n]),
        0 <= k <= order.len(),
    ensures
        logs[k] == logs[0] + order.take(k),
    decreases k,
{
    if k > 0 {
        lemma_log_chain(logs, order, k - 1);
        assert(logs[k] == logs[k - 1].push(order[k - 1]));
        assert(logs[0] + order.take(k) =~= (logs[0] + order.take(k - 1)).push(order[k - 1]));
    } else {
        assert(logs[0] + order.take(0) =~= logs[0]);
    }
}

/// Unary calls running at the same time on one service. Exclusive access
/// serializes their appends in some order (`order`, a rearrangement of the
/// calls' queries `calls`); `logs[k]` is the log before the `k`-th append
/// and `logs[k + 1]` the log after it, as `unary`'s contract relates them.
/// When all have completed, the log has grown by exactly one entry per call,
/// the earlier entries are untouched, and the new entries are the calls'
/// queries counted with multiplicity; with distinct queries, each query is
/// among the new entries exactly once.
pub proof fn lemma_concurrent_unary_calls(
    logs: Seq<Seq<Seq<char>>>,
    calls: Seq<Seq<char>>,
    order: Seq<Seq<char>>,
)
    requires
        logs.len() == order.len() + 1,
        forall|n: int| #![trigger order[n]] 0 <= n < order.len() ==> logs[n + 1] == logs[n].push(order[n]),
        order.to_multiset() == calls.to_multiset(),
    ensures
        logs.last().len() == logs[0].len() + calls.len(),
        logs.last().subrange(0, logs[0].len() as int) == logs[0],
        logs.last().subrange(logs[0].len() as int, logs.last().len() as int).to_multiset()
            == calls.to_multiset(),
        calls.no_duplicates() ==> forall|q: Seq<char>|
            #[trigger] calls.contains(q) ==> logs.last().subrange(
                logs[0].len() as int,
                logs.last().len() as int,
            ).to_multiset().count(q) == 1,
{
    broadcast use vstd::seq_lib::group_to_multiset_ensures;

    lemma_log_chain(logs, order, order.len() as int);
    assert(order.take(order.len() as int) =~= order);
    let last = logs.last();
    assert(last.subrange(0, logs[0].len() as int) =~= logs[0]);
    assert(last.subrange(logs[0].len() as int, last.len() as int) =~= order);
    assert(order.len() == calls.len()) by {
        assert(order.len() == order.to_multiset().len());
        assert(calls.len() == calls.to_multiset().len());
    }
    if calls.no_duplicates() {
        assert forall|q: Seq<char>| #[trigger] calls.contains(q) implies last.subrange(
            logs[0].len() as int,
            last.len() as int,
        ).to_multiset().count(q) == 1 by {
            lemma_distinct_count_one(calls, q);
        }
    }
}

/// Every item is a valid request.
pub open spec fn all_valid(items: Seq<Request>) -> Seq<Result<Request, Fault>> {
    items.map_values(|r: Request| Ok::<Request, Fault>(r))
}

/// The queries of some requests.
pub open spec fn queries_of(items: Seq<Request>) -> Seq<Seq<char>> {
    items.map_values(|r: Request| r.query@)
}

/// Consuming a stream in two parts is consuming it whole.
proof fn lemma_client_run_split(
    v: ClientStreamView,
    a: Seq<Result<Request, Fault>>,
    b: Seq<Result<Request, Fault>>,
)
    ensures
        client_run(v, a + b) == client_run(client_run(v, a), b),
    decreases b.len(),
{
    if b.len() == 0 {
        assert(a + b =~= a);
    } else {
        lemma_client_run_split(v, a, b.drop_last());
        assert((a + b).drop_last() =~= a + b.drop_last());
    }
}

/// After a fault, further items change nothing.
proof fn lemma_client_fault_sticks(v: ClientStreamView, items: Seq<Result<Request, Fault>>)
    requires
        v.fault is Some,
    ensures
        client_run(v, items) == v,
    decreases items.len(),
{
    if items.len() > 0 {
        lemma_client_fault_sticks(v, items.drop_last());
    }
}

/// A client-streaming call over valid requests answers with their queries
/// joined by commas, in order; over no requests, with the empty text.
pub proof fn lemma_client_joins_every_query(items: Seq<Request>)
    ensures
        client_run(ClientStreamView::initial(), all_valid(items)).outcome() == Ok::<
            Seq<char>,
            Fault,
        >(join_queries(queries_of(items))),
        items.len() == 0 ==> client_run(ClientStreamView::initial(), all_valid(items)).outcome()
            == Ok::<Seq<char>, Fault>(Seq::empty()),
        client_run(ClientStreamView::initial(), all_valid(items)).queries == queries_of(items),
    decreases items.len(),
{
    if items.len() > 0 {
        let init = items.drop_last();
        lemma_client_joins_every_query(init);
        assert(all_valid(items).drop_last() =~= all_valid(init));
        assert(queries_of(items) =~= queries_of(init).push(items.last().query@));
        lemma_join_push(queries_of(init), items.last().query@);
        assert(all_valid(items).last() == Ok::<Request, Fault>(items.last()));
    } else {
        assert(queries_of(items) =~= Seq::<Seq<char>>::empty());
    }
}

/// Every item arrives intact.
pub open spec fn arrivals(items: Seq<Request>) -> Seq<Inbound> {
    items.map_values(|r: Request| Some(Ok::<Request, Fault>(r)))
}

/// Each item as it arrives, valid or faulted.
pub open spec fn events_of(items: Seq<Result<Request, Fault>>) -> Seq<Inbound> {
    items.map_values(|x: Result<Request, Fault>| Some(x))
}

/// Running a call in two parts is running it whole.
proof fn lemma_bidi_split(s: StreamState, a: Seq<Inbound>, b: Seq<Inbound>)
    ensures
        bidi_final(s, a + b) == bidi_final(bidi_final(s, a), b),
        bidi_actions(s, a + b) == bidi_actions(s, a) + bidi_actions(bidi_final(s, a), b),
    decreases b.len(),
{
    if b.len() == 0 {
        assert(a + b =~= a);
        assert(bidi_actions(s, a) + bidi_actions(bidi_final(s, a), b) =~= bidi_actions(s, a));
    } else {
        lemma_bidi_split(s, a, b.drop_last());
        assert((a + b).drop_last() =~= a + b.drop_last());
        assert(bidi_actions(s, a + b) =~= bidi_actions(s, a) + bidi_actions(bidi_final(s, a), b));
    }
}

/// A call that is over stays over, and answers every later event with
/// `Stop`.
pub proof fn lemma_bidi_over_stays_over(s: StreamState, items: Seq<Inbound>)
    requires
        s.is_terminal(),
    ensures
        bidi_final(s, items) == s,
        bidi_actions(s, items).len() == items.len(),
        forall|j: int|
            0 <= j < items.len() ==> #[trigger] bidi_actions(s, items)[j] == BidiActionView::Stop,
    decreases items.len(),
{
    if items.len() > 0 {
        lemma_bidi_over_stays_over(s, items.drop_last());
    }
}

/// The outbound stream of a bidirectional call is a per-item function of
/// the inbound one: the response to the n-th request is that request's
/// query upper-cased, whatever came before or after it, and every request
/// gets exactly one response.
pub proof fn lemma_bidi_per_item(items: Seq<Request>)
    ensures
        !bidi_final(StreamState::Created, arrivals(items)).is_terminal(),
        bidi_actions(StreamState::Created, arrivals(items)).len() == items.len(),
        forall|i: int|
            0 <= i < items.len() ==> #[trigger] bidi_actions(StreamState::Created, arrivals(items))[i]
                == BidiActionView::Emit(upper_of(items[i].query@)),
    decreases items.len(),
{
    if items.len() > 0 {
        let init = items.drop_last();
        lemma_bidi_per_item(init);
        assert(arrivals(items).drop_last() =~= arrivals(init));
    }
}

/// Cancelling a bidirectional call after the responses to its first `m`
/// requests went out: those `m` responses stand, none of them an error, and
/// whatever arrives afterwards produces nothing.
pub proof fn lemma_bidi_cancel_stops(items: Seq<Request>, m: nat, later: Seq<Inbound>)
    requires
        m <= items.len(),
    ensures
        bidi_actions(StreamState::Created, arrivals(items.take(m as int))).len() == m,
        forall|i: int|
            0 <= i < m ==> #[trigger] bidi_actions(
                StreamState::Created,
                arrivals(items.take(m as int)),
            )[i] == BidiActionView::Emit(upper_of(items[i].query@)),
        bidi_cancel(bidi_final(StreamState::Created, arrivals(items.take(m as int))))
            == StreamState::Cancelled,
        forall|j: int|
            0 <= j < later.len() ==> #[trigger] bidi_actions(StreamState::Cancelled, later)[j]
                == BidiActionView::Stop,
        bidi_final(StreamState::Cancelled, later) == StreamState::Cancelled,
{
    lemma_bidi_per_item(items.take(m as int));
    lemma_bidi_over_stays_over(StreamState::Cancelled, later);
}

/// A fault after two valid items: the client-streaming call fails with that
/// fault and returns no aggregate, while the bidirectional call has sent
/// exactly the two responses before it ends with the same fault and then
/// sends nothing more.
pub proof fn lemma_fault_after_two_items(
    a: Request,
    b: Request,
    f: Fault,
    later: Seq<Result<Request, Fault>>,
)
    ensures
        client_run(ClientStreamView::initial(), seq![Ok(a), Ok(b), Err(f)] + later).outcome()
            == Err::<Seq<char>, Fault>(f),
        ({
            let acts = bidi_actions(
                StreamState::Created,
                seq![Some(Ok(a)), Some(Ok(b)), Some(Err(f))] + events_of(later),
            );
            &&& acts.len() == 3 + later.len()
            &&& acts.take(3) == seq![
                BidiActionView::Emit(upper_of(a.query@)),
                BidiActionView::Emit(upper_of(b.query@)),
                BidiActionView::Fail(ServiceError::StreamFault(f)),
            ]
            &&& forall|j: int| 3 <= j < acts.len() ==> #[trigger] acts[j] == BidiActionView::Stop
        }),
{
    let head: Seq<Result<Request, Fault>> = seq![Ok(a), Ok(b), Err(f)];
    lemma_client_run_split(ClientStreamView::initial(), head, later);
    reveal_with_fuel(client_run, 4);
    assert(head.drop_last().drop_last().drop_last() =~= Seq::<Result<Request, Fault>>::empty());
    assert(head.drop_last().drop_last() =~= seq![Ok::<Request, Fault>(a)]);
    assert(head.drop_last() =~= seq![Ok::<Request, Fault>(a), Ok(b)]);
    lemma_client_fault_sticks(client_run(ClientStreamView::initial(), head), later);

    let ev: Seq<Inbound> = seq![Some(Ok(a)), Some(Ok(b)), Some(Err(f))];
    let rest = events_of(later);
    lemma_bidi_split(StreamState::Created, ev, rest);
    reveal_with_fuel(bidi_final, 4);
    reveal_with_fuel(bidi_actions, 4);
    assert(ev.drop_last().drop_last().drop_last() =~= Seq::<Inbound>::empty());
    assert(ev.drop_last().drop_last() =~= seq![Some(Ok::<Request, Fault>(a))]);
    assert(ev.drop_last() =~= seq![Some(Ok::<Request, Fault>(a)), Some(Ok(b))]);
    assert(bidi_final(StreamState::Created, ev) == StreamState::Errored);
    lemma_bidi_over_stays_over(StreamState::Errored, rest);
    let acts = bidi_actions(StreamState::Created, ev + rest);
    assert(bidi_actions(StreamState::Created, ev) =~= seq![
        BidiActionView::Emit(upper_of(a.query@)),
        BidiActionView::Emit(upper_of(b.query@)),
        BidiActionView::Fail(ServiceError::StreamFault(f)),
    ]);
    assert(acts.take(3) =~= bidi_actions(StreamState::Created, ev));
}

/// A server-streaming producer after `n` more accepted sends: its items are
/// untouched, and what it emitted is exactly the first items in order.
proof fn lemma_accept_n(v: ServerStreamView, n: nat)
    requires
        v.wf(),
        !v.cancelled,
        v.sent + n <= v.items.len(),
    ensures
        v.accept_n(n).wf(),
        v.accept_n(n).items == v.items,
        !v.accept_n(n).cancelled,
        v.accept_n(n).sent == v.sent + n,
        v.accept_n(n).emitted() == v.items.take((v.sent + n) as int),
    decreases n,
{
    if n > 0 {
        lemma_accept_n(v, (n - 1) as nat);
    }
}

/// A slow consumer only delays a server-streaming call. Each accepted send
/// hands over exactly the next item, so after any number of them the
/// consumer holds a prefix of the items in order, with none skipped, and once
/// every item was accepted it holds them all and the stream is complete.
pub proof fn lemma_slow_consumer_loses_nothing(v: ServerStreamView, n: nat)
    requires
        v.wf(),
        !v.cancelled,
        v.sent + n <= v.items.len(),
    ensures
        v.accept_n(n).emitted() == v.items.take((v.sent + n) as int),
        v.sent + n < v.items.len() ==> v.accept_n(n).pending() == Some(
            v.items[(v.sent + n) as int],
        ),
        v.sent + n == v.items.len() ==> v.accept_n(n).emitted() == v.items
            && v.accept_n(n).state() == StreamState::Completed,
{
    lemma_accept_n(v, n);
    if v.sent + n == v.items.len() {
        assert(v.items.take((v.sent + n) as int) =~= v.items);
    }
}

/// A server-streaming call that took its snapshot of the log emits that
/// snapshot and nothing else: an entry appended to the log afterwards
/// (`later`, absent from the snapshot) is never emitted.
pub proof fn lemma_snapshot_isolation(log: Seq<Seq<char>>, later: Seq<char>, n: nat)
    requires
        n <= log.len(),
        !log.contains(later),
    ensures
        ({
            let v = ServerStreamView { items: log, sent: 0, cancelled: false };
            &&& v.accept_n(n).emitted() == log.take(n as int)
            &&& !v.accept_n(n).emitted().contains(later)
            &&& v.accept_n(log.len()).emitted() == log
        }),
{
    let v = ServerStreamView { items: log, sent: 0, cancelled: false };
    lemma_accept_n(v, n);
    lemma_slow_consumer_loses_nothing(v, log.len());
    if v.accept_n(n).emitted().contains(later) {
        let k = choose|k: int|
            0 <= k < v.accept_n(n).emitted().len() && v.accept_n(n).emitted()[k] == later;
        assert(log[k] == later);
    }
}

} // verus!
