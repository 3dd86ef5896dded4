//! The push-subscription side: the registry of head and log subscribers,
//! the subscribe/unsubscribe protocol, and the notification dispatcher
//! that fans new-block and filtered-log events out to subscribers,
//! clamping each stored filter to the notified range. Sinks are opaque
//! non-owning tokens handed in by the transport; a delivery value names
//! the sink and the message, and pushing it is the transport's business.

use vstd::prelude::*;
use crate::types::H256;
use crate::block_ref::{BlockReference, spec_clamp_bound, resolve_for_notification_clamp, spec_resolve};
use crate::chain::{Chain, copy_bytes, copy_hashes};
use crate::errors::Error;
use crate::header::HeaderRecord;
use crate::wire::{Log, RichHeader};
use crate::filter::{LogFilter, spec_matches_in_range, spec_wire_of, query_logs};

verus! {

/// A registered new-heads subscriber.
#[derive(Clone, Copy, Debug, PartialEq, Eq, Structural)]
pub struct HeadsEntry {
    pub id: u64,
    pub sink: u64,
}

/// A registered log subscriber with its stored filter.
#[derive(Clone, Debug)]
pub struct LogsEntry {
    pub id: u64,
    pub sink: u64,
    pub filter: LogFilter,
}

/// First index at or after `i` of a heads entry with the given id.
pub open spec fn spec_heads_index_from(s: Seq<HeadsEntry>, id: u64, i: int) -> Option<int>
    decreases s.len() - i,
{
    if i >= s.len() {
        None
    } else if s[i].id == id {
        Some(i)
    } else {
        spec_heads_index_from(s, id, i + 1)
    }
}

/// First index at or after `i` of a logs entry with the given id.
pub open spec fn spec_logs_index_from(s: Seq<LogsEntry>, id: u64, i: int) -> Option<int>
    decreases s.len() - i,
{
    if i >= s.len() {
        None
    } else if s[i].id == id {
        Some(i)
    } else {
        spec_logs_index_from(s, id, i + 1)
    }
}

/// The thread-safe collection of active subscribers, keyed by
/// subscription id and partitioned by kind. Ids are drawn from a
/// counter, so they are unique for the lifetime of the registry and an
/// id is only ever present in one partition.
#[derive(Clone, Debug)]
pub struct SubscriptionRegistry {
    pub next_id: u64,
    pub heads: Vec<HeadsEntry>,
    pub logs: Vec<LogsEntry>,
}

impl SubscriptionRegistry {
    /// Ids are pairwise distinct within and across the two partitions,
    /// and every issued id is below the counter.
    pub open spec fn wf(self) -> bool {
        &&& forall|p: int, q: int|
            0 <= p < q < self.heads@.len() ==> (#[trigger] self.heads@[p]).id != (
            #[trigger] self.heads@[q]).id
        &&& forall|p: int, q: int|
            0 <= p < q < self.logs@.len() ==> (#[trigger] self.logs@[p]).id != (
            #[trigger] self.logs@[q]).id
        &&& forall|p: int, q: int|
            0 <= p < self.heads@.len() && 0 <= q < self.logs@.len() ==> (
            #[trigger] self.heads@[p]).id != (#[trigger] self.logs@[q]).id
        &&& forall|p: int| 0 <= p < self.heads@.len() ==> (#[trigger] self.heads@[p]).id < self.next_id
        &&& forall|p: int| 0 <= p < self.logs@.len() ==> (#[trigger] self.logs@[p]).id < self.next_id
    }

    /// Whether some partition holds the id.
    pub open spec fn spec_has_id(self, id: u64) -> bool {
        spec_heads_index_from(self.heads@, id, 0) is Some || spec_logs_index_from(
            self.logs@,
            id,
            0,
        ) is Some
    }

    /// An empty registry.
    pub fn new() -> (r: Self)
        ensures
            r.wf(),
            r.next_id == 0,
            r.heads@ == Seq::<HeadsEntry>::empty(),
            r.logs@ == Seq::<LogsEntry>::empty(),
    {
        SubscriptionRegistry { next_id: 0, heads: Vec::new(), logs: Vec::new() }
    }

    /// Register a new-heads subscriber and issue its id.
    pub fn register_head(&mut self, sink: u64) -> (id: u64)
        requires
            old(self).wf(),
            old(self).next_id < u64::MAX,
        ensures
            final(self).wf(),
            id == old(self).next_id,
            final(self).next_id == old(self).next_id + 1,
            final(self).heads@ == old(self).heads@.push(HeadsEntry { id, sink }),
            final(self).logs@ == old(self).logs@,
    {
        let id = self.next_id;
        self.next_id = self.next_id + 1;
        self.heads.push(HeadsEntry { id, sink });
        id
    }

    /// Register a log subscriber with its filter and issue its id.
    pub fn register_logs(&mut self, sink: u64, filter: LogFilter) -> (id: u64)
        requires
            old(self).wf(),
            old(self).next_id < u64::MAX,
        ensures
            final(self).wf(),
            id == old(self).next_id,
            final(self).next_id == old(self).next_id + 1,
            final(self).logs@ == old(self).logs@.push(LogsEntry { id, sink, filter }),
            final(self).heads@ == old(self).heads@,
    {
        let id = self.next_id;
        self.next_id = self.next_id + 1;
        self.logs.push(LogsEntry { id, sink, filter });
        id
    }

    /// Remove the id from both partitions (it is only ever present in
    /// one) and report whether any removal occurred. An unknown id is
    /// not an error: nothing changes and the report is `false`.
    pub fn remove_id(&mut self, id: u64) -> (r: bool)
        requires
            old(self).wf(),
        ensures
            final(self).wf(),
            final(self).next_id == old(self).next_id,
            r == old(self).spec_has_id(id),
            match spec_heads_index_from(old(self).heads@, id, 0) {
                Some(i) => final(self).heads@ == old(self).heads@.remove(i),
                None => final(self).heads@ == old(self).heads@,
            },
            match spec_logs_index_from(old(self).logs@, id, 0) {
                Some(i) => final(self).logs@ == old(self).logs@.remove(i),
                None => final(self).logs@ == old(self).logs@,
            },
    {
        let removed_heads = match heads_find(&self.heads, id) {
            Some(i) => {
                let _ = self.heads.remove(i);
                true
            },
            None => false,
        };
        let removed_logs = match logs_find(&self.logs, id) {
            Some(j) => {
                let _ = self.logs.remove(j);
                true
            },
            None => false,
        };
        proof {
            lemma_remove_keeps_wf(*old(self), *self, id);
        }
        removed_heads || removed_logs
    }
}

/// Removing one entry by id from each partition preserves the
/// registry's well-formedness.
proof fn lemma_remove_keeps_wf(r0: SubscriptionRegistry, r1: SubscriptionRegistry, id: u64)
    requires
        r0.wf(),
        r1.next_id == r0.next_id,
        match spec_heads_index_from(r0.heads@, id, 0) {
            Some(i) => r1.heads@ == r0.heads@.remove(i),
            None => r1.heads@ == r0.heads@,
        },
        match spec_logs_index_from(r0.logs@, id, 0) {
            Some(i) => r1.logs@ == r0.logs@.remove(i),
            None => r1.logs@ == r0.logs@,
        },
    ensures
        r1.wf(),
{
    match spec_heads_index_from(r0.heads@, id, 0) {
        Some(i) => {
            lemma_heads_index_in_bounds(r0.heads@, id, 0);
            assert forall|p: int| 0 <= p < r1.heads@.len() implies #[trigger] r1.heads@[p] == (
            if p < i {
                r0.heads@[p]
            } else {
                r0.heads@[p + 1]
            }) by {
                assert(r1.heads@[p] == r0.heads@.remove(i)[p]);
            }
        },
        None => {},
    }
    match spec_logs_index_from(r0.logs@, id, 0) {
        Some(j) => {
            lemma_logs_index_in_bounds(r0.logs@, id, 0);
            assert forall|p: int| 0 <= p < r1.logs@.len() implies #[trigger] r1.logs@[p] == (
            if p < j {
                r0.logs@[p]
            } else {
                r0.logs@[p + 1]
            }) by {
                assert(r1.logs@[p] == r0.logs@.remove(j)[p]);
            }
        },
        None => {},
    }
}

/// A found heads index is in bounds.
proof fn lemma_heads_index_in_bounds(s: Seq<HeadsEntry>, id: u64, i: int)
    requires
        i >= 0,
    ensures
        match spec_heads_index_from(s, id, i) {
            Some(k) => i <= k < s.len() && s[k].id == id,
            None => true,
        },
    decreases s.len() - i,
{
    if i < s.len() && s[i].id != id {
        lemma_heads_index_in_bounds(s, id, i + 1);
    }
}

/// A found logs index is in bounds.
proof fn lemma_logs_index_in_bounds(s: Seq<LogsEntry>, id: u64, i: int)
    requires
        i >= 0,
    ensures
        match spec_logs_index_from(s, id, i) {
            Some(k) => i <= k < s.len() && s[k].id == id,
            None => true,
        },
    decreases s.len() - i,
{
    if i < s.len() && s[i].id != id {
        lemma_logs_index_in_bounds(s, id, i + 1);
    }
}


/// First index of a heads entry with the given id.
fn heads_find(v: &Vec<HeadsEntry>, id: u64) -> (r: Option<usize>)
    ensures
        match r {
            Some(i) => i < v@.len() && spec_heads_index_from(v@, id, 0) == Some(i as int),
            None => spec_heads_index_from(v@, id, 0) is None,
        },
{
    let mut i: usize = 0;
    while i < v.len()
        invariant
            i <= v@.len(),
            spec_heads_index_from(v@, id, 0) == spec_heads_index_from(v@, id, i as int),
        decreases v@.len() - i,
    {
        if v[i].id == id {
            proof {
                assert(spec_heads_index_from(v@, id, i as int) == Some(i as int));
            }
            return Some(i);
        }
        i = i + 1;
    }
    None
}

/// First index of a logs entry with the given id.
fn logs_find(v: &Vec<LogsEntry>, id: u64) -> (r: Option<usize>)
    ensures
        match r {
            Some(i) => i < v@.len() && spec_logs_index_from(v@, id, 0) == Some(i as int),
            None => spec_logs_index_from(v@, id, 0) is None,
        },
{
    let mut i: usize = 0;
    while i < v.len()
        invariant
            i <= v@.len(),
            spec_logs_index_from(v@, id, 0) == spec_logs_index_from(v@, id, i as int),
        decreases v@.len() - i,
    {
        if v[i].id == id {
            proof {
                assert(spec_logs_index_from(v@, id, i as int) == Some(i as int));
            }
            return Some(i);
        }
        i = i + 1;
    }
    None
}


/// The kind of a subscription request.
#[derive(Clone, Copy, Debug, PartialEq, Eq, Structural)]
pub enum SubscriptionKind {
    NewHeads,
    Logs,
    NewPendingTransactions,
    Syncing,
}

/// Parameters of a subscription request: explicitly empty, or a log
/// filter object.
#[derive(Clone, Debug)]
pub enum Params {
    Empty,
    Logs(LogFilter),
}

/// How a subscription request was answered: registered under a fresh
/// id, acknowledged without registering (pending transactions never
/// produce events here), or rejected.
#[derive(Debug)]
pub enum SubscribeOutcome {
    Subscribed(u64),
    Accepted,
    Rejected(Error),
}

/// One header event addressed to one subscriber sink.
#[derive(Clone, Copy, Debug, PartialEq, Eq, Structural)]
pub struct HeadDelivery {
    pub sink: u64,
    pub header: RichHeader,
}

/// One log event addressed to one subscriber sink.
#[derive(Debug)]
pub struct LogDelivery {
    pub sink: u64,
    pub log: Log,
}

/// The wire message for one header: the compatibility fields this
/// backend does not produce (mix-hash, proof-of-work nonce) are filled
/// with zeroes.
pub open spec fn spec_head_message(h: HeaderRecord) -> RichHeader {
    RichHeader { header: h, mix_hash: H256::spec_zero(), nonce: 0 }
}

/// The first `hn` header events for one sink, in block order.
pub open spec fn spec_sub_head_deliveries(sink: u64, headers: Seq<HeaderRecord>, hn: int) -> Seq<
    HeadDelivery,
>
    decreases hn,
{
    if hn <= 0 {
        Seq::empty()
    } else {
        spec_sub_head_deliveries(sink, headers, hn - 1).push(
            HeadDelivery { sink, header: spec_head_message(headers[hn - 1]) },
        )
    }
}

/// All header events for the first `sn` head subscribers: per
/// subscriber, the headers in block order.
pub open spec fn spec_head_deliveries(
    subs: Seq<HeadsEntry>,
    headers: Seq<HeaderRecord>,
    sn: int,
) -> Seq<HeadDelivery>
    decreases sn,
{
    if sn <= 0 {
        Seq::empty()
    } else {
        spec_head_deliveries(subs, headers, sn - 1) + spec_sub_head_deliveries(
            subs[sn - 1].sink,
            headers,
            headers.len() as int,
        )
    }
}

/// The concrete block range a stored filter is executed over for a
/// notification spanning `[nfrom, nto]`: a `Latest` bound is replaced
/// by the notified boundary, the bounds are resolved, and the range is
/// intersected with the notified range so it never exceeds it. An
/// unresolvable bound yields no range.
pub open spec fn spec_effective_range(c: Chain, f: LogFilter, nfrom: u64, nto: u64) -> Option<
    (int, int),
> {
    let ka = c.spec_key_number(
        spec_resolve(spec_clamp_bound(f.from_block, BlockReference::Number(nfrom))),
    );
    let kb = c.spec_key_number(
        spec_resolve(spec_clamp_bound(f.to_block, BlockReference::Number(nto))),
    );
    match (ka, kb) {
        (Some(a), Some(b)) => Some(
            (
                if a < nfrom as int {
                    nfrom as int
                } else {
                    a
                },
                if b > nto as int {
                    nto as int
                } else {
                    b
                },
            ),
        ),
        _ => None,
    }
}

/// The positions of the log entries one subscriber receives for a
/// notification spanning `[nfrom, nto]`.
pub open spec fn spec_sub_positions(c: Chain, f: LogFilter, nfrom: u64, nto: u64) -> Seq<
    (int, int),
> {
    match spec_effective_range(c, f, nfrom, nto) {
        Some(r) => spec_matches_in_range(c, f, r.0, r.1 + 1),
        None => Seq::empty(),
    }
}

/// The first `n` positions tagged with a sink.
pub open spec fn spec_tag_positions(sink: u64, ps: Seq<(int, int)>, n: int) -> Seq<
    (u64, (int, int)),
>
    decreases n,
{
    if n <= 0 {
        Seq::empty()
    } else {
        spec_tag_positions(sink, ps, n - 1).push((sink, ps[n - 1]))
    }
}

/// The expected log deliveries for the first `sn` log subscribers.
pub open spec fn spec_expected_deliveries(
    c: Chain,
    subs: Seq<LogsEntry>,
    nfrom: u64,
    nto: u64,
    sn: int,
) -> Seq<(u64, (int, int))>
    decreases sn,
{
    if sn <= 0 {
        Seq::empty()
    } else {
        spec_expected_deliveries(c, subs, nfrom, nto, sn - 1) + spec_tag_positions(
            subs[sn - 1].sink,
            spec_sub_positions(c, subs[sn - 1].filter, nfrom, nto),
            spec_sub_positions(c, subs[sn - 1].filter, nfrom, nto).len() as int,
        )
    }
}

/// Whether the deliveries `ds` are exactly the expected ones `es`: same
/// sinks in the same order, each log the entry at the expected position.
pub open spec fn spec_deliveries_of(c: Chain, ds: Seq<LogDelivery>, es: Seq<(u64, (int, int))>) -> bool {
    ds.len() == es.len() && (forall|p: int|
        0 <= p < es.len() ==> (#[trigger] ds[p]).sink == es[p].0 && spec_wire_of(
            c,
            ds[p].log,
            es[p].1.0,
            es[p].1.1,
        ))
}

/// An owned copy of a wire log.
fn clone_log(w: &Log) -> (r: Log)
    ensures
        r.address == w.address,
        r.topics@ == w.topics@,
        r.data@ == w.data@,
        r.block_hash == w.block_hash,
        r.block_number == w.block_number,
{
    Log {
        address: w.address,
        topics: copy_hashes(&w.topics),
        data: copy_bytes(&w.data),
        block_hash: w.block_hash,
        block_number: w.block_number,
    }
}

/// The notification handler: it holds the subscriber registry and turns
/// backend block-append events into per-subscriber delivery values. It
/// does not own the chain; the notifying caller passes the chain it
/// observed.
#[derive(Clone, Debug)]
pub struct ChainNotificationHandler {
    pub registry: SubscriptionRegistry,
}

/// One backend block-append event: the appended headers in block order
/// and the concrete block range they span.
#[derive(Clone, Debug)]
pub struct ChainNotification {
    pub new_headers: Vec<HeaderRecord>,
    pub from_block: u64,
    pub to_block: u64,
}

impl ChainNotificationHandler {
    /// Whether any head subscriber is registered.
    pub fn has_heads_subscribers(&self) -> (r: bool)
        ensures
            r == (self.registry.heads@.len() > 0),
    {
        self.registry.heads.len() > 0
    }

    /// Fan a batch of new headers out to the head subscribers: for each
    /// subscriber, one event per header in block order, with the
    /// compatibility fields zero-filled. Pushing the returned
    /// deliveries is the transport's business; a failed push must not
    /// affect the other deliveries.
    pub fn notify_heads(&self, headers: &Vec<HeaderRecord>) -> (r: Vec<HeadDelivery>)
        ensures
            r@ == spec_head_deliveries(
                self.registry.heads@,
                headers@,
                self.registry.heads@.len() as int,
            ),
    {
        let mut out: Vec<HeadDelivery> = Vec::new();
        let mut si: usize = 0;
        while si < self.registry.heads.len()
            invariant
                si <= self.registry.heads@.len(),
                out@ == spec_head_deliveries(self.registry.heads@, headers@, si as int),
            decreases self.registry.heads@.len() - si,
        {
            let sink = self.registry.heads[si].sink;
            let mut hi: usize = 0;
            while hi < headers.len()
                invariant
                    si < self.registry.heads@.len(),
                    sink == self.registry.heads@[si as int].sink,
                    hi <= headers@.len(),
                    out@ == spec_head_deliveries(self.registry.heads@, headers@, si as int)
                        + spec_sub_head_deliveries(sink, headers@, hi as int),
                decreases headers@.len() - hi,
            {
                out.push(
                    HeadDelivery {
                        sink,
                        header: RichHeader {
                            header: headers[hi],
                            mix_hash: H256::zero(),
                            nonce: 0,
                        },
                    },
                );
                proof {
                    assert(out@ =~= spec_head_deliveries(
                        self.registry.heads@,
                        headers@,
                        si as int,
                    ) + spec_sub_head_deliveries(sink, headers@, hi + 1));
                }
                hi = hi + 1;
            }
            proof {
                assert(spec_head_deliveries(self.registry.heads@, headers@, si + 1)
                    == spec_head_deliveries(self.registry.heads@, headers@, si as int)
                    + spec_sub_head_deliveries(sink, headers@, headers@.len() as int));
            }
            si = si + 1;
        }
        out
    }

    /// Fan a notified block range out to the log subscribers: for each
    /// subscriber, substitute `Latest` bounds with the notified
    /// boundaries, intersect with the notified range, execute the now
    /// fully concrete filter, and emit one delivery per matching log in
    /// order. Subscribers whose filters match nothing get no deliveries.
    pub fn notify_logs(&self, chain: &Chain, from_block: u64, to_block: u64) -> (r: Vec<
        LogDelivery,
    >)
        requires
            chain.wf(),
            from_block <= to_block,
            to_block < chain.blocks@.len(),
        ensures
            spec_deliveries_of(
                *chain,
                r@,
                spec_expected_deliveries(
                    *chain,
                    self.registry.logs@,
                    from_block,
                    to_block,
                    self.registry.logs@.len() as int,
                ),
            ),
    {
        let mut out: Vec<LogDelivery> = Vec::new();
        let mut si: usize = 0;
        while si < self.registry.logs.len()
            invariant
                chain.wf(),
                from_block <= to_block,
                to_block < chain.blocks@.len(),
                si <= self.registry.logs@.len(),
                spec_deliveries_of(
                    *chain,
                    out@,
                    spec_expected_deliveries(
                        *chain,
                        self.registry.logs@,
                        from_block,
                        to_block,
                        si as int,
                    ),
                ),
            decreases self.registry.logs@.len() - si,
        {
            let ghost base = spec_expected_deliveries(
                *chain,
                self.registry.logs@,
                from_block,
                to_block,
                si as int,
            );
            let entry = &self.registry.logs[si];
            let sink = entry.sink;
            let ka = chain.lookup_key(
                resolve_for_notification_clamp(
                    entry.filter.from_block,
                    BlockReference::Number(from_block),
                ),
            );
            let kb = chain.lookup_key(
                resolve_for_notification_clamp(
                    entry.filter.to_block,
                    BlockReference::Number(to_block),
                ),
            );
            match (ka, kb) {
                (Some(a), Some(b)) => {
                    proof {
                        assert(chain.blocks.len() == chain.blocks@.len());
                        assert(chain.blocks@.len() <= usize::MAX);
                    }
                    let nfrom_us = from_block as usize;
                    let nto_us = to_block as usize;
                    let eff_a: usize = if a < nfrom_us {
                        nfrom_us
                    } else {
                        a
                    };
                    let eff_b: usize = if b > nto_us {
                        nto_us
                    } else {
                        b
                    };
                    proof {
                        assert(spec_effective_range(
                            *chain,
                            entry.filter,
                            from_block,
                            to_block,
                        ) == Some((eff_a as int, eff_b as int)));
                    }
                    let collected = query_logs(chain, &entry.filter, eff_a as u64, eff_b as u64);
                    let ghost ps = spec_sub_positions(
                        *chain,
                        entry.filter,
                        from_block,
                        to_block,
                    );
                    let mut q: usize = 0;
                    while q < collected.len()
                        invariant
                            q <= collected@.len(),
                            collected@.len() == ps.len(),
                            forall|p: int|
                                0 <= p < ps.len() ==> spec_wire_of(
                                    *chain,
                                    #[trigger] collected@[p],
                                    ps[p].0,
                                    ps[p].1,
                                ),
                            spec_deliveries_of(
                                *chain,
                                out@,
                                base + spec_tag_positions(sink, ps, q as int),
                            ),
                        decreases collected@.len() - q,
                    {
                        let d = LogDelivery { sink, log: clone_log(&collected[q]) };
                        out.push(d);
                        proof {
                            let es = base + spec_tag_positions(sink, ps, q + 1);
                            assert(spec_tag_positions(sink, ps, q + 1) == spec_tag_positions(
                                sink,
                                ps,
                                q as int,
                            ).push((sink, ps[q as int])));
                            assert(es =~= (base + spec_tag_positions(sink, ps, q as int)).push(
                                (sink, ps[q as int]),
                            ));
                            assert forall|p: int| 0 <= p < es.len() implies (
                            #[trigger] out@[p]).sink == es[p].0 && spec_wire_of(
                                *chain,
                                out@[p].log,
                                es[p].1.0,
                                es[p].1.1,
                            ) by {
                                if p < es.len() - 1 {
                                    assert(out@[p] == out@.subrange(0, out@.len() - 1)[p]);
                                }
                            }
                        }
                        q = q + 1;
                    }
                    proof {
                        assert(spec_expected_deliveries(
                            *chain,
                            self.registry.logs@,
                            from_block,
                            to_block,
                            si + 1,
                        ) == base + spec_tag_positions(sink, ps, ps.len() as int));
                    }
                },
                _ => {
                    proof {
                        assert(spec_sub_positions(*chain, entry.filter, from_block, to_block)
                            =~= Seq::<(int, int)>::empty());
                        assert(spec_expected_deliveries(
                            *chain,
                            self.registry.logs@,
                            from_block,
                            to_block,
                            si + 1,
                        ) =~= base);
                    }
                },
            }
            si = si + 1;
        }
        out
    }

    /// Handle one block-append notification: header events for the head
    /// subscribers and log events for the log subscribers.
    pub fn dispatch(&self, chain: &Chain, n: &ChainNotification) -> (r: (
        Vec<HeadDelivery>,
        Vec<LogDelivery>,
    ))
        requires
            chain.wf(),
            n.from_block <= n.to_block,
            n.to_block < chain.blocks@.len(),
        ensures
            r.0@ == spec_head_deliveries(
                self.registry.heads@,
                n.new_headers@,
                self.registry.heads@.len() as int,
            ),
            spec_deliveries_of(
                *chain,
                r.1@,
                spec_expected_deliveries(
                    *chain,
                    self.registry.logs@,
                    n.from_block,
                    n.to_block,
                    self.registry.logs@.len() as int,
                ),
            ),
    {
        let heads = self.notify_heads(&n.new_headers);
        let logs = self.notify_logs(chain, n.from_block, n.to_block);
        (heads, logs)
    }
}

/// The Eth publish/subscribe facade: it owns the notification handler
/// (and through it the registry) and implements the subscription
/// protocol.
#[derive(Clone, Debug)]
pub struct EthPubSubClient {
    pub handler: ChainNotificationHandler,
}

impl EthPubSubClient {
    /// The registry invariant, lifted.
    pub open spec fn wf(self) -> bool {
        self.handler.registry.wf()
    }

    /// Creates a new facade with no subscribers.
    pub fn new() -> (r: Self)
        ensures
            r.wf(),
            r.handler.registry.next_id == 0,
            r.handler.registry.heads@ == Seq::<HeadsEntry>::empty(),
            r.handler.registry.logs@ == Seq::<LogsEntry>::empty(),
    {
        EthPubSubClient { handler: ChainNotificationHandler { registry: SubscriptionRegistry::new() } }
    }

    /// The chain notification handler, for the backend to invoke on
    /// block appends.
    pub fn handler(&self) -> (r: &ChainNotificationHandler)
        ensures
            *r == self.handler,
    {
        &self.handler
    }

    /// Handle a subscription request. `NewHeads` and `Logs` register a
    /// subscriber and issue a fresh id; `NewHeads` takes no parameters
    /// and `Logs` requires a filter object, anything else is
    /// `InvalidParams`. `NewPendingTransactions` with no parameters is
    /// acknowledged but registers nothing (there is no transaction
    /// pool). Any other combination is `Unimplemented`. A rejected
    /// request never registers a subscriber.
    pub fn subscribe(
        &mut self,
        _meta: crate::eth::Metadata,
        sink: u64,
        kind: SubscriptionKind,
        params: Option<Params>,
    ) -> (r: SubscribeOutcome)
        requires
            old(self).wf(),
            old(self).handler.registry.next_id < u64::MAX,
        ensures
            final(self).wf(),
            ({
                let reg0 = old(self).handler.registry;
                let reg1 = final(self).handler.registry;
                match (kind, params) {
                    (SubscriptionKind::NewHeads, None) => {
                        &&& r matches SubscribeOutcome::Subscribed(id) && id == reg0.next_id
                        &&& reg1.heads@ == reg0.heads@.push(
                            HeadsEntry { id: reg0.next_id, sink },
                        )
                        &&& reg1.logs@ == reg0.logs@
                        &&& reg1.next_id == reg0.next_id + 1
                    },
                    (SubscriptionKind::NewHeads, Some(_)) => {
                        &&& *final(self) == *old(self)
                        &&& r matches SubscribeOutcome::Rejected(e) && e matches
                            Error::InvalidParams(p, d) && p@ == "newHeads"@ && d@
                            == "Expected no parameters."@
                    },
                    (SubscriptionKind::Logs, Some(Params::Logs(f))) => {
                        &&& r matches SubscribeOutcome::Subscribed(id) && id == reg0.next_id
                        &&& reg1.logs@ == reg0.logs@.push(
                            LogsEntry { id: reg0.next_id, sink, filter: f },
                        )
                        &&& reg1.heads@ == reg0.heads@
                        &&& reg1.next_id == reg0.next_id + 1
                    },
                    (SubscriptionKind::Logs, _) => {
                        &&& *final(self) == *old(self)
                        &&& r matches SubscribeOutcome::Rejected(e) && e matches
                            Error::InvalidParams(p, d) && p@ == "logs"@ && d@
                            == "Expected a filter object."@
                    },
                    (SubscriptionKind::NewPendingTransactions, None) => {
                        &&& *final(self) == *old(self)
                        &&& r is Accepted
                    },
                    (SubscriptionKind::NewPendingTransactions, Some(_)) => {
                        &&& *final(self) == *old(self)
                        &&& r matches SubscribeOutcome::Rejected(e) && e matches
                            Error::InvalidParams(p, d) && p@ == "newPendingTransactions"@ && d@
                            == "Expected no parameters."@
                    },
                    (SubscriptionKind::Syncing, _) => {
                        &&& *final(self) == *old(self)
                        &&& r matches SubscribeOutcome::Rejected(e) && e is Unimplemented
                    },
                }
            }),
    {
        match (kind, params) {
            (SubscriptionKind::NewHeads, None) => {
                let id = self.handler.registry.register_head(sink);
                SubscribeOutcome::Subscribed(id)
            },
            (SubscriptionKind::NewHeads, Some(_)) => SubscribeOutcome::Rejected(
                Error::InvalidParams("newHeads".to_owned(), "Expected no parameters.".to_owned()),
            ),
            (SubscriptionKind::Logs, Some(Params::Logs(f))) => {
                let id = self.handler.registry.register_logs(sink, f);
                SubscribeOutcome::Subscribed(id)
            },
            (SubscriptionKind::Logs, _) => SubscribeOutcome::Rejected(
                Error::InvalidParams("logs".to_owned(), "Expected a filter object.".to_owned()),
            ),
            (SubscriptionKind::NewPendingTransactions, None) => SubscribeOutcome::Accepted,
            (SubscriptionKind::NewPendingTransactions, Some(_)) => SubscribeOutcome::Rejected(
                Error::InvalidParams(
                    "newPendingTransactions".to_owned(),
                    "Expected no parameters.".to_owned(),
                ),
            ),
            (SubscriptionKind::Syncing, _) => SubscribeOutcome::Rejected(Error::Unimplemented),
        }
    }

    /// Cancel a subscription: remove the id from both partitions and
    /// report whether it was present. Never fails; an id that was never
    /// issued reports `false`.
    pub fn unsubscribe(&mut self, id: u64) -> (r: Result<bool, Error>)
        requires
            old(self).wf(),
        ensures
            final(self).wf(),
            final(self).handler.registry.next_id == old(self).handler.registry.next_id,
            r matches Ok(b) && b == old(self).handler.registry.spec_has_id(id),
            match spec_heads_index_from(old(self).handler.registry.heads@, id, 0) {
                Some(i) => final(self).handler.registry.heads@ == old(
                    self,
                ).handler.registry.heads@.remove(i),
                None => final(self).handler.registry.heads@ == old(self).handler.registry.heads@,
            },
            match spec_logs_index_from(old(self).handler.registry.logs@, id, 0) {
                Some(i) => final(self).handler.registry.logs@ == old(
                    self,
                ).handler.registry.logs@.remove(i),
                None => final(self).handler.registry.logs@ == old(self).handler.registry.logs@,
            },
    {
        let removed = self.handler.registry.remove_id(id);
        Ok(removed)
    }
}

/// An id at or above the registry's counter was never issued, and is
/// present in no partition: cancelling it reports "not found".
pub proof fn lemma_unissued_id_not_present(reg: SubscriptionRegistry, id: u64)
    requires
        reg.wf(),
        id >= reg.next_id,
    ensures
        !reg.spec_has_id(id),
{
    lemma_heads_index_in_bounds(reg.heads@, id, 0);
    lemma_logs_index_in_bounds(reg.logs@, id, 0);
}

/// Clamping never widens: every effective range lies inside the
/// notified range, and its lower bound is never below what the stored
/// filter's resolved bound asks for.
pub proof fn lemma_clamp_never_widens(c: Chain, f: LogFilter, nfrom: u64, nto: u64)
    ensures
        match spec_effective_range(c, f, nfrom, nto) {
            Some(r) => nfrom <= r.0 && r.1 <= nto && (match c.spec_key_number(
                spec_resolve(spec_clamp_bound(f.from_block, BlockReference::Number(nfrom))),
            ) {
                Some(a) => r.0 >= a,
                None => false,
            }),
            None => true,
        },
{
}

/// Every log position a subscriber receives for a notification
/// spanning `[nfrom, nto]` lies inside that notified range, whatever
/// the stored filter's bounds — in particular a filter left open below
/// with `from_block = Latest` receives nothing before `nfrom`.
pub proof fn lemma_deliveries_within_notified(c: Chain, f: LogFilter, nfrom: u64, nto: u64)
    ensures
        forall|p: int|
            0 <= p < spec_sub_positions(c, f, nfrom, nto).len() ==> nfrom <= (
            #[trigger] spec_sub_positions(c, f, nfrom, nto)[p]).0 <= nto,
{
    match spec_effective_range(c, f, nfrom, nto) {
        Some(r) => {
            lemma_clamp_never_widens(c, f, nfrom, nto);
            crate::filter::lemma_matches_in_range_bounds(c, f, r.0, r.1 + 1);
        },
        None => {},
    }
}


/// The first `n` tagged positions are the positions themselves, each
/// paired with the sink.
proof fn lemma_tag_positions_index(sink: u64, ps: Seq<(int, int)>, n: int)
    ensures
        spec_tag_positions(sink, ps, n).len() == (if n <= 0 { 0int } else { n }),
        forall|q: int|
            0 <= q < n ==> #[trigger] spec_tag_positions(sink, ps, n)[q] == (sink, ps[q]),
    decreases n,
{
    if n > 0 {
        lemma_tag_positions_index(sink, ps, n - 1);
        let prev = spec_tag_positions(sink, ps, n - 1);
        let cur = spec_tag_positions(sink, ps, n);
        assert(cur == prev.push((sink, ps[n - 1])));
        assert forall|q: int| 0 <= q < n implies #[trigger] cur[q] == (sink, ps[q]) by {
            if q < n - 1 {
                assert(cur[q] == prev[q]);
            }
        }
    }
}

/// Whatever the stored filters say, every log delivery produced for a
/// notification spanning `[nfrom, nto]` names a block inside that
/// range: dispatch never reaches outside the notified range.
pub proof fn lemma_expected_deliveries_within_notified(
    c: Chain,
    subs: Seq<LogsEntry>,
    nfrom: u64,
    nto: u64,
    sn: int,
)
    ensures
        forall|p: int|
            0 <= p < spec_expected_deliveries(c, subs, nfrom, nto, sn).len() ==> nfrom <= (
            #[trigger] spec_expected_deliveries(c, subs, nfrom, nto, sn)[p]).1.0 <= nto,
    decreases sn,
{
    if sn > 0 {
        lemma_expected_deliveries_within_notified(c, subs, nfrom, nto, sn - 1);
        let f = subs[sn - 1].filter;
        let sink = subs[sn - 1].sink;
        let ps = spec_sub_positions(c, f, nfrom, nto);
        lemma_deliveries_within_notified(c, f, nfrom, nto);
        lemma_tag_positions_index(sink, ps, ps.len() as int);
        let prev = spec_expected_deliveries(c, subs, nfrom, nto, sn - 1);
        let tag = spec_tag_positions(sink, ps, ps.len() as int);
        let cur = spec_expected_deliveries(c, subs, nfrom, nto, sn);
        assert(cur == prev + tag);
        assert forall|p: int| 0 <= p < cur.len() implies nfrom <= (#[trigger] cur[p]).1.0
            <= nto by {
            if p < prev.len() {
                assert(cur[p] == prev[p]);
            } else {
                assert(cur[p] == tag[p - prev.len()]);
                assert(tag[p - prev.len()] == (sink, ps[p - prev.len()]));
            }
        }
    }
}

} // verus!
