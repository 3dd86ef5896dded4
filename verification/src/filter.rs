//! Log filters: address and topic matching, range resolution, the log
//! query over the model chain, and the result-count limit. A filter's
//! `Latest` bounds are placeholders, replaced with the concrete notified
//! range only at dispatch time (never resolved once and cached).

use vstd::prelude::*;
use crate::types::{H160, H256};
use crate::block_ref::BlockReference;
use crate::chain::{Chain, LogRecord, copy_bytes, copy_hashes};
use crate::wire::Log;

verus! {

/// A match pattern for one topic position: anything, or one of a listed
/// set of alternatives.
#[derive(Clone, Debug)]
pub enum TopicPattern {
    MatchAny,
    OneOf(Vec<H256>),
}

/// A log filter as a subscriber registers it or a one-shot query carries
/// it. An empty address list matches every address; `limit` keeps only
/// the newest results.
#[derive(Clone, Debug)]
pub struct LogFilter {
    pub from_block: BlockReference,
    pub to_block: BlockReference,
    pub addresses: Vec<H160>,
    pub topics: Vec<TopicPattern>,
    pub limit: Option<usize>,
}

/// Whether `t` occurs in the alternative list `ts`.
pub open spec fn spec_topic_in(ts: Seq<H256>, t: H256) -> bool {
    exists|k: int| 0 <= k < ts.len() && ts[k] == t
}

/// Whether the pattern at position `i` accepts the log's topics.
pub open spec fn spec_pattern_matches(p: TopicPattern, topics: Seq<H256>, i: int) -> bool {
    match p {
        TopicPattern::MatchAny => true,
        TopicPattern::OneOf(ts) => i < topics.len() && spec_topic_in(ts@, topics[i]),
    }
}

/// Whether the filter's address list accepts `a` (an empty list accepts
/// everything).
pub open spec fn spec_address_matches(addrs: Seq<H160>, a: H160) -> bool {
    addrs.len() == 0 || exists|k: int| 0 <= k < addrs.len() && addrs[k] == a
}

/// Whether a log entry matches the filter's addresses and topics.
pub open spec fn spec_log_matches(f: LogFilter, log: LogRecord) -> bool {
    spec_address_matches(f.addresses@, log.address) && (forall|i: int|
        0 <= i < f.topics@.len() ==> spec_pattern_matches(f.topics@[i], log.topics@, i))
}

/// Whether a wire log `w` is the entry of block `b`, index `j`, localized
/// to that block.
pub open spec fn spec_wire_of(c: Chain, w: Log, b: int, j: int) -> bool {
    &&& 0 <= b < c.blocks@.len()
    &&& 0 <= j < c.blocks@[b].logs@.len()
    &&& w.address == c.blocks@[b].logs@[j].address
    &&& w.topics@ == c.blocks@[b].logs@[j].topics@
    &&& w.data@ == c.blocks@[b].logs@[j].data@
    &&& w.block_hash == c.blocks@[b].hash
    &&& w.block_number == b
}

/// The matching positions inside block `b` among its first `upto` log
/// entries, in order.
pub open spec fn spec_block_matches_upto(c: Chain, f: LogFilter, b: int, upto: int) -> Seq<(int, int)>
    decreases upto,
{
    if upto <= 0 {
        Seq::empty()
    } else {
        spec_block_matches_upto(c, f, b, upto - 1) + if 0 <= b < c.blocks@.len() && upto
            <= c.blocks@[b].logs@.len() && spec_log_matches(f, c.blocks@[b].logs@[upto - 1]) {
            seq![(b, upto - 1)]
        } else {
            Seq::empty()
        }
    }
}

/// All matching positions of block `b`.
pub open spec fn spec_block_matches(c: Chain, f: LogFilter, b: int) -> Seq<(int, int)> {
    spec_block_matches_upto(c, f, b, c.blocks@[b].logs@.len() as int)
}

/// The matching positions of the blocks in `[from, upto)`, in block
/// order and in entry order within each block.
pub open spec fn spec_matches_in_range(c: Chain, f: LogFilter, from: int, upto: int) -> Seq<(int, int)>
    decreases upto - from,
{
    if upto <= from {
        Seq::empty()
    } else {
        spec_matches_in_range(c, f, from, upto - 1) + spec_block_matches(c, f, upto - 1)
    }
}

/// Whether the wire logs `ws` are exactly the entries at `ps`, in order.
pub open spec fn spec_wires_of(c: Chain, ws: Seq<Log>, ps: Seq<(int, int)>) -> bool {
    ws.len() == ps.len() && (forall|p: int|
        0 <= p < ps.len() ==> spec_wire_of(c, ws[p], ps[p].0, ps[p].1))
}

/// Whether the filter's topic patterns accept the log's topics.
fn topics_match(patterns: &Vec<TopicPattern>, topics: &Vec<H256>) -> (r: bool)
    ensures
        r == (forall|i: int|
            0 <= i < patterns@.len() ==> spec_pattern_matches(patterns@[i], topics@, i)),
{
    let mut i: usize = 0;
    while i < patterns.len()
        invariant
            i <= patterns@.len(),
            forall|q: int| 0 <= q < i ==> spec_pattern_matches(patterns@[q], topics@, q),
        decreases patterns@.len() - i,
    {
        match &patterns[i] {
            TopicPattern::MatchAny => {},
            TopicPattern::OneOf(ts) => {
                if i >= topics.len() {
                    proof {
                        assert(!spec_pattern_matches(patterns@[i as int], topics@, i as int));
                    }
                    return false;
                }
                let t = topics[i];
                let mut k: usize = 0;
                let mut found = false;
                while k < ts.len()
                    invariant
                        k <= ts@.len(),
                        found == exists|q: int| 0 <= q < k && ts@[q] == t,
                    decreases ts@.len() - k,
                {
                    if ts[k] == t {
                        found = true;
                    }
                    k = k + 1;
                }
                if !found {
                    proof {
                        assert(!spec_topic_in(ts@, topics@[i as int]));
                    }
                    return false;
                }
            },
        }
        i = i + 1;
    }
    true
}

/// Whether the filter's address list accepts the address.
fn address_matches(addrs: &Vec<H160>, a: &H160) -> (r: bool)
    ensures
        r == spec_address_matches(addrs@, *a),
{
    if addrs.len() == 0 {
        return true;
    }
    let mut k: usize = 0;
    while k < addrs.len()
        invariant
            k <= addrs@.len(),
            forall|q: int| 0 <= q < k ==> addrs@[q] != *a,
        decreases addrs@.len() - k,
    {
        if addrs[k] == *a {
            return true;
        }
        k = k + 1;
    }
    false
}

/// Whether a log entry matches the filter.
pub fn log_matches(f: &LogFilter, log: &LogRecord) -> (r: bool)
    ensures
        r == spec_log_matches(*f, *log),
{
    address_matches(&f.addresses, &log.address) && topics_match(&f.topics, &log.topics)
}

/// Collect the logs of blocks `[from, to]` that match the filter, in
/// block order, each localized to its block. `from > to` yields nothing.
pub fn query_logs(c: &Chain, f: &LogFilter, from: u64, to: u64) -> (r: Vec<Log>)
    requires
        c.wf(),
        to < c.blocks@.len(),
    ensures
        spec_wires_of(*c, r@, spec_matches_in_range(*c, *f, from as int, to + 1)),
{
    let mut out: Vec<Log> = Vec::new();
    if from > to {
        return out;
    }
    let nblocks: usize = c.blocks.len();
    let mut b: usize = from as usize;
    proof {
        assert(c.blocks@.len() <= usize::MAX);
        assert(b as int == from as int);
        assert(spec_matches_in_range(*c, *f, from as int, from as int) =~= Seq::empty());
    }
    while b < nblocks && b as u64 <= to
        invariant
            c.wf(),
            from <= to,
            to < c.blocks@.len(),
            nblocks == c.blocks@.len(),
            from as int <= b as int <= to + 1,
            spec_wires_of(*c, out@, spec_matches_in_range(*c, *f, from as int, b as int)),
        decreases to + 1 - b,
    {
        let logs = &c.blocks[b].logs;
        let mut j: usize = 0;
        while j < logs.len()
            invariant
                c.wf(),
                b < c.blocks@.len(),
                j <= logs@.len(),
                logs@ == c.blocks@[b as int].logs@,
                from as int <= b as int,
                spec_wires_of(
                    *c,
                    out@,
                    spec_matches_in_range(*c, *f, from as int, b as int)
                        + spec_block_matches_upto(*c, *f, b as int, j as int),
                ),
            decreases logs@.len() - j,
        {
            let ghost ps = spec_matches_in_range(*c, *f, from as int, b as int)
                + spec_block_matches_upto(*c, *f, b as int, j as int);
            let ghost out_pre = out@;
            let matched = log_matches(f, &logs[j]);
            if matched {
                let w = Log {
                    address: logs[j].address,
                    topics: copy_hashes(&logs[j].topics),
                    data: copy_bytes(&logs[j].data),
                    block_hash: c.blocks[b].hash,
                    block_number: b as u64,
                };
                proof {
                    assert(spec_wire_of(*c, w, b as int, j as int));
                }
                out.push(w);
            }
            proof {
                let tail: Seq<(int, int)> = if spec_log_matches(
                    *f,
                    c.blocks@[b as int].logs@[j as int],
                ) {
                    seq![(b as int, j as int)]
                } else {
                    Seq::empty()
                };
                assert(spec_block_matches_upto(*c, *f, b as int, j + 1)
                    == spec_block_matches_upto(*c, *f, b as int, j as int) + tail);
                let ps2 = spec_matches_in_range(*c, *f, from as int, b as int)
                    + spec_block_matches_upto(*c, *f, b as int, j + 1);
                assert(ps2 =~= ps + tail);
                assert forall|p: int| 0 <= p < ps2.len() implies spec_wire_of(
                    *c,
                    out@[p],
                    ps2[p].0,
                    ps2[p].1,
                ) by {
                    if p < ps.len() {
                        assert(out@[p] == out_pre[p]);
                        assert(ps2[p] == ps[p]);
                    }
                }
            }
            j = j + 1;
        }
        proof {
            assert(spec_matches_in_range(*c, *f, from as int, b + 1) == spec_matches_in_range(
                *c,
                *f,
                from as int,
                b as int,
            ) + spec_block_matches(*c, *f, b as int));
        }
        b = b + 1;
    }
    out
}

/// How many results the limit keeps out of `n`.
pub open spec fn spec_kept(n: int, limit: Option<usize>) -> int {
    match limit {
        Some(l) => if n > l {
            l as int
        } else {
            n
        },
        None => n,
    }
}

/// Apply the filter's optional result-count limit: when more than
/// `limit` results were collected, only the newest `limit` (the tail of
/// the list) are kept.
pub fn limit_logs(logs: Vec<Log>, limit: Option<usize>) -> (r: Vec<Log>)
    ensures
        r@ == logs@.subrange(logs@.len() - spec_kept(logs@.len() as int, limit), logs@.len() as int),
{
    let ghost orig = logs@;
    let mut logs = logs;
    proof {
        assert(logs@ =~= orig.subrange(orig.len() - logs@.len(), orig.len() as int));
    }
    match limit {
        Some(l) => {
            while logs.len() > l
                invariant
                    logs@.len() <= orig.len(),
                    logs@ == orig.subrange(orig.len() - logs@.len(), orig.len() as int),
                    logs@.len() >= l || logs@.len() == orig.len(),
                decreases logs@.len(),
            {
                let ghost pre = logs@;
                let _ = logs.remove(0);
                proof {
                    let s: int = orig.len() - pre.len();
                    assert(logs@ =~= pre.subrange(1, pre.len() as int));
                    assert(logs@.len() == pre.len() - 1);
                    assert forall|q: int| 0 <= q < logs@.len() implies #[trigger] logs@[q]
                        == orig[s + 1 + q] by {
                        assert(logs@[q] == pre[q + 1]);
                        assert(pre[q + 1] == orig.subrange(s, orig.len() as int)[q + 1]);
                    }
                    assert(logs@ =~= orig.subrange(orig.len() - logs@.len(), orig.len() as int));
                }
            }
            proof {
                assert(logs@.len() == spec_kept(orig.len() as int, limit));
            }
            logs
        },
        None => {
            logs
        },
    }
}

/// Every matching position lies inside the queried range: the block of
/// each entry of `spec_matches_in_range(c, f, from, upto)` is in
/// `[from, upto)`.
pub proof fn lemma_matches_in_range_bounds(c: Chain, f: LogFilter, from: int, upto: int)
    ensures
        forall|p: int|
            0 <= p < spec_matches_in_range(c, f, from, upto).len() ==> from
                <= (#[trigger] spec_matches_in_range(c, f, from, upto)[p]).0 < upto,
    decreases upto - from,
{
    if upto > from {
        lemma_matches_in_range_bounds(c, f, from, upto - 1);
        lemma_block_matches_blocks(c, f, upto - 1, c.blocks@[upto - 1].logs@.len() as int);
        let prev = spec_matches_in_range(c, f, from, upto - 1);
        let blk = spec_block_matches(c, f, upto - 1);
        let cur = spec_matches_in_range(c, f, from, upto);
        assert(cur == prev + blk);
        assert forall|p: int| 0 <= p < cur.len() implies from <= (#[trigger] cur[p]).0 < upto by {
            if p < prev.len() {
                assert(cur[p] == prev[p]);
            } else {
                assert(cur[p] == blk[p - prev.len()]);
            }
        }
    }
}

/// Every entry of `spec_block_matches_upto(c, f, b, upto)` names block
/// `b` and an in-bounds log index.
pub proof fn lemma_block_matches_blocks(c: Chain, f: LogFilter, b: int, upto: int)
    ensures
        forall|p: int|
            0 <= p < spec_block_matches_upto(c, f, b, upto).len() ==> (
            #[trigger] spec_block_matches_upto(c, f, b, upto)[p]).0 == b,
    decreases upto,
{
    if upto > 0 {
        lemma_block_matches_blocks(c, f, b, upto - 1);
        let prev = spec_block_matches_upto(c, f, b, upto - 1);
        let cur = spec_block_matches_upto(c, f, b, upto);
        let tail: Seq<(int, int)> = if 0 <= b < c.blocks@.len() && upto <= c.blocks@[b].logs@.len()
            && spec_log_matches(f, c.blocks@[b].logs@[upto - 1]) {
            seq![(b, upto - 1)]
        } else {
            Seq::empty()
        };
        assert(cur == prev + tail);
        assert forall|p: int| 0 <= p < cur.len() implies (cur[p]).0 == b by {
            if p < prev.len() {
                assert(cur[p] == prev[p]);
            } else {
                assert(cur[p] == tail[p - prev.len()]);
            }
        }
    }
}

} // verus!
