//! Block headers and their packed word encoding. The backend hands
//! headers out in an encoded form; the facade decodes them defensively,
//! since nothing guarantees that stored bytes are well formed.

use vstd::prelude::*;
use crate::types::{H160, H256};
use crate::errors::Error;

verus! {

/// A decoded block header.
#[derive(Clone, Copy, Debug, PartialEq, Eq, Structural)]
pub struct HeaderRecord {
    pub number: u64,
    pub timestamp: u64,
    pub gas_limit: u64,
    pub gas_used: u64,
    pub difficulty: u64,
    pub parent_hash: H256,
    pub author: H160,
    pub state_root: H256,
    pub transactions_root: H256,
    pub receipts_root: H256,
}

/// Number of words in an encoded header.
pub const HEADER_WORDS: usize = 24;

/// The packed word form of a header: five numeric fields, then the
/// parent hash, author and the three roots, most significant word first.
pub open spec fn spec_encode_header(h: HeaderRecord) -> Seq<u64> {
    seq![
        h.number,
        h.timestamp,
        h.gas_limit,
        h.gas_used,
        h.difficulty,
        h.parent_hash.w0,
        h.parent_hash.w1,
        h.parent_hash.w2,
        h.parent_hash.w3,
        h.author.hi,
        h.author.mid,
        h.author.lo as u64,
        h.state_root.w0,
        h.state_root.w1,
        h.state_root.w2,
        h.state_root.w3,
        h.transactions_root.w0,
        h.transactions_root.w1,
        h.transactions_root.w2,
        h.transactions_root.w3,
        h.receipts_root.w0,
        h.receipts_root.w1,
        h.receipts_root.w2,
        h.receipts_root.w3,
    ]
}

/// A word sequence decodes to a header exactly when it has the packed
/// length and its author's low word fits in 32 bits.
pub open spec fn spec_decode_header(s: Seq<u64>) -> Option<HeaderRecord> {
    if s.len() == HEADER_WORDS && s[11] <= u32::MAX as u64 {
        Some(HeaderRecord {
            number: s[0],
            timestamp: s[1],
            gas_limit: s[2],
            gas_used: s[3],
            difficulty: s[4],
            parent_hash: H256 { w0: s[5], w1: s[6], w2: s[7], w3: s[8] },
            author: H160 { hi: s[9], mid: s[10], lo: s[11] as u32 },
            state_root: H256 { w0: s[12], w1: s[13], w2: s[14], w3: s[15] },
            transactions_root: H256 { w0: s[16], w1: s[17], w2: s[18], w3: s[19] },
            receipts_root: H256 { w0: s[20], w1: s[21], w2: s[22], w3: s[23] },
        })
    } else {
        None
    }
}

/// Encode a header into its packed word form.
pub fn encode_header(h: &HeaderRecord) -> (r: Vec<u64>)
    ensures
        r@ == spec_encode_header(*h),
{
    let mut r: Vec<u64> = Vec::new();
    r.push(h.number);
    r.push(h.timestamp);
    r.push(h.gas_limit);
    r.push(h.gas_used);
    r.push(h.difficulty);
    r.push(h.parent_hash.w0);
    r.push(h.parent_hash.w1);
    r.push(h.parent_hash.w2);
    r.push(h.parent_hash.w3);
    r.push(h.author.hi);
    r.push(h.author.mid);
    r.push(h.author.lo as u64);
    r.push(h.state_root.w0);
    r.push(h.state_root.w1);
    r.push(h.state_root.w2);
    r.push(h.state_root.w3);
    r.push(h.transactions_root.w0);
    r.push(h.transactions_root.w1);
    r.push(h.transactions_root.w2);
    r.push(h.transactions_root.w3);
    r.push(h.receipts_root.w0);
    r.push(h.receipts_root.w1);
    r.push(h.receipts_root.w2);
    r.push(h.receipts_root.w3);
    proof {
        assert(r@ =~= spec_encode_header(*h));
    }
    r
}

/// Decode a packed header; malformed words yield `Decode`.
pub fn decode_header(s: &Vec<u64>) -> (r: Result<HeaderRecord, Error>)
    ensures
        match r {
            Ok(h) => spec_decode_header(s@) == Some(h),
            Err(e) => spec_decode_header(s@) is None && e == Error::Decode,
        },
{
    if s.len() != HEADER_WORDS {
        return Err(Error::Decode);
    }
    let lo_word = s[11];
    if lo_word > u32::MAX as u64 {
        return Err(Error::Decode);
    }
    Ok(HeaderRecord {
        number: s[0],
        timestamp: s[1],
        gas_limit: s[2],
        gas_used: s[3],
        difficulty: s[4],
        parent_hash: H256 { w0: s[5], w1: s[6], w2: s[7], w3: s[8] },
        author: H160 { hi: s[9], mid: s[10], lo: lo_word as u32 },
        state_root: H256 { w0: s[12], w1: s[13], w2: s[14], w3: s[15] },
        transactions_root: H256 { w0: s[16], w1: s[17], w2: s[18], w3: s[19] },
        receipts_root: H256 { w0: s[20], w1: s[21], w2: s[22], w3: s[23] },
    })
}

/// Decoding inverts encoding: every header comes back unchanged from its
/// packed form.
pub proof fn lemma_header_round_trip(h: HeaderRecord)
    ensures
        spec_decode_header(spec_encode_header(h)) == Some(h),
{
    let s = spec_encode_header(h);
    assert(s.len() == HEADER_WORDS);
    assert(s[11] == h.author.lo as u64);
}

} // verus!
