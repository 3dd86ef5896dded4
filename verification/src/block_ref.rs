//! Symbolic block references and their resolution to concrete backend
//! query keys. The backend has no pending-block concept, so `Pending`
//! always collapses to `Latest` wherever it is resolved for state queries.

use vstd::prelude::*;
use crate::types::H256;

verus! {

/// A client-supplied block identifier: concrete (number, hash) or
/// symbolic (earliest, latest, pending).
#[derive(Clone, Copy, Debug, PartialEq, Eq, Structural)]
pub enum BlockReference {
    Number(u64),
    Hash(H256),
    Earliest,
    Latest,
    Pending,
}

/// A concrete backend lookup key. There is no pending variant: `Pending`
/// never survives resolution.
#[derive(Clone, Copy, Debug, PartialEq, Eq, Structural)]
pub enum ResolvedQueryKey {
    Number(u64),
    Hash(H256),
    Earliest,
    Latest,
}

/// What `resolve` maps each reference to.
pub open spec fn spec_resolve(r: BlockReference) -> ResolvedQueryKey {
    match r {
        BlockReference::Number(n) => ResolvedQueryKey::Number(n),
        BlockReference::Hash(h) => ResolvedQueryKey::Hash(h),
        BlockReference::Earliest => ResolvedQueryKey::Earliest,
        BlockReference::Latest => ResolvedQueryKey::Latest,
        BlockReference::Pending => ResolvedQueryKey::Latest,
    }
}

/// Total mapping from a symbolic block reference to a concrete query key;
/// `Pending` is treated identically to `Latest`.
pub fn resolve(r: BlockReference) -> (k: ResolvedQueryKey)
    ensures
        k == spec_resolve(r),
{
    match r {
        BlockReference::Number(n) => ResolvedQueryKey::Number(n),
        BlockReference::Hash(h) => ResolvedQueryKey::Hash(h),
        BlockReference::Earliest => ResolvedQueryKey::Earliest,
        BlockReference::Latest => ResolvedQueryKey::Latest,
        BlockReference::Pending => ResolvedQueryKey::Latest,
    }
}

/// `Pending` and `Latest` resolve to the same key. Resolution itself is
/// a total function: `resolve` has no precondition and no failure path.
pub proof fn lemma_pending_resolves_as_latest()
    ensures
        spec_resolve(BlockReference::Pending) == spec_resolve(BlockReference::Latest),
{
}

/// Substitute an open-ended `Latest` bound with the observed notification
/// boundary; any other configured bound passes through unchanged.
pub open spec fn spec_clamp_bound(configured: BlockReference, observed: BlockReference) -> BlockReference {
    if configured is Latest {
        observed
    } else {
        configured
    }
}

/// Pin a log subscription's open-ended bound to a concrete notified
/// boundary: a configured `Latest` is replaced by the observed reference,
/// anything else is resolved as configured.
pub fn resolve_for_notification_clamp(configured: BlockReference, observed: BlockReference) -> (k: ResolvedQueryKey)
    ensures
        k == spec_resolve(spec_clamp_bound(configured, observed)),
{
    if matches!(configured, BlockReference::Latest) {
        resolve(observed)
    } else {
        resolve(configured)
    }
}

} // verus!
