//! From a reference to the question a store is asked, and from the store's
//! answer to what the caller is told.

use vstd::prelude::*;
use crate::identity::{Address, RefView, VersionedRef};

verus! {

/// Which version of an object a store is asked for.
#[derive(Clone, Copy, Debug, PartialEq, Eq, Hash)]
pub enum VersionSelector {
    /// Whatever version is newest.
    Latest,
    /// The object as it stood at exactly this version.
    Historical(u64),
}

/// One question put to an object store.
#[derive(Clone, Copy, Debug, PartialEq, Eq, Hash)]
pub struct StoreQuery {
    pub address: Address,
    pub selector: VersionSelector,
}

/// A lookup that the store could not complete.
///
/// It names the address and version that were being looked for, and keeps
/// the store's own error untouched as the cause.
#[derive(Debug, PartialEq, Eq)]
pub struct LookupFailure<E> {
    pub address: Address,
    pub version: u64,
    pub cause: E,
}

/// What a store answers: the snapshot, `None` for a version it no longer
/// holds, or its own error when the lookup itself broke down.
pub type StoreReply<S, E> = Result<Option<S>, E>;

/// What the caller is told: the snapshot as the store gave it, `None` for a
/// pruned version, or a failure that says what was being looked for.
pub type Resolution<S, E> = Result<Option<S>, LookupFailure<E>>;

/// The question that resolving `target` puts to the store: its address, at
/// exactly its version.
pub open spec fn query_of(target: RefView) -> StoreQuery {
    StoreQuery { address: target.address, selector: VersionSelector::Historical(target.version) }
}

/// What resolving `target` comes to once the store has given `reply`.
///
/// A snapshot and an absence pass through as they are. An error of the store
/// becomes a failure tagged with the address and version of `target`. The
/// digest of `target` plays no part: a snapshot is not compared with it.
pub open spec fn outcome_of<S, E>(target: RefView, reply: StoreReply<S, E>) -> Resolution<S, E> {
    match reply {
        Ok(found) => Ok(found),
        Err(cause) => Err(
            LookupFailure { address: target.address, version: target.version, cause: cause },
        ),
    }
}

/// Whether `outcome` is a result that resolving `target` through `store` can
/// have: the outcome of some reply that `store` may give to the query for
/// `target`.
pub open spec fn resolves<S, E, Q: Fn(StoreQuery) -> StoreReply<S, E>>(
    store: Q,
    target: RefView,
    outcome: Resolution<S, E>,
) -> bool {
    exists|reply: StoreReply<S, E>|
        call_ensures(store, (query_of(target),), reply) && outcome == outcome_of(target, reply)
}

/// The digest takes no part in resolution: references to the same version
/// of the same object ask the same question and settle any reply alike,
/// whatever digests they carry.
pub proof fn lemma_digest_plays_no_part<S, E>(
    one: RefView,
    other: RefView,
    reply: StoreReply<S, E>,
)
    requires
        one.address == other.address,
        one.version == other.version,
    ensures
        query_of(one) == query_of(other),
        outcome_of(one, reply) == outcome_of(other, reply),
{
}

/// The query to send to the store for `target`.
pub fn historical_query(target: &VersionedRef) -> (query: StoreQuery)
    ensures
        query == query_of(target@),
{
    StoreQuery { address: target.address(), selector: VersionSelector::Historical(target.version()) }
}

/// Turns the store's `reply` to the query for `target` into the outcome.
pub fn settle<S, E>(target: &VersionedRef, reply: StoreReply<S, E>) -> (outcome: Resolution<S, E>)
    ensures
        outcome == outcome_of(target@, reply),
{
    match reply {
        Ok(found) => Ok(found),
        Err(cause) => Err(
            LookupFailure { address: target.address(), version: target.version(), cause },
        ),
    }
}

/// Resolves references against one object store, given as the function that
/// answers its queries.
pub struct HistoricalResolver<Q> {
    store: Q,
}

impl<Q> HistoricalResolver<Q> {
    /// The store this resolver asks.
    pub closed spec fn store(&self) -> Q {
        self.store
    }

    /// A resolver that asks `store`.
    pub fn new(store: Q) -> (made: Self)
        ensures
            made.store() == store,
    {
        HistoricalResolver { store }
    }

    /// Asks the store once for `target` at its version and settles the reply.
    ///
    /// The store is asked exactly `query_of(target@)`, and nothing is kept
    /// between calls.
    pub fn resolve<S, E>(&self, target: &VersionedRef) -> (outcome: Resolution<S, E>) where
        Q: Fn(StoreQuery) -> StoreReply<S, E>,

        requires
            call_requires(self.store(), (query_of(target@),)),
        ensures
            resolves(self.store(), target@, outcome),
    {
        let reply = (self.store)(historical_query(target));
        settle(target, reply)
    }
}

} // verus!
