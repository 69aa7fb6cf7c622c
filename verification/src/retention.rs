//! What resolution comes to against a store that still holds some versions
//! and has pruned others.
//!
//! Nothing here runs. A store is modelled by what it holds, and the
//! statements below say what the resolver's results are for references into
//! such a store.

use vstd::prelude::*;
use crate::identity::{Address, RefView};
use crate::resolver::{
    outcome_of, query_of, resolves, LookupFailure, Resolution, StoreQuery, StoreReply,
    VersionSelector,
};

verus! {

/// What a store holds: the snapshot it has retained for each pair of address
/// and version. A pair that is not a key has been pruned, or never was.
/// A pair has at most one snapshot.
pub type Retained<S> = Map<(Address, u64), S>;

/// What a store holding `held` has for `version` of the object at `address`.
pub open spec fn held_at<S>(held: Retained<S>, address: Address, version: u64) -> Option<S> {
    if held.contains_key((address, version)) {
        Some(held[(address, version)])
    } else {
        None
    }
}

/// Whether `reply` is an answer that a store holding `held` may give when it
/// is asked for `version` of the object at `address`.
///
/// Where the store answers at all, it tells what it holds. That it may fail
/// instead does not depend on what it holds.
pub open spec fn truthful<S, E>(
    held: Retained<S>,
    address: Address,
    version: u64,
    reply: StoreReply<S, E>,
) -> bool {
    reply matches Ok(found) ==> found == held_at(held, address, version)
}

/// Whether the query function `store` speaks for a store that holds `held`:
/// each reply it can give to a query for one version is truthful.
pub open spec fn serves<S, E, Q: Fn(StoreQuery) -> StoreReply<S, E>>(
    store: Q,
    held: Retained<S>,
) -> bool {
    forall|address: Address, version: u64, reply: StoreReply<S, E>|
        #[trigger] call_ensures(
            store,
            (StoreQuery { address: address, selector: VersionSelector::Historical(version) },),
            reply,
        ) ==> truthful(held, address, version, reply)
}

/// Whether every snapshot in `held` is kept under its own identity: the
/// address and version that `identity` reads from it.
pub open spec fn kept_by_identity<S>(
    held: Retained<S>,
    identity: spec_fn(S) -> (Address, u64),
) -> bool {
    forall|key: (Address, u64)| held.contains_key(key) ==> identity(#[trigger] held[key]) == key
}

/// Whether a store holding `held` has pruned every version below `horizon`,
/// of every object.
pub open spec fn pruned_below<S>(held: Retained<S>, horizon: u64) -> bool {
    forall|address: Address, version: u64|
        version < horizon ==> !#[trigger] held.contains_key((address, version))
}

/// A version that the store has retained resolves to the snapshot that the
/// store holds under the address and version of the reference.
pub proof fn lemma_retained_is_present<S, E>(
    held: Retained<S>,
    target: RefView,
    reply: StoreReply<S, E>,
)
    requires
        held.contains_key((target.address, target.version)),
        truthful(held, target.address, target.version, reply),
        reply is Ok,
    ensures
        outcome_of(target, reply) == Ok::<Option<S>, LookupFailure<E>>(
            Some(held[(target.address, target.version)]),
        ),
{
}

/// In a store that keeps each snapshot under its own identity, the snapshot
/// that a retained version resolves to has the address and version of the
/// reference.
pub proof fn lemma_present_matches_reference<S, E>(
    held: Retained<S>,
    identity: spec_fn(S) -> (Address, u64),
    target: RefView,
    reply: StoreReply<S, E>,
)
    requires
        kept_by_identity(held, identity),
        held.contains_key((target.address, target.version)),
        truthful(held, target.address, target.version, reply),
        reply is Ok,
    ensures
        outcome_of(target, reply) matches Ok(Some(snapshot)) && identity(snapshot) == (
            target.address,
            target.version,
        ),
{
    lemma_retained_is_present(held, target, reply);
}

/// A version that the store has pruned resolves to `None`, which is no
/// failure.
pub proof fn lemma_pruned_is_absent<S, E>(
    held: Retained<S>,
    target: RefView,
    reply: StoreReply<S, E>,
)
    requires
        !held.contains_key((target.address, target.version)),
        truthful(held, target.address, target.version, reply),
        reply is Ok,
    ensures
        outcome_of(target, reply) == Ok::<Option<S>, LookupFailure<E>>(None),
{
}

/// When the store fails, whatever it holds, the outcome is a failure that
/// carries the address and version of the reference and the store's error
/// as it came.
pub proof fn lemma_failure_is_tagged<S, E>(target: RefView, cause: E)
    ensures
        outcome_of::<S, E>(target, Err(cause)) == Err::<Option<S>, LookupFailure<E>>(
            LookupFailure { address: target.address, version: target.version, cause: cause },
        ),
{
}

/// Two answers of an unchanged store to the same reference settle to equal
/// outcomes, as long as the store answered both times. Where it failed both
/// times, the two failures name the same address and version.
pub proof fn lemma_settling_repeats<S, E>(
    held: Retained<S>,
    target: RefView,
    first: StoreReply<S, E>,
    second: StoreReply<S, E>,
)
    requires
        truthful(held, target.address, target.version, first),
        truthful(held, target.address, target.version, second),
    ensures
        first is Ok && second is Ok ==> outcome_of(target, first) == outcome_of(target, second),
        first is Err && second is Err ==> {
            &&& outcome_of(target, first) is Err
            &&& outcome_of(target, second) is Err
            &&& outcome_of(target, first)->Err_0.address == outcome_of(target, second)->Err_0.address
            &&& outcome_of(target, first)->Err_0.version == outcome_of(target, second)->Err_0.version
        },
{
}

/// A result of the resolver that is no failure is what the store holds for
/// the reference: the retained snapshot, or `None` where the version has
/// been pruned.
pub proof fn lemma_resolve_tells_what_is_held<S, E, Q: Fn(StoreQuery) -> StoreReply<S, E>>(
    store: Q,
    held: Retained<S>,
    target: RefView,
    outcome: Resolution<S, E>,
)
    requires
        serves(store, held),
        resolves(store, target, outcome),
        outcome is Ok,
    ensures
        outcome == Ok::<Option<S>, LookupFailure<E>>(
            held_at(held, target.address, target.version),
        ),
{
    let reply = choose|reply: StoreReply<S, E>|
        call_ensures(store, (query_of(target),), reply) && outcome == outcome_of(target, reply);
    assert(truthful(held, target.address, target.version, reply));
}

/// A failure of the resolver names the address and version of the reference
/// it was resolving.
pub proof fn lemma_resolve_failure_is_tagged<S, E, Q: Fn(StoreQuery) -> StoreReply<S, E>>(
    store: Q,
    target: RefView,
    outcome: Resolution<S, E>,
)
    requires
        resolves(store, target, outcome),
        outcome is Err,
    ensures
        outcome->Err_0.address == target.address,
        outcome->Err_0.version == target.version,
{
}

/// Resolving the same reference twice against an unchanged store gives equal
/// results, failures of the store apart.
pub proof fn lemma_resolve_repeats<S, E, Q: Fn(StoreQuery) -> StoreReply<S, E>>(
    store: Q,
    held: Retained<S>,
    target: RefView,
    first: Resolution<S, E>,
    second: Resolution<S, E>,
)
    requires
        serves(store, held),
        resolves(store, target, first),
        resolves(store, target, second),
        first is Ok,
        second is Ok,
    ensures
        first == second,
{
    lemma_resolve_tells_what_is_held(store, held, target, first);
    lemma_resolve_tells_what_is_held(store, held, target, second);
}

/// Against a store that has pruned everything below `horizon`, a reference
/// to a version below it resolves to `None` whenever the store answers.
pub proof fn lemma_below_horizon_is_absent<S, E>(
    held: Retained<S>,
    horizon: u64,
    target: RefView,
    reply: StoreReply<S, E>,
)
    requires
        pruned_below(held, horizon),
        target.version < horizon,
        truthful(held, target.address, target.version, reply),
        reply is Ok,
    ensures
        outcome_of(target, reply) == Ok::<Option<S>, LookupFailure<E>>(None),
{
    lemma_pruned_is_absent(held, target, reply);
}

} // verus!
