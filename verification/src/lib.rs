//! Reading one past version of an object.
//!
//! A [`VersionedRef`] names a single version of a single object: its address,
//! its version number and the digest of its contents at that version.
//!
//! - `identity` holds the reference and its parts, how they are read, and
//!   how they compare.
//! - `resolver` turns a reference into the query an object store is asked,
//!   and turns what the store answered into one of three outcomes: the
//!   object as it was, its absence because the store has pruned that
//!   version, or a failure that carries the address and version it was
//!   looking for.
//! - `retention` states what those outcomes are against a store that still
//!   holds some versions and has let others go.
//! - `rank` orders byte strings, and `base58` gives digests their text.

pub mod base58;
pub mod identity;
pub mod rank;
pub mod resolver;
pub mod retention;

pub use identity::{Address, Digest, RefView, VersionedRef};
pub use resolver::{
    historical_query, settle, HistoricalResolver, LookupFailure, Resolution, StoreQuery, StoreReply,
    VersionSelector,
};
