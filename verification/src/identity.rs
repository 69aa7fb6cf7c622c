//! The identity of one version of one object.

use std::cmp::Ordering;
use vstd::prelude::*;
use vstd::std_specs::cmp::{PartialEqSpecImpl, PartialOrdSpecImpl};
use crate::base58::{base58_text, encode_32};
use crate::rank::{
    lemma_below_is_transitive, lemma_level_is_equality, lemma_rank_mirrors, rank_arrays,
    rank_bytes, Rank,
};

verus! {

/// The stable identifier of an object, the same at every version.
///
/// Addresses are equal when their bytes are, and are ordered byte by byte
/// from the front.
#[derive(Clone, Copy, Debug, Eq, Ord, Hash)]
pub struct Address {
    pub bytes: [u8; 32],
}

impl View for Address {
    type V = Seq<u8>;

    open spec fn view(&self) -> Seq<u8> {
        self.bytes@
    }
}

impl PartialEq for Address {
    fn eq(&self, other: &Address) -> (same: bool) {
        proof {
            lemma_level_is_equality(self@, other@);
        }
        rank_arrays(&self.bytes, &other.bytes) == Rank::Level
    }
}

impl PartialEqSpecImpl for Address {
    open spec fn obeys_eq_spec() -> bool {
        true
    }

    open spec fn eq_spec(&self, other: &Address) -> bool {
        self@ == other@
    }
}

impl PartialOrd for Address {
    fn partial_cmp(&self, other: &Address) -> (ordering: Option<Ordering>) {
        Some(rank_arrays(&self.bytes, &other.bytes).to_ordering())
    }
}

impl PartialOrdSpecImpl for Address {
    open spec fn obeys_partial_cmp_spec() -> bool {
        true
    }

    open spec fn partial_cmp_spec(&self, other: &Address) -> Option<Ordering> {
        Some(rank_bytes(self@, other@).ordering())
    }
}

/// The hash that commits to an object's contents at one version.
///
/// Digests are equal when their bytes are, and are ordered byte by byte
/// from the front.
#[derive(Clone, Copy, Debug, Eq, Ord, Hash)]
pub struct Digest {
    pub bytes: [u8; 32],
}

impl View for Digest {
    type V = Seq<u8>;

    open spec fn view(&self) -> Seq<u8> {
        self.bytes@
    }
}

impl PartialEq for Digest {
    fn eq(&self, other: &Digest) -> (same: bool) {
        proof {
            lemma_level_is_equality(self@, other@);
        }
        rank_arrays(&self.bytes, &other.bytes) == Rank::Level
    }
}

impl PartialEqSpecImpl for Digest {
    open spec fn obeys_eq_spec() -> bool {
        true
    }

    open spec fn eq_spec(&self, other: &Digest) -> bool {
        self@ == other@
    }
}

impl PartialOrd for Digest {
    fn partial_cmp(&self, other: &Digest) -> (ordering: Option<Ordering>) {
        Some(rank_arrays(&self.bytes, &other.bytes).to_ordering())
    }
}

impl PartialOrdSpecImpl for Digest {
    open spec fn obeys_partial_cmp_spec() -> bool {
        true
    }

    open spec fn partial_cmp_spec(&self, other: &Digest) -> Option<Ordering> {
        Some(rank_bytes(self@, other@).ordering())
    }
}

/// Addresses with the same bytes are the same address.
pub proof fn lemma_same_bytes_same_address(one: Address, other: Address)
    ensures
        one@ == other@ <==> one == other,
{
    if one@ == other@ {
        assert(one.bytes =~= other.bytes);
    }
}

/// Digests with the same bytes are the same digest.
pub proof fn lemma_same_bytes_same_digest(one: Digest, other: Digest)
    ensures
        one@ == other@ <==> one == other,
{
    if one@ == other@ {
        assert(one.bytes =~= other.bytes);
    }
}

/// The three parts of a [`VersionedRef`], laid open for contracts.
pub struct RefView {
    pub address: Address,
    pub version: u64,
    pub digest: Digest,
}

/// The rank of one reference against another: by address first, then by
/// version, then by digest.
pub open spec fn rank_refs(left: RefView, right: RefView) -> Rank {
    let by_address = rank_bytes(left.address@, right.address@);
    if by_address != Rank::Level {
        by_address
    } else if left.version < right.version {
        Rank::Below
    } else if left.version > right.version {
        Rank::Above
    } else {
        rank_bytes(left.digest@, right.digest@)
    }
}

/// A reference to one version of one object: address, version and digest.
///
/// The three parts are fixed when the value is made and can only be read
/// afterwards. Two references are equal when all three parts are, and they
/// are ordered part by part in that order.
#[derive(Clone, Copy, Debug, Eq, Ord, Hash)]
pub struct VersionedRef {
    address: Address,
    version: u64,
    digest: Digest,
}

impl View for VersionedRef {
    type V = RefView;

    closed spec fn view(&self) -> RefView {
        RefView { address: self.address, version: self.version, digest: self.digest }
    }
}

impl PartialEq for VersionedRef {
    fn eq(&self, other: &VersionedRef) -> (same: bool) {
        proof {
            lemma_level_is_equality(self.address@, other.address@);
            lemma_level_is_equality(self.digest@, other.digest@);
            lemma_same_bytes_same_address(self.address, other.address);
            lemma_same_bytes_same_digest(self.digest, other.digest);
        }
        rank_arrays(&self.address.bytes, &other.address.bytes) == Rank::Level
            && self.version == other.version
            && rank_arrays(&self.digest.bytes, &other.digest.bytes) == Rank::Level
    }
}

impl PartialEqSpecImpl for VersionedRef {
    open spec fn obeys_eq_spec() -> bool {
        true
    }

    open spec fn eq_spec(&self, other: &VersionedRef) -> bool {
        self@ == other@
    }
}

impl PartialOrd for VersionedRef {
    fn partial_cmp(&self, other: &VersionedRef) -> (ordering: Option<Ordering>) {
        let by_address = rank_arrays(&self.address.bytes, &other.address.bytes);
        let rank = if by_address != Rank::Level {
            by_address
        } else if self.version < other.version {
            Rank::Below
        } else if self.version > other.version {
            Rank::Above
        } else {
            rank_arrays(&self.digest.bytes, &other.digest.bytes)
        };
        Some(rank.to_ordering())
    }
}

impl PartialOrdSpecImpl for VersionedRef {
    open spec fn obeys_partial_cmp_spec() -> bool {
        true
    }

    open spec fn partial_cmp_spec(&self, other: &VersionedRef) -> Option<Ordering> {
        Some(rank_refs(self@, other@).ordering())
    }
}

impl VersionedRef {
    /// The reference that [`VersionedRef::new`] makes of three parts.
    pub closed spec fn spec_new(address: Address, version: u64, digest: Digest) -> VersionedRef {
        VersionedRef { address, version, digest }
    }

    /// The address that [`VersionedRef::address`] reads.
    pub open spec fn spec_address(&self) -> Address {
        self@.address
    }

    /// The version that [`VersionedRef::version`] reads.
    pub open spec fn spec_version(&self) -> u64 {
        self@.version
    }

    /// Makes the reference to `version` of the object at `address`, whose
    /// contents at that version hash to `digest`.
    #[verifier::when_used_as_spec(spec_new)]
    pub fn new(address: Address, version: u64, digest: Digest) -> (made: VersionedRef)
        ensures
            made == VersionedRef::spec_new(address, version, digest),
            made@ == (RefView { address: address, version: version, digest: digest }),
    {
        VersionedRef { address, version, digest }
    }

    /// The address of the object, whatever the version.
    #[verifier::when_used_as_spec(spec_address)]
    pub fn address(&self) -> (address: Address)
        ensures
            address == self@.address,
    {
        self.address
    }

    /// The version number, exactly as it was given to [`VersionedRef::new`].
    #[verifier::when_used_as_spec(spec_version)]
    pub fn version(&self) -> (version: u64)
        ensures
            version == self@.version,
    {
        self.version
    }

    /// The digest as Base58 text, for display.
    pub fn digest_text(&self) -> (text: String)
        ensures
            text@ == digest_text_of(self@),
    {
        encode_32(&self.digest.bytes)
    }
}

/// The text that [`VersionedRef::digest_text`] gives for a reference: the
/// Base58 text of its digest bytes.
pub open spec fn digest_text_of(target: RefView) -> Seq<char> {
    base58_text(target.digest@)
}

/// The digest text is fixed by the digest bytes: references that carry the
/// same digest have the same text, whatever their address and version, and
/// asking again gives the same text.
pub proof fn lemma_digest_text_is_determined(one: RefView, other: RefView)
    requires
        one.digest@ == other.digest@,
    ensures
        digest_text_of(one) == digest_text_of(other),
{
}

/// A reference reads back as the parts it was made from: the version is
/// the number that was given, unchanged, and so are the address and the
/// digest.
pub proof fn lemma_parts_are_stored(address: Address, version: u64, digest: Digest)
    ensures
        VersionedRef::new(address, version, digest).version() == version,
        VersionedRef::new(address, version, digest).address() == address,
        VersionedRef::new(address, version, digest)@ == (RefView {
            address: address,
            version: version,
            digest: digest,
        }),
{
}

/// References with the same parts are the same reference.
pub proof fn lemma_same_parts_same_ref(one: VersionedRef, other: VersionedRef)
    ensures
        one@ == other@ <==> one == other,
{
}

/// References are level exactly when all three parts are the same.
pub proof fn lemma_level_refs_are_equal(left: RefView, right: RefView)
    ensures
        rank_refs(left, right) == Rank::Level <==> left == right,
{
    lemma_level_is_equality(left.address@, right.address@);
    lemma_level_is_equality(left.digest@, right.digest@);
    lemma_same_bytes_same_address(left.address, right.address);
    lemma_same_bytes_same_digest(left.digest, right.digest);
}

/// Swapping two references swaps below and above.
pub proof fn lemma_ref_rank_mirrors(left: RefView, right: RefView)
    ensures
        rank_refs(left, right) == Rank::Below <==> rank_refs(right, left) == Rank::Above,
        rank_refs(left, right) == Rank::Above <==> rank_refs(right, left) == Rank::Below,
        rank_refs(left, right) == Rank::Level <==> rank_refs(right, left) == Rank::Level,
{
    lemma_rank_mirrors(left.address@, right.address@);
    lemma_rank_mirrors(left.digest@, right.digest@);
}

/// Below is transitive on references.
pub proof fn lemma_ref_below_is_transitive(low: RefView, mid: RefView, high: RefView)
    requires
        rank_refs(low, mid) == Rank::Below,
        rank_refs(mid, high) == Rank::Below,
    ensures
        rank_refs(low, high) == Rank::Below,
{
    lemma_level_is_equality(low.address@, mid.address@);
    lemma_level_is_equality(mid.address@, high.address@);
    lemma_level_is_equality(low.digest@, mid.digest@);
    lemma_level_is_equality(mid.digest@, high.digest@);
    let low_mid = rank_bytes(low.address@, mid.address@);
    let mid_high = rank_bytes(mid.address@, high.address@);
    if low_mid == Rank::Below && mid_high == Rank::Below {
        lemma_below_is_transitive(low.address@, mid.address@, high.address@);
    } else if low_mid == Rank::Level && mid_high == Rank::Level {
        if low.version == mid.version && mid.version == high.version {
            lemma_below_is_transitive(low.digest@, mid.digest@, high.digest@);
        }
    }
}

} // verus!
