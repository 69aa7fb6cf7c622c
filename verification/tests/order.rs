use object_read::rank::{rank_arrays, Rank};
use object_read::{Address, Digest, VersionedRef};
use std::cmp::Ordering;
use std::collections::BTreeSet;

fn bytes_with(at: usize, value: u8) -> [u8; 32] {
    let mut bytes = [0u8; 32];
    bytes[at] = value;
    bytes
}

fn sample_bytes() -> Vec<[u8; 32]> {
    vec![
        [0u8; 32],
        bytes_with(31, 1),
        bytes_with(31, 0xFF),
        bytes_with(30, 1),
        bytes_with(16, 0x80),
        bytes_with(0, 1),
        bytes_with(0, 0xFF),
        [0x7F; 32],
        [0xFF; 32],
    ]
}

fn sample_refs() -> Vec<VersionedRef> {
    let mut refs = Vec::new();
    for address in [bytes_with(31, 1), bytes_with(0, 1), [0xFF; 32]] {
        for version in [0u64, 7, u64::MAX] {
            for digest in [[0u8; 32], bytes_with(5, 9), [0xFF; 32]] {
                refs.push(VersionedRef::new(Address { bytes: address }, version, Digest { bytes: digest }));
            }
        }
    }
    refs
}

#[test]
fn rank_of_equal_arrays_is_level() {
    for bytes in sample_bytes() {
        assert_eq!(rank_arrays(&bytes, &bytes), Rank::Level);
    }
}

#[test]
fn rank_is_decided_by_the_first_differing_byte() {
    let mut left = [5u8; 32];
    let mut right = [5u8; 32];
    left[3] = 1;
    right[3] = 2;
    left[4] = 9;
    right[4] = 0;
    assert_eq!(rank_arrays(&left, &right), Rank::Below);
    assert_eq!(rank_arrays(&right, &left), Rank::Above);

    assert_eq!(rank_arrays(&bytes_with(0, 1), &bytes_with(31, 0xFF)), Rank::Above);
    assert_eq!(rank_arrays(&bytes_with(31, 1), &bytes_with(31, 2)), Rank::Below);
    assert_eq!(rank_arrays(&[0u8; 32], &bytes_with(31, 1)), Rank::Below);
    assert_eq!(rank_arrays(&[0xFF; 32], &[0x7F; 32]), Rank::Above);
}

#[test]
fn rank_agrees_with_the_order_of_arrays() {
    for left in sample_bytes() {
        for right in sample_bytes() {
            let expected = match left.cmp(&right) {
                Ordering::Less => Rank::Below,
                Ordering::Equal => Rank::Level,
                Ordering::Greater => Rank::Above,
            };
            assert_eq!(rank_arrays(&left, &right), expected);
        }
    }
}

#[test]
fn addresses_and_digests_compare_by_their_bytes() {
    for left in sample_bytes() {
        for right in sample_bytes() {
            let (a, b) = (Address { bytes: left }, Address { bytes: right });
            assert_eq!(a == b, left == right);
            assert_eq!(a != b, left != right);
            assert_eq!(a.partial_cmp(&b), Some(left.cmp(&right)));
            assert_eq!(a.cmp(&b), left.cmp(&right));
            assert_eq!(a < b, left < right);
            assert_eq!(a >= b, left >= right);

            let (c, d) = (Digest { bytes: left }, Digest { bytes: right });
            assert_eq!(c == d, left == right);
            assert_eq!(c.partial_cmp(&d), Some(left.cmp(&right)));
            assert_eq!(c.cmp(&d), left.cmp(&right));
        }
    }
}

#[test]
fn references_compare_as_their_triples_do() {
    let refs = sample_refs();
    let triples: Vec<([u8; 32], u64, [u8; 32])> = {
        let mut triples = Vec::new();
        for address in [bytes_with(31, 1), bytes_with(0, 1), [0xFF; 32]] {
            for version in [0u64, 7, u64::MAX] {
                for digest in [[0u8; 32], bytes_with(5, 9), [0xFF; 32]] {
                    triples.push((address, version, digest));
                }
            }
        }
        triples
    };
    assert_eq!(refs.len(), 27);
    for (i, left) in refs.iter().enumerate() {
        for (j, right) in refs.iter().enumerate() {
            let expected = triples[i].cmp(&triples[j]);
            assert_eq!(left.partial_cmp(right), Some(expected));
            assert_eq!(left.cmp(right), expected);
            assert_eq!(left == right, i == j);
            assert_eq!(left < right, expected == Ordering::Less);
            assert_eq!(left > right, expected == Ordering::Greater);
            assert_eq!(left <= right, expected != Ordering::Greater);
        }
    }
}

#[test]
fn address_outranks_version_and_version_outranks_digest() {
    let low_address = VersionedRef::new(Address { bytes: bytes_with(31, 1) }, u64::MAX, Digest { bytes: [0xFF; 32] });
    let high_address = VersionedRef::new(Address { bytes: bytes_with(31, 2) }, 0, Digest { bytes: [0; 32] });
    assert_eq!(low_address.partial_cmp(&high_address), Some(Ordering::Less));

    let old = VersionedRef::new(Address { bytes: [1; 32] }, 9, Digest { bytes: [0xFF; 32] });
    let new = VersionedRef::new(Address { bytes: [1; 32] }, 10, Digest { bytes: [0; 32] });
    assert_eq!(old.partial_cmp(&new), Some(Ordering::Less));
    assert_eq!(new.partial_cmp(&old), Some(Ordering::Greater));

    let first = VersionedRef::new(Address { bytes: [1; 32] }, 9, Digest { bytes: bytes_with(31, 1) });
    let second = VersionedRef::new(Address { bytes: [1; 32] }, 9, Digest { bytes: bytes_with(31, 2) });
    assert_eq!(first.partial_cmp(&second), Some(Ordering::Less));
    assert_eq!(first.partial_cmp(&first), Some(Ordering::Equal));
}

#[test]
fn sorting_references_orders_them_part_by_part() {
    let mut refs = sample_refs();
    refs.reverse();
    refs.sort();
    for pair in refs.windows(2) {
        assert!(pair[0] < pair[1]);
        let (a, b) = (pair[0], pair[1]);
        assert!(
            a.address() < b.address() || (a.address() == b.address() && a.version() <= b.version())
        );
    }
    let set: BTreeSet<VersionedRef> = sample_refs().into_iter().chain(sample_refs()).collect();
    assert_eq!(set.len(), 27);
}

#[test]
fn below_is_transitive_on_samples() {
    let refs = sample_refs();
    for a in &refs {
        for b in &refs {
            for c in &refs {
                if a < b && b < c {
                    assert!(a < c);
                }
            }
        }
    }
}
