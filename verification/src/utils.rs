//! Hashing of byte strings with the standard library's default hasher.

use std::collections::hash_map::DefaultHasher;
use std::hash::{Hash, Hasher};
use vstd::prelude::*;
use vstd::std_specs::hash::DefaultHasherAdditionalSpecFns;

verus! {

/// The writes that hashing a slice with these bytes makes: a length prefix,
/// then the bytes.
pub open spec fn slice_hash_writes(prefix: Seq<u8>, bytes: Seq<u8>) -> Seq<Seq<u8>> {
    seq![prefix, bytes]
}

/// Calls `<[u8] as Hash>::hash`. Hashing a slice first writes its length as
/// a prefix (so that slices hash free of prefix collisions) and then writes
/// all its bytes in one write. The prefix is the length in the platform's
/// word size and byte order, so it is not named; after the call the hasher
/// has received exactly these two writes.
#[verifier::external_body]
fn feed_slice(s: &[u8], hasher: &mut DefaultHasher)
    ensures
        exists|prefix: Seq<u8>|
            final(hasher)@ == old(hasher)@ + #[trigger] slice_hash_writes(prefix, s@),
{
    s.hash(hasher)
}

/// The standard library's default hash of a byte slice, computed with a
/// fresh `DefaultHasher`: the default hasher's digest of a length prefix
/// followed by the slice's bytes.
pub fn do_hash(s: &[u8]) -> (h: u64)
    ensures
        exists|prefix: Seq<u8>|
            h == DefaultHasher::spec_finish(#[trigger] slice_hash_writes(prefix, s@)),
{
    let mut hasher = DefaultHasher::new();
    let ghost start = hasher@;
    feed_slice(s, &mut hasher);
    let ghost prefix = choose|prefix: Seq<u8>|
        hasher@ == start + #[trigger] slice_hash_writes(prefix, s@);
    assert(hasher@ =~= slice_hash_writes(prefix, s@));
    let h = hasher.finish();
    assert(h == DefaultHasher::spec_finish(slice_hash_writes(prefix, s@)));
    h
}

} // verus!
