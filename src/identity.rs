//! Numeric identities for transports that are known by a name.

use std::hash::BuildHasher;
use vstd::prelude::*;

verus! {

/// The 64-bit hash that std's `DefaultHasher` gives a string key.
pub uninterp spec fn default_hash_of(key: Seq<char>) -> u64;

/// The identity of a 64-bit hash: the XOR of its upper and lower 32-bit
/// halves, read as a signed 32-bit integer.
pub open spec fn folded(h: u64) -> i32 {
    (((h >> 32u64) as u32) ^ (h as u32)) as i32
}

/// The identity given to the name `key`.
pub open spec fn channel_id_of(key: Seq<char>) -> i32 {
    folded(default_hash_of(key))
}

/// Relies on `BuildHasher::hash_one` with std's unkeyed `DefaultHasher`: it hashes
/// `key` as `key.hash(&mut DefaultHasher::new())` would and returns `finish()`,
/// which depends on the characters of `key` alone.
#[verifier::external_body]
fn default_hash(key: &str) -> (r: u64)
    ensures
        r == default_hash_of(key@),
{
    std::hash::BuildHasherDefault::<std::collections::hash_map::DefaultHasher>::default().hash_one(key)
}

/// Folds a 64-bit hash into a 32-bit identity.
pub fn fold_hash(h: u64) -> (r: i32)
    ensures
        r == folded(h),
{
    let id: u64 = (h >> 32u64) ^ (h & 0xffff_ffffu64);
    assert(id as i32 == folded(h)) by (bit_vector)
        requires
            id == (h >> 32u64) ^ (h & 0xffff_ffffu64),
    ;
    id as i32
}

/// Derives the identity of a transport that is known by the name `key`.
/// The empty name is allowed.
pub fn str_to_channel_id(key: &str) -> (r: i32)
    ensures
        r == channel_id_of(key@),
{
    fold_hash(default_hash(key))
}

/// Identities are a function of the name: equal names give equal identities.
pub proof fn lemma_channel_id_deterministic(k1: Seq<char>, k2: Seq<char>)
    requires
        k1 == k2,
    ensures
        channel_id_of(k1) == channel_id_of(k2),
{
}

} // verus!
