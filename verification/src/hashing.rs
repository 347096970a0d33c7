//! The 32-bit hash under which the texts of a post are pooled.

use vstd::prelude::*;
use std::collections::hash_map::DefaultHasher;
use std::hash::Hash;
use std::hash::Hasher;
use vstd::std_specs::hash::DefaultHasherAdditionalSpecFns;

verus! {

/// What hashing the string `text` writes to a hasher.
pub uninterp spec fn str_hash_writes(text: Seq<char>) -> Seq<Seq<u8>>;

/// `Hash::hash` of a string: feeds the string to the hasher.
#[verifier::external_body]
fn feed(text: &str, hasher: &mut DefaultHasher)
    ensures
        final(hasher)@ == old(hasher)@ + str_hash_writes(text@),
{
    text.hash(hasher)
}

/// The hash of `text`: the low 32 bits of what the default hasher makes of
/// the string.
pub open spec fn string_hash(text: Seq<char>) -> u32 {
    (DefaultHasher::spec_finish(str_hash_writes(text)) % 0x1_0000_0000) as u32
}

/// Hashes `s` to 32 bits.
pub fn hash_string(s: &str) -> (hash: u32)
    ensures
        hash == string_hash(s@),
{
    let mut hasher = DefaultHasher::new();
    feed(s, &mut hasher);
    assert(hasher@ =~= str_hash_writes(s@));
    (hasher.finish() % 0x1_0000_0000) as u32
}

} // verus!
