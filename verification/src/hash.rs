//! Synthetic identifiers for artists that arrive without one.

use vstd::prelude::*;
use crate::text::{hex, push_hex};

verus! {

broadcast use vstd::string::group_string_axioms;

/// Prefix of the synthetic artist IDs that `generate_fallback_id` makes
/// with the prefix `yt_gen` (the generator adds the underscore).
pub const FALLBACK_ID_PREFIX: &'static str = "yt_gen_";

/// The value std's `DefaultHasher` (as made by `DefaultHasher::new`) finishes
/// with after hashing the string `s`. The hasher is keyed with fixed keys, so
/// the value depends on `s` alone for a given build of std.
pub uninterp spec fn default_hash_of(s: Seq<char>) -> u64;

/// std `BuildHasher::hash_one` with a default-built `DefaultHasher`: hashes
/// `raw` and returns the finished value. Claimed: it is `default_hash_of(raw@)`.
#[verifier::external_body]
fn hash_str(raw: &str) -> (h: u64)
    ensures
        h == default_hash_of(raw@),
{
    std::hash::BuildHasher::hash_one(
        &std::hash::BuildHasherDefault::<std::collections::hash_map::DefaultHasher>::default(),
        raw,
    )
}

/// The text of `generate_fallback_id(prefix, raw_data)`: the prefix, an
/// underscore, then the hash of the raw data in lower-case hexadecimal.
pub open spec fn fallback_id(prefix: Seq<char>, raw_data: Seq<char>) -> Seq<char> {
    prefix + seq!['_'] + hex(default_hash_of(raw_data) as nat)
}

/// Builds a stable synthetic ID for `raw_data`: `<prefix>_<hash in hex>`.
pub fn generate_fallback_id(prefix: &str, raw_data: &str) -> (id: String)
    ensures
        id@ == fallback_id(prefix@, raw_data@),
{
    let h = hash_str(raw_data);
    let mut out = String::from_str(prefix);
    out.append("_");
    proof {
        reveal_strlit("_");
    }
    push_hex(&mut out, h);
    out
}

} // verus!
