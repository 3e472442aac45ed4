use vstd::prelude::*;
use std::hash::Hasher;
use rustc_hash::FxHasher;

verus! {

/// The Fx hash of a byte string: a fresh `FxHasher` is fed the bytes with
/// `Hasher::write` and read with `Hasher::finish`. The value depends on the
/// word size and byte order of the machine, so nothing is promised of it.
#[verifier::external_body]
pub(crate) fn fx_hash(bytes: &[u8]) -> u64 {
    let mut hasher = FxHasher::default();
    hasher.write(bytes);
    hasher.finish()
}

} // verus!
