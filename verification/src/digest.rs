use vstd::prelude::*;
use ring::digest::Algorithm;
use ring::digest::Context;
use crate::hash::HashAlgorithm;

verus! {

#[verifier::external_type_specification]
#[verifier::external_body]
pub struct ExDigestContext(Context);

#[verifier::external_type_specification]
#[verifier::external_body]
pub struct ExDigestAlgorithm(Algorithm);

/// The algorithm of the library that an algorithm of `ring` stands for:
/// `ring::digest::SHA256`, `SHA384` and `SHA512` stand for their namesakes,
/// any other for nothing.
pub uninterp spec fn algorithm_of(algorithm: Algorithm) -> Option<HashAlgorithm>;

impl HashAlgorithm {
    /// The algorithm as `ring` knows it: one of the statics
    /// `ring::digest::SHA256`, `SHA384` and `SHA512`.
    #[verifier::external_body]
    pub fn digest_algorithm(&self) -> (r: &'static Algorithm)
        ensures
            algorithm_of(*r) == Some(*self),
    {
        match self {
            HashAlgorithm::Sha256 => &ring::digest::SHA256,
            HashAlgorithm::Sha384 => &ring::digest::SHA384,
            HashAlgorithm::Sha512 => &ring::digest::SHA512,
        }
    }

    /// The algorithm that one of `ring`'s statics stands for, by the `==` of
    /// `ring::digest::Algorithm`; nothing for any other algorithm of `ring`.
    #[verifier::external_body]
    pub fn from_digest_algorithm(algo: &'static Algorithm) -> (r: Option<HashAlgorithm>)
        ensures
            r == algorithm_of(*algo),
    {
        if algo == &ring::digest::SHA256 {
            Some(HashAlgorithm::Sha256)
        } else if algo == &ring::digest::SHA384 {
            Some(HashAlgorithm::Sha384)
        } else if algo == &ring::digest::SHA512 {
            Some(HashAlgorithm::Sha512)
        } else {
            None
        }
    }
}

/// The digest of `data` under the named SHA-2 function (FIPS 180-4), as the
/// `ring` crate computes it.
pub uninterp spec fn sha_digest(algorithm: HashAlgorithm, data: Seq<u8>) -> Seq<u8>;

/// The algorithm an incremental context was created for.
pub uninterp spec fn context_algorithm(context: Context) -> HashAlgorithm;

/// The bytes fed to an incremental context so far, in order.
pub uninterp spec fn context_input(context: Context) -> Seq<u8>;

/// The length in bytes of a digest under each algorithm.
pub open spec fn digest_len(algorithm: HashAlgorithm) -> nat {
    match algorithm {
        HashAlgorithm::Sha256 => 32,
        HashAlgorithm::Sha384 => 48,
        HashAlgorithm::Sha512 => 64,
    }
}

/// Whether `ring` accepts an input of this many bytes: it counts the input in
/// bits in a 64-bit counter and panics when that overflows.
pub open spec fn digest_input_ok(len: nat) -> bool {
    len < 0x2000_0000_0000_0000
}

/// Whether an input of that many bytes may be digested.
pub fn digest_input_ok_len(len: usize) -> (r: bool)
    ensures
        r == digest_input_ok(len as nat),
{
    (len as u64) < 0x2000_0000_0000_0000u64
}

/// `ring::digest::digest`: the one-shot digest of `data`, of the length
/// the algorithm defines.
#[verifier::external_body]
pub(crate) fn digest_once(algorithm: HashAlgorithm, data: &[u8]) -> (r: Vec<u8>)
    requires
        digest_input_ok(data@.len()),
    ensures
        r@ == sha_digest(algorithm, data@),
        r@.len() == digest_len(algorithm),
{
    let picked = match algorithm {
        HashAlgorithm::Sha256 => &ring::digest::SHA256,
        HashAlgorithm::Sha384 => &ring::digest::SHA384,
        HashAlgorithm::Sha512 => &ring::digest::SHA512,
    };
    ring::digest::digest(picked, data).as_ref().to_vec()
}

/// `ring::digest::Context::new`: a context for `algorithm` that has seen no
/// input yet.
#[verifier::external_body]
pub(crate) fn context_new(algorithm: HashAlgorithm) -> (r: Context)
    ensures
        context_algorithm(r) == algorithm,
        context_input(r) == Seq::<u8>::empty(),
{
    let picked = match algorithm {
        HashAlgorithm::Sha256 => &ring::digest::SHA256,
        HashAlgorithm::Sha384 => &ring::digest::SHA384,
        HashAlgorithm::Sha512 => &ring::digest::SHA512,
    };
    Context::new(picked)
}

/// `ring::digest::Context::update`: appends `data` to what the context has
/// seen. The algorithm stays.
#[verifier::external_body]
pub(crate) fn context_update(context: &mut Context, data: &[u8])
    ensures
        context_algorithm(*final(context)) == context_algorithm(*old(context)),
        context_input(*final(context)) == context_input(*old(context)) + data@,
{
    context.update(data)
}

/// `ring::digest::Context::finish`: the digest of everything the context has
/// seen, equal to the one-shot digest of the same bytes and as long.
#[verifier::external_body]
pub(crate) fn context_finish(context: Context) -> (r: Vec<u8>)
    requires
        digest_input_ok(context_input(context).len()),
    ensures
        r@ == sha_digest(context_algorithm(context), context_input(context)),
        r@.len() == digest_len(context_algorithm(context)),
{
    context.finish().as_ref().to_vec()
}

} // verus!
