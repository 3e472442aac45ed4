use vstd::prelude::*;
use vstd::utf8::encode_utf8;
use std::borrow::Cow;
use crate::digest::context_algorithm;
use crate::digest::context_finish;
use crate::digest::context_input;
use crate::digest::context_new;
use crate::digest::context_update;
use crate::digest::digest_input_ok;
use crate::digest::digest_once;
use crate::digest::sha_digest;
use crate::encoding::base64_standard;
use crate::encoding::encode_standard;
use crate::error::CspError;
use crate::source::Source;
use crate::source::SourceView;
use crate::utils::fast_string_compare;

verus! {

/// The digest algorithms a hash source may name.
#[derive(Debug, Clone, Copy, PartialEq, Eq, Hash, Structural)]
pub enum HashAlgorithm {
    Sha256,
    Sha384,
    Sha512,
}

impl HashAlgorithm {
    /// The algorithm's name as it appears inside a hash source.
    pub open spec fn name_spec(self) -> Seq<char> {
        match self {
            HashAlgorithm::Sha256 => "sha256"@,
            HashAlgorithm::Sha384 => "sha384"@,
            HashAlgorithm::Sha512 => "sha512"@,
        }
    }

    /// The opening of a hash source for the algorithm: a quote, the name and
    /// a hyphen.
    pub open spec fn prefix_spec(self) -> Seq<char> {
        match self {
            HashAlgorithm::Sha256 => "'sha256-"@,
            HashAlgorithm::Sha384 => "'sha384-"@,
            HashAlgorithm::Sha512 => "'sha512-"@,
        }
    }

    pub fn name(&self) -> (r: &'static str)
        ensures
            r@ == self.name_spec(),
    {
        match self {
            HashAlgorithm::Sha256 => "sha256",
            HashAlgorithm::Sha384 => "sha384",
            HashAlgorithm::Sha512 => "sha512",
        }
    }

    pub fn prefix(&self) -> (r: &'static str)
        ensures
            r@ == self.prefix_spec(),
    {
        match self {
            HashAlgorithm::Sha256 => "'sha256-",
            HashAlgorithm::Sha384 => "'sha384-",
            HashAlgorithm::Sha512 => "'sha512-",
        }
    }

    /// The algorithm's name as an owned string.
    pub fn to_string(&self) -> (r: String)
        ensures
            r@ == self.name_spec(),
    {
        String::from_str(self.name())
    }

    /// The algorithm of a name. Any text but the three names is refused, and
    /// the error carries that text.
    pub fn try_from(s: &str) -> (r: Result<HashAlgorithm, CspError>)
        ensures
            match r {
                Ok(algorithm) => s@ == algorithm.name_spec(),
                Err(e) => {
                    &&& e matches CspError::InvalidHashAlgorithm(text)
                    &&& text@ == s@
                    &&& forall|algorithm: HashAlgorithm| s@ != algorithm.name_spec()
                },
            },
    {
        if fast_string_compare(s, "sha256") {
            Ok(HashAlgorithm::Sha256)
        } else if fast_string_compare(s, "sha384") {
            Ok(HashAlgorithm::Sha384)
        } else if fast_string_compare(s, "sha512") {
            Ok(HashAlgorithm::Sha512)
        } else {
            Err(CspError::InvalidHashAlgorithm(String::from_str(s)))
        }
    }
}

/// The digest of `data` as a hash source carries it: the SHA-2 digest in
/// standard base64.
pub open spec fn digest_text(algorithm: HashAlgorithm, data: Seq<u8>) -> Seq<char> {
    base64_standard(sha_digest(algorithm, data))
}

/// Whether `expected` is the digest text of `data`.
pub open spec fn hash_matches(algorithm: HashAlgorithm, data: Seq<u8>, expected: Seq<char>) -> bool {
    digest_text(algorithm, data) == expected
}

/// Verifying data against the digest generated from the same data succeeds,
/// whatever the algorithm and the data.
pub proof fn lemma_hash_round_trip(algorithm: HashAlgorithm, data: Seq<u8>)
    ensures
        hash_matches(algorithm, data, digest_text(algorithm, data)),
{
}

/// Computes and checks the digests of inline content.
#[derive(Debug)]
pub struct HashGenerator;

impl HashGenerator {
    /// The digest text of `data`. Short inputs are digested in one call,
    /// longer ones through an incremental context; the result is the same.
    pub fn generate(algorithm: HashAlgorithm, data: &[u8]) -> (r: String)
        requires
            digest_input_ok(data@.len()),
        ensures
            r@ == digest_text(algorithm, data@),
    {
        if data.len() < 64 {
            Self::generate_small(algorithm, data)
        } else {
            Self::generate_large(algorithm, data)
        }
    }

    fn generate_small(algorithm: HashAlgorithm, data: &[u8]) -> (r: String)
        requires
            digest_input_ok(data@.len()),
        ensures
            r@ == digest_text(algorithm, data@),
    {
        let digest = digest_once(algorithm, data);
        encode_standard(digest.as_slice())
    }

    fn generate_large(algorithm: HashAlgorithm, data: &[u8]) -> (r: String)
        requires
            digest_input_ok(data@.len()),
        ensures
            r@ == digest_text(algorithm, data@),
    {
        let mut context = context_new(algorithm);
        let chunk: usize = 16384;
        if data.len() > chunk {
            let mut start: usize = 0;
            while start < data.len()
                invariant
                    start <= data.len(),
                    chunk == 16384,
                    context_algorithm(context) == algorithm,
                    context_input(context) == data@.subrange(0, start as int),
                decreases data.len() - start,
            {
                let end: usize = if data.len() - start > chunk {
                    start + chunk
                } else {
                    data.len()
                };
                context_update(&mut context, &data[start..end]);
                assert(data@.subrange(0, start as int) + data@.subrange(start as int, end as int)
                    =~= data@.subrange(0, end as int));
                start = end;
            }
            assert(data@.subrange(0, data.len() as int) =~= data@);
        } else {
            context_update(&mut context, data);
            assert(Seq::<u8>::empty() + data@ =~= data@);
        }
        let digest = context_finish(context);
        encode_standard(digest.as_slice())
    }

    /// A hash source that admits exactly `data`.
    pub fn generate_source(algorithm: HashAlgorithm, data: &[u8]) -> (r: Source)
        requires
            digest_input_ok(data@.len()),
        ensures
            r@ == (SourceView::Hash { algorithm, value: digest_text(algorithm, data@) }),
    {
        let hash = Self::generate(algorithm, data);
        Source::Hash { algorithm, value: Cow::Owned(hash) }
    }

    /// The digest texts of several inputs, in the order of the requests.
    pub fn generate_multiple(requests: &[(HashAlgorithm, &[u8])]) -> (r: Vec<String>)
        requires
            forall|i: int| 0 <= i < requests@.len() ==> digest_input_ok((#[trigger] requests@[i]).1@.len()),
        ensures
            r@.len() == requests@.len(),
            forall|i: int| 0 <= i < requests@.len() ==> (#[trigger] r@[i])@ == digest_text(requests@[i].0, requests@[i].1@),
    {
        let mut results: Vec<String> = Vec::with_capacity(requests.len());
        let mut i: usize = 0;
        while i < requests.len()
            invariant
                i <= requests.len(),
                results@.len() == i,
                forall|k: int| 0 <= k < requests@.len() ==> digest_input_ok((#[trigger] requests@[k]).1@.len()),
                forall|k: int| 0 <= k < i ==> (#[trigger] results@[k])@ == digest_text(requests@[k].0, requests@[k].1@),
            decreases requests.len() - i,
        {
            let (algorithm, data) = requests[i];
            let mut context = context_new(algorithm);
            context_update(&mut context, data);
            assert(Seq::<u8>::empty() + data@ =~= data@);
            let digest = context_finish(context);
            results.push(encode_standard(digest.as_slice()));
            i = i + 1;
        }
        results
    }

    /// Whether `hash` is the digest text of `data`. The comparison looks at
    /// the lengths first and then at every byte.
    pub fn verify_hash(algorithm: HashAlgorithm, data: &[u8], hash: &str) -> (r: bool)
        requires
            digest_input_ok(data@.len()),
        ensures
            r == hash_matches(algorithm, data@, hash@),
    {
        let calculated = Self::generate(algorithm, data);
        fast_string_compare(calculated.as_str(), hash)
    }

    /// The digest text of `data` followed by the bytes of `nonce`.
    pub fn generate_with_nonce(algorithm: HashAlgorithm, data: &[u8], nonce: &str) -> (r: String)
        requires
            digest_input_ok(data@.len() + encode_utf8(nonce@).len()),
        ensures
            r@ == digest_text(algorithm, data@ + encode_utf8(nonce@)),
    {
        let mut context = context_new(algorithm);
        context_update(&mut context, data);
        context_update(&mut context, nonce.as_bytes());
        assert(Seq::<u8>::empty() + data@ + encode_utf8(nonce@) =~= data@ + encode_utf8(nonce@));
        let digest = context_finish(context);
        encode_standard(digest.as_slice())
    }

    /// Checks several digests at once. The requests are grouped by algorithm
    /// and each group is worked through in turn; the verdicts stand at the
    /// positions of their requests.
    pub fn batch_verify(requests: &[(HashAlgorithm, &[u8], &str)]) -> (r: Vec<bool>)
        requires
            forall|i: int| 0 <= i < requests@.len() ==> digest_input_ok((#[trigger] requests@[i]).1@.len()),
        ensures
            r@.len() == requests@.len(),
            forall|i: int| 0 <= i < requests@.len() ==> #[trigger] r@[i] == hash_matches(
                requests@[i].0,
                requests@[i].1@,
                requests@[i].2@,
            ),
    {
        if requests.len() == 0 {
            return Vec::new();
        }
        let mut sha256_requests: Vec<usize> = Vec::new();
        let mut sha384_requests: Vec<usize> = Vec::new();
        let mut sha512_requests: Vec<usize> = Vec::new();
        let mut results: Vec<bool> = Vec::with_capacity(requests.len());
        let mut i: usize = 0;
        while i < requests.len()
            invariant
                i <= requests.len(),
                results@.len() == i,
                group_of(requests@, sha256_requests@, HashAlgorithm::Sha256, i as int),
                group_of(requests@, sha384_requests@, HashAlgorithm::Sha384, i as int),
                group_of(requests@, sha512_requests@, HashAlgorithm::Sha512, i as int),
            decreases requests.len() - i,
        {
            let ghost old_256 = sha256_requests@;
            let ghost old_384 = sha384_requests@;
            let ghost old_512 = sha512_requests@;
            let (algorithm, data, expected) = requests[i];
            match algorithm {
                HashAlgorithm::Sha256 => sha256_requests.push(i),
                HashAlgorithm::Sha384 => sha384_requests.push(i),
                HashAlgorithm::Sha512 => sha512_requests.push(i),
            }
            results.push(false);
            proof {
                lemma_group_step(requests@, old_256, HashAlgorithm::Sha256, i);
                lemma_group_step(requests@, old_384, HashAlgorithm::Sha384, i);
                lemma_group_step(requests@, old_512, HashAlgorithm::Sha512, i);
            }
            i = i + 1;
        }
        Self::verify_group(requests, &sha256_requests, HashAlgorithm::Sha256, &mut results);
        Self::verify_group(requests, &sha384_requests, HashAlgorithm::Sha384, &mut results);
        Self::verify_group(requests, &sha512_requests, HashAlgorithm::Sha512, &mut results);
        proof {
            assert forall|k: int| 0 <= k < requests@.len() implies #[trigger] results@[k]
                == hash_matches(requests@[k].0, requests@[k].1@, requests@[k].2@) by {
                match requests@[k].0 {
                    HashAlgorithm::Sha256 => {
                        assert(in_group(sha256_requests@, k));
                    },
                    HashAlgorithm::Sha384 => {
                        assert(in_group(sha384_requests@, k));
                    },
                    HashAlgorithm::Sha512 => {
                        assert(in_group(sha512_requests@, k));
                    },
                }
            }
        }
        results
    }

    /// Works through the requests of one algorithm and writes each verdict at
    /// the position of its request. The other positions stay as they are.
    fn verify_group(
        requests: &[(HashAlgorithm, &[u8], &str)],
        group: &Vec<usize>,
        algorithm: HashAlgorithm,
        results: &mut Vec<bool>,
    )
        requires
            old(results)@.len() == requests@.len(),
            forall|i: int| 0 <= i < requests@.len() ==> digest_input_ok((#[trigger] requests@[i]).1@.len()),
            group_of(requests@, group@, algorithm, requests@.len() as int),
        ensures
            final(results)@.len() == requests@.len(),
            forall|i: int| 0 <= i < requests@.len() ==> #[trigger] final(results)@[i] == if in_group(group@, i) {
                hash_matches(requests@[i].0, requests@[i].1@, requests@[i].2@)
            } else {
                old(results)@[i]
            },
    {
        let mut n: usize = 0;
        while n < group.len()
            invariant
                n <= group.len(),
                results@.len() == requests@.len(),
                forall|i: int| 0 <= i < requests@.len() ==> digest_input_ok((#[trigger] requests@[i]).1@.len()),
                group_of(requests@, group@, algorithm, requests@.len() as int),
                forall|i: int| 0 <= i < requests@.len() ==> #[trigger] results@[i] == if in_group(group@.subrange(0, n as int), i) {
                    hash_matches(requests@[i].0, requests@[i].1@, requests@[i].2@)
                } else {
                    old(results)@[i]
                },
            decreases group.len() - n,
        {
            let at: usize = group[n];
            assert(in_group(group@, at as int));
            let (_, data, expected) = requests[at];
            let mut context = context_new(algorithm);
            context_update(&mut context, data);
            assert(Seq::<u8>::empty() + data@ =~= data@);
            let digest = context_finish(context);
            let calculated = encode_standard(digest.as_slice());
            let verdict = fast_string_compare(calculated.as_str(), expected);
            results.set(at, verdict);
            proof {
                let before = group@.subrange(0, n as int);
                let after = group@.subrange(0, n + 1);
                assert(after == before.push(at));
                assert forall|i: int| 0 <= i < requests@.len() implies #[trigger] results@[i]
                    == if in_group(after, i) {
                    hash_matches(requests@[i].0, requests@[i].1@, requests@[i].2@)
                } else {
                    old(results)@[i]
                } by {
                    if i == at {
                        assert(after[n as int] == at);
                    } else {
                        if in_group(before, i) {
                            let w = choose|w: int| 0 <= w < before.len() && before[w] == i;
                            assert(after[w] == i);
                        }
                        if in_group(after, i) {
                            let w = choose|w: int| 0 <= w < after.len() && after[w] == i;
                            assert(w < n);
                            assert(before[w] == i);
                        }
                    }
                }
            }
            n = n + 1;
        }
        assert(group@.subrange(0, group@.len() as int) =~= group@);
    }

    /// The SHA-256 digest text of a string's bytes.
    pub fn generate_hash(&self, content: &str) -> (r: Result<String, CspError>)
        requires
            digest_input_ok(encode_utf8(content@).len()),
        ensures
            r matches Ok(text) && text@ == digest_text(HashAlgorithm::Sha256, encode_utf8(content@)),
    {
        Ok(Self::generate(HashAlgorithm::Sha256, content.as_bytes()))
    }
}

/// Whether position `i` is a member of `group`.
pub open spec fn in_group(group: Seq<usize>, i: int) -> bool {
    exists|n: int| 0 <= n < group.len() && #[trigger] group[n] == i
}

/// `group` lists the positions below `upto` whose request names `algorithm`:
/// each member is such a position in range, and each such position is a member.
pub open spec fn group_of(
    requests: Seq<(HashAlgorithm, &[u8], &str)>,
    group: Seq<usize>,
    algorithm: HashAlgorithm,
    upto: int,
) -> bool {
    &&& forall|n: int|
        0 <= n < group.len() ==> 0 <= #[trigger] group[n] < upto && group[n] < requests.len()
            && requests[group[n] as int].0 == algorithm
    &&& forall|i: int|
        0 <= i < upto && i < requests.len() ==> (requests[i].0 == algorithm) == #[trigger] in_group(group, i)
}

/// Extending the range of a group by one position: the position joins the
/// group when its request names the algorithm, and the group stays otherwise.
pub proof fn lemma_group_step(
    requests: Seq<(HashAlgorithm, &[u8], &str)>,
    group: Seq<usize>,
    algorithm: HashAlgorithm,
    at: usize,
)
    requires
        at < requests.len(),
        group_of(requests, group, algorithm, at as int),
    ensures
        requests[at as int].0 == algorithm ==> group_of(
            requests,
            group.push(at),
            algorithm,
            at + 1,
        ),
        requests[at as int].0 != algorithm ==> group_of(requests, group, algorithm, at + 1),
{
    if requests[at as int].0 == algorithm {
        let grown = group.push(at);
        assert(grown[group.len() as int] == at);
        assert forall|i: int| 0 <= i < at + 1 && i < requests.len() implies (requests[i].0
            == algorithm) == #[trigger] in_group(grown, i) by {
            if i < at {
                if in_group(group, i) {
                    let n = choose|n: int| 0 <= n < group.len() && #[trigger] group[n] == i;
                    assert(grown[n] == i);
                }
                if in_group(grown, i) {
                    let n = choose|n: int| 0 <= n < grown.len() && #[trigger] grown[n] == i;
                    assert(n < group.len());
                    assert(group[n] == i);
                }
            }
        }
    } else {
        assert forall|i: int| 0 <= i < at + 1 && i < requests.len() implies (requests[i].0
            == algorithm) == #[trigger] in_group(group, i) by {
            if i == at {
                if in_group(group, i) {
                    let n = choose|n: int| 0 <= n < group.len() && #[trigger] group[n] == i;
                    assert(group[n] < at);
                }
            }
        }
    }
}

} // verus!
