use vstd::prelude::*;
use std::time::Instant;
use crate::encoding::base64_url_safe;
use crate::encoding::encodable_len;
use crate::encoding::encode_url_safe;
use crate::error::CspError;
use crate::pool::buffer_capacity;
use crate::pool::pool_buffers;
use crate::pool::BufferPool;
use crate::random::fill_random;

verus! {

/// The number of buffers a generator sets aside at most.
pub const NONCE_BUFFER_POOL_SIZE: usize = 32;

/// The number of random bytes in a nonce unless another is asked for.
pub const DEFAULT_NONCE_LENGTH: usize = 16;

/// Whether a text is a nonce of `length` random bytes: the URL-safe base64
/// text, without padding, of some bytes of that number.
pub open spec fn is_nonce_of(text: Seq<char>, length: nat) -> bool {
    exists|bytes: Seq<u8>| bytes.len() == length && text == #[trigger] base64_url_safe(bytes)
}

/// The text of a nonce made from the given random bytes.
pub fn encode_nonce(bytes: &[u8]) -> (r: String)
    requires
        encodable_len(bytes@.len()),
    ensures
        r@ == base64_url_safe(bytes@),
        is_nonce_of(r@, bytes@.len()),
{
    encode_url_safe(bytes)
}

/// The largest room, in bytes, with which a buffer stays in the pool.
pub const POOLED_BUFFER_LIMIT: usize = 1024;

/// The seconds that pass between two trimmings of the pool, at least.
pub const TRIM_INTERVAL_SECS: u64 = 300;

/// Whether `part` is what is left of `whole` when some of its items are
/// taken out: the same items, in the same order.
pub open spec fn is_subsequence<T>(part: Seq<T>, whole: Seq<T>) -> bool
    decreases whole.len(),
{
    if part.len() == 0 {
        true
    } else if whole.len() == 0 {
        false
    } else {
        (part.last() == whole.last() && is_subsequence(part.drop_last(), whole.drop_last()))
            || is_subsequence(part, whole.drop_last())
    }
}

/// What is left of a sequence is no longer than the sequence.
pub proof fn lemma_subsequence_len<T>(part: Seq<T>, whole: Seq<T>)
    requires
        is_subsequence(part, whole),
    ensures
        part.len() <= whole.len(),
    decreases whole.len(),
{
    if part.len() > 0 && whole.len() > 0 {
        if part.last() == whole.last() && is_subsequence(part.drop_last(), whole.drop_last()) {
            lemma_subsequence_len(part.drop_last(), whole.drop_last());
        } else {
            lemma_subsequence_len(part, whole.drop_last());
        }
    }
}

/// Whether the pool is due for trimming at `now`, having last been trimmed
/// at `last`: more than five minutes have passed.
pub open spec fn trim_due(now: u64, last: u64) -> bool {
    now >= last && now - last > TRIM_INTERVAL_SECS
}

/// Whether the pool is due for trimming.
pub fn trim_is_due(now: u64, last: u64) -> (r: bool)
    ensures
        r == trim_due(now, last),
{
    now >= last && now - last > TRIM_INTERVAL_SECS
}

/// Whether a buffer with that much room stays in the pool.
pub fn fits_pool(capacity: usize) -> (r: bool)
    ensures
        r == (capacity <= POOLED_BUFFER_LIMIT),
{
    capacity <= POOLED_BUFFER_LIMIT
}

/// What looking after the pool at `now` does to a generator. Where trimming
/// is due, the time is noted and what stays in the pool is what was there,
/// in its order, without the buffers that were dropped. Where it is not
/// due, the pool and the time noted stay as they are. The length stays.
pub open spec fn trim_outcome(before: NonceGenerator, after: NonceGenerator, now: u64) -> bool {
    &&& after.length_spec() == before.length_spec()
    &&& if trim_due(now, before.last_trimmed()) {
        &&& after.last_trimmed() == now
        &&& is_subsequence(after.pool_spec(), before.pool_spec())
    } else {
        &&& after.last_trimmed() == before.last_trimmed()
        &&& after.pool_spec() == before.pool_spec()
    }
}

/// Produces random tokens. Byte buffers are reused from a small pool, which
/// is trimmed now and then.
#[derive(Debug)]
pub struct NonceGenerator {
    length: usize,
    buffer_pool: BufferPool,
    created: Instant,
    last_cleanup: u64,
}

impl Clone for NonceGenerator {
    /// A generator of the same length with a pool of its own.
    fn clone(&self) -> (r: Self)
        ensures
            r.length_spec() == self.length_spec(),
            r.pooled() == 0,
    {
        NonceGenerator::new(self.length)
    }
}

impl Default for NonceGenerator {
    fn default() -> (r: Self)
        ensures
            r.length_spec() == DEFAULT_NONCE_LENGTH,
            r.pooled() == 0,
    {
        NonceGenerator::new(DEFAULT_NONCE_LENGTH)
    }
}

impl NonceGenerator {
    /// The number of random bytes in a nonce.
    pub closed spec fn length_spec(&self) -> usize {
        self.length
    }

    /// The number of buffers set aside.
    pub closed spec fn pooled(&self) -> nat {
        pool_buffers(self.buffer_pool).len()
    }

    /// The buffers set aside, first to last.
    pub closed spec fn pool_spec(&self) -> Seq<Vec<u8>> {
        pool_buffers(self.buffer_pool)
    }

    /// The second, on the generator's clock, at which the pool was last
    /// trimmed.
    pub closed spec fn last_trimmed(&self) -> u64 {
        self.last_cleanup
    }

    /// A generator of nonces of `length` random bytes.
    pub fn new(length: usize) -> (r: Self)
        ensures
            r.length_spec() == length,
            r.pooled() == 0,
    {
        NonceGenerator {
            length,
            buffer_pool: BufferPool::new(),
            created: Instant::now(),
            last_cleanup: 0,
        }
    }

    /// A fresh nonce: the buffer, reused from the pool or newly made, is
    /// overwritten with random bytes and encoded, and goes back to the pool
    /// while there is room. The call fails where the operating system's
    /// random source does.
    pub fn generate(&mut self) -> (r: Result<String, CspError>)
        requires
            encodable_len(old(self).length_spec() as nat),
        ensures
            final(self).length_spec() == old(self).length_spec(),
            old(self).pooled() <= NONCE_BUFFER_POOL_SIZE ==> final(self).pooled()
                <= NONCE_BUFFER_POOL_SIZE,
            match r {
                Ok(nonce) => is_nonce_of(nonce@, old(self).length_spec() as nat),
                Err(e) => e matches CspError::CryptoError(message) && message@
                    == "Failed to generate random bytes"@,
            },
    {
        self.maybe_cleanup_pools();
        let length = self.length;
        let mut buffer = match self.buffer_pool.pop() {
            Some(pooled) => {
                let mut reused = pooled;
                reused.clear();
                reused.resize(length, 0u8);
                reused
            },
            None => {
                let mut fresh: Vec<u8> = Vec::new();
                fresh.resize(length, 0u8);
                fresh
            },
        };
        match fill_random(&mut buffer) {
            Ok(_) => {},
            Err(_) => {
                return Err(
                    CspError::CryptoError(String::from_str("Failed to generate random bytes")),
                );
            },
        }
        let encoded = encode_nonce(buffer.as_slice());
        if self.buffer_pool.len() < NONCE_BUFFER_POOL_SIZE {
            self.buffer_pool.push(buffer);
        }
        Ok(encoded)
    }

    /// Trims the pool when more than five minutes have passed since it was
    /// last trimmed, by the generator's own clock. Whatever the clock says,
    /// the outcome is that of `cleanup_at` for some reading of it.
    fn maybe_cleanup_pools(&mut self)
        ensures
            final(self).length_spec() == old(self).length_spec(),
            final(self).pooled() <= old(self).pooled(),
            exists|now: u64| #[trigger] trim_outcome(*old(self), *final(self), now),
    {
        let now = self.created.elapsed().as_secs();
        self.cleanup_at(now);
        assert(trim_outcome(*old(self), *self, now));
    }

    /// Trims the pool if, at `now` seconds on the generator's clock, more
    /// than five minutes have passed since it was last trimmed, and notes
    /// the time. Otherwise nothing changes.
    pub fn cleanup_at(&mut self, now: u64)
        ensures
            final(self).length_spec() == old(self).length_spec(),
            final(self).pooled() <= old(self).pooled(),
            trim_outcome(*old(self), *final(self), now),
    {
        if trim_is_due(now, self.last_cleanup) {
            self.last_cleanup = now;
            self.cleanup_pools();
        }
    }

    /// Drops the pooled buffers that have grown beyond a kilobyte. The
    /// others stay, in their order.
    fn cleanup_pools(&mut self)
        ensures
            final(self).length_spec() == old(self).length_spec(),
            final(self).last_trimmed() == old(self).last_trimmed(),
            final(self).pooled() <= old(self).pooled(),
            is_subsequence(final(self).pool_spec(), old(self).pool_spec()),
    {
        let ghost original = pool_buffers(self.buffer_pool);
        let mut taken: Vec<Vec<u8>> = Vec::new();
        assert(original.subrange(0, original.len() as int) == original);
        loop
            invariant
                self.length == old(self).length,
                self.last_cleanup == old(self).last_cleanup,
                taken@.len() <= original.len(),
                pool_buffers(self.buffer_pool) == original.subrange(
                    0,
                    original.len() - taken@.len(),
                ),
                forall|i: int|
                    0 <= i < taken@.len() ==> #[trigger] taken@[i] == original[original.len() - 1
                        - i],
            ensures
                pool_buffers(self.buffer_pool).len() == 0,
                taken@.len() == original.len(),
            decreases pool_buffers(self.buffer_pool).len(),
        {
            let ghost held = pool_buffers(self.buffer_pool);
            let ghost before = taken@;
            match self.buffer_pool.pop() {
                Some(buffer) => {
                    taken.push(buffer);
                    proof {
                        assert(buffer == original[original.len() - 1 - before.len()]);
                        assert(held.drop_last() == original.subrange(
                            0,
                            original.len() - taken@.len(),
                        ));
                        assert forall|i: int| 0 <= i < taken@.len() implies #[trigger] taken@[i]
                            == original[original.len() - 1 - i] by {
                            if i < before.len() {
                                assert(taken@[i] == before[i]);
                            }
                        }
                    }
                },
                None => {
                    break ;
                },
            }
        }
        assert(original.subrange(0, 0) == Seq::<Vec<u8>>::empty());
        loop
            invariant
                self.length == old(self).length,
                self.last_cleanup == old(self).last_cleanup,
                taken@.len() <= original.len(),
                forall|i: int|
                    0 <= i < taken@.len() ==> #[trigger] taken@[i] == original[original.len() - 1
                        - i],
                is_subsequence(
                    pool_buffers(self.buffer_pool),
                    original.subrange(0, original.len() - taken@.len()),
                ),
            ensures
                taken@.len() == 0,
            decreases taken@.len(),
        {
            let ghost held = pool_buffers(self.buffer_pool);
            let ghost before = taken@;
            let ghost done = original.subrange(0, original.len() - before.len());
            match taken.pop() {
                Some(buffer) => {
                    let ghost next = original.subrange(0, original.len() - taken@.len());
                    proof {
                        assert(buffer == original[original.len() - before.len()]);
                        assert(next.last() == buffer);
                        assert(next.drop_last() == done);
                        assert forall|i: int| 0 <= i < taken@.len() implies #[trigger] taken@[i]
                            == original[original.len() - 1 - i] by {
                            assert(taken@[i] == before[i]);
                        }
                    }
                    if fits_pool(buffer_capacity(&buffer)) {
                        self.buffer_pool.push(buffer);
                        proof {
                            let grown = pool_buffers(self.buffer_pool);
                            assert(grown.last() == buffer);
                            assert(grown.drop_last() == held);
                        }
                    }
                },
                None => {
                    break ;
                },
            }
        }
        proof {
            assert(original.subrange(0, original.len() as int) == original);
            lemma_subsequence_len(pool_buffers(self.buffer_pool), original);
        }
    }

    pub fn set_length(&mut self, length: usize)
        ensures
            final(self).length_spec() == length,
            final(self).pooled() == old(self).pooled(),
    {
        self.length = length;
    }

    pub fn length(&self) -> (r: usize)
        ensures
            r == self.length_spec(),
    {
        self.length
    }

    /// A generator whose pool starts with zeroed buffers: as many as
    /// `capacity` asks for, and no more than the pool may hold.
    pub fn with_capacity(capacity: usize, length: usize) -> (r: Self)
        ensures
            r.length_spec() == length,
            r.pooled() == if capacity <= NONCE_BUFFER_POOL_SIZE {
                capacity
            } else {
                NONCE_BUFFER_POOL_SIZE
            },
    {
        let count: usize = if capacity <= NONCE_BUFFER_POOL_SIZE {
            capacity
        } else {
            NONCE_BUFFER_POOL_SIZE
        };
        let mut pool = BufferPool::new();
        let mut i: usize = 0;
        while i < count
            invariant
                i <= count,
                pool_buffers(pool).len() == i,
            decreases count - i,
        {
            let mut buffer: Vec<u8> = Vec::new();
            buffer.resize(length, 0u8);
            pool.push(buffer);
            i = i + 1;
        }
        NonceGenerator { length, buffer_pool: pool, created: Instant::now(), last_cleanup: 0 }
    }
}

/// The nonce that belongs to one request.
#[derive(Debug)]
pub struct RequestNonce(pub String);

impl Clone for RequestNonce {
    fn clone(&self) -> (r: Self)
        ensures
            r == *self,
    {
        RequestNonce(self.0.clone())
    }
}

impl core::ops::Deref for RequestNonce {
    type Target = String;

    fn deref(&self) -> (r: &String)
        ensures
            *r == self.0,
    {
        &self.0
    }
}

impl core::ops::DerefMut for RequestNonce {
    fn deref_mut(&mut self) -> (r: &mut String)
        ensures
            *r == old(self).0,
            final(self).0 == *final(r),
    {
        &mut self.0
    }
}

} // verus!
