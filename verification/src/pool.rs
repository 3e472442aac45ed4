use vstd::prelude::*;
use smallvec::SmallVec;

verus! {

/// Byte buffers set aside for reuse. The first thirty-two are kept inline.
#[derive(Debug)]
#[verifier::external_body]
pub struct BufferPool {
    inner: SmallVec<[Vec<u8>; 32]>,
}

/// The buffers a pool holds, first to last.
pub uninterp spec fn pool_buffers(pool: BufferPool) -> Seq<Vec<u8>>;

impl BufferPool {
    /// `SmallVec::new`: a pool that holds nothing.
    #[verifier::external_body]
    pub(crate) fn new() -> (r: Self)
        ensures
            pool_buffers(r) == Seq::<Vec<u8>>::empty(),
    {
        BufferPool { inner: SmallVec::new() }
    }

    /// `SmallVec::len`: the number of buffers held.
    #[verifier::external_body]
    pub(crate) fn len(&self) -> (r: usize)
        ensures
            r == pool_buffers(*self).len(),
    {
        self.inner.len()
    }

    /// `SmallVec::push`: puts a buffer behind the others.
    #[verifier::external_body]
    pub(crate) fn push(&mut self, buffer: Vec<u8>)
        ensures
            pool_buffers(*final(self)) == pool_buffers(*old(self)).push(buffer),
    {
        self.inner.push(buffer)
    }

    /// `SmallVec::pop`: takes the last buffer out, if there is one.
    #[verifier::external_body]
    pub(crate) fn pop(&mut self) -> (r: Option<Vec<u8>>)
        ensures
            match r {
                Some(buffer) => pool_buffers(*old(self)).len() > 0 && buffer == pool_buffers(
                    *old(self),
                ).last() && pool_buffers(*final(self)) == pool_buffers(*old(self)).drop_last(),
                None => pool_buffers(*old(self)).len() == 0 && pool_buffers(*final(self))
                    == pool_buffers(*old(self)),
            },
    {
        self.inner.pop()
    }
}

/// `Vec::capacity`: the room a buffer has allocated. Nothing is promised of
/// it.
#[verifier::external_body]
pub(crate) fn buffer_capacity(buffer: &Vec<u8>) -> usize {
    buffer.capacity()
}

} // verus!
