use vstd::prelude::*;
use vstd::utf8::decode_utf8;
use vstd::utf8::decode_utf8_encode_utf8;
use vstd::utf8::encode_utf8;
use vstd::utf8::encode_utf8_decode_utf8;
use vstd::utf8::encode_utf8_valid_utf8;
use vstd::utf8::valid_utf8;
use bytes::BytesMut;
use smallvec::SmallVec;
use crate::buffer::buffer_as_slice;
use crate::buffer::buffer_bytes;
use crate::buffer::buffer_clear;
use crate::buffer::buffer_extend;
use crate::buffer::buffer_len;
use crate::buffer::buffer_reserve;
use crate::buffer::buffer_with_capacity;
use crate::utils::bytes_equal;
use crate::utils::lemma_encode_concat;

verus! {

/// `char::to_string`: the text that holds the one character.
#[verifier::external_body]
pub(crate) fn char_text(c: char) -> (r: String)
    ensures
        r@ == seq![c],
{
    c.to_string()
}

/// `core::str::from_utf8`: the bytes as a string, where they are valid
/// UTF-8, and nothing otherwise.
#[verifier::external_body]
pub(crate) fn str_from_utf8(bytes: &[u8]) -> (r: Option<&str>)
    ensures
        r is Some == valid_utf8(bytes@),
        r matches Some(text) ==> encode_utf8(text@) == bytes@,
{
    core::str::from_utf8(bytes).ok()
}

/// All the parts, one after the other.
pub open spec fn flattened(parts: Seq<&[u8]>) -> Seq<u8>
    decreases parts.len(),
{
    if parts.len() == 0 {
        Seq::<u8>::empty()
    } else {
        flattened(parts.drop_last()) + parts.last()@
    }
}

/// The first parts, put one after the other, are no longer than all of them.
pub proof fn lemma_flattened_prefix_len(parts: Seq<&[u8]>, upto: int)
    requires
        0 <= upto <= parts.len(),
    ensures
        flattened(parts.subrange(0, upto)).len() <= flattened(parts).len(),
    decreases parts.len() - upto,
{
    if upto == parts.len() {
        assert(parts.subrange(0, upto) == parts);
    } else {
        lemma_flattened_prefix_len(parts, upto + 1);
        let next = parts.subrange(0, upto + 1);
        assert(next.drop_last() == parts.subrange(0, upto));
        assert(next.last() == parts[upto]);
    }
}

/// Assembles a byte string piece by piece in one growing buffer.
pub struct FastStringBuilder {
    buffer: BytesMut,
}

impl View for FastStringBuilder {
    type V = Seq<u8>;

    closed spec fn view(&self) -> Seq<u8> {
        buffer_bytes(self.buffer)
    }
}

impl FastStringBuilder {
    /// An empty builder with room for `capacity` bytes.
    pub fn with_capacity(capacity: usize) -> (r: Self)
        requires
            capacity <= isize::MAX,
        ensures
            r@ == Seq::<u8>::empty(),
    {
        FastStringBuilder { buffer: buffer_with_capacity(capacity) }
    }

    pub fn push_str(&mut self, s: &str)
        requires
            old(self)@.len() + encode_utf8(s@).len() <= isize::MAX,
        ensures
            final(self)@ == old(self)@ + encode_utf8(s@),
    {
        buffer_extend(&mut self.buffer, s.as_bytes());
    }

    pub fn push_static(&mut self, s: &'static str)
        requires
            old(self)@.len() + encode_utf8(s@).len() <= isize::MAX,
        ensures
            final(self)@ == old(self)@ + encode_utf8(s@),
    {
        buffer_extend(&mut self.buffer, s.as_bytes());
    }

    pub fn push_bytes(&mut self, bytes: &[u8])
        requires
            old(self)@.len() + bytes@.len() <= isize::MAX,
        ensures
            final(self)@ == old(self)@ + bytes@,
    {
        buffer_extend(&mut self.buffer, bytes);
    }

    /// Appends the UTF-8 encoding of one character.
    pub fn push_char(&mut self, c: char)
        requires
            old(self)@.len() + encode_utf8(seq![c]).len() <= isize::MAX,
        ensures
            final(self)@ == old(self)@ + encode_utf8(seq![c]),
    {
        let text = char_text(c);
        buffer_extend(&mut self.buffer, text.as_str().as_bytes());
    }

    pub fn len(&self) -> (r: usize)
        ensures
            r == self@.len(),
    {
        buffer_len(&self.buffer)
    }

    pub fn is_empty(&self) -> (r: bool)
        ensures
            r == (self@.len() == 0),
    {
        buffer_len(&self.buffer) == 0
    }

    pub fn clear(&mut self)
        ensures
            final(self)@ == Seq::<u8>::empty(),
    {
        buffer_clear(&mut self.buffer);
    }

    /// Hands out the buffer with what was assembled.
    pub fn finish(self) -> (r: BytesMut)
        ensures
            buffer_bytes(r) == self@,
    {
        self.buffer
    }

    pub fn as_bytes(&self) -> (r: &[u8])
        ensures
            r@ == self@,
    {
        buffer_as_slice(&self.buffer)
    }

    /// Makes room for `additional` more bytes. What is assembled stays.
    pub fn reserve(&mut self, additional: usize)
        requires
            old(self)@.len() + additional <= isize::MAX,
        ensures
            final(self)@ == old(self)@,
    {
        buffer_reserve(&mut self.buffer, additional);
    }

    /// Appends all the parts, in their order.
    pub fn fast_bulk_copy(&mut self, sources: &[&[u8]])
        requires
            old(self)@.len() + flattened(sources@).len() <= isize::MAX,
        ensures
            final(self)@ == old(self)@ + flattened(sources@),
    {
        let mut i: usize = 0;
        assert(sources@.subrange(0, 0) == Seq::<&[u8]>::empty());
        assert(self@ + Seq::<u8>::empty() == self@);
        while i < sources.len()
            invariant
                i <= sources.len(),
                old(self)@.len() + flattened(sources@).len() <= isize::MAX,
                self@ == old(self)@ + flattened(sources@.subrange(0, i as int)),
            decreases sources.len() - i,
        {
            proof {
                let next = sources@.subrange(0, i + 1);
                assert(next.drop_last() == sources@.subrange(0, i as int));
                assert(next.last() == sources@[i as int]);
                lemma_flattened_prefix_len(sources@, i + 1);
            }
            buffer_extend(&mut self.buffer, sources[i]);
            assert(self@ == old(self)@ + (flattened(sources@.subrange(0, i as int))
                + sources@[i as int]@));
            i = i + 1;
        }
        assert(sources@.subrange(0, sources@.len() as int) == sources@);
    }
}

impl Default for FastStringBuilder {
    fn default() -> (r: Self)
        ensures
            r@ == Seq::<u8>::empty(),
    {
        FastStringBuilder::with_capacity(1024)
    }
}

/// The number of bytes that are kept inline.
pub const INLINE_ROOM: usize = 24;

/// Bytes of which the first twenty-four are kept inline, without an
/// allocation.
#[derive(Debug)]
#[verifier::external_body]
pub struct InlineBytes {
    inner: SmallVec<[u8; 24]>,
}

/// The bytes held, first to last.
pub uninterp spec fn inline_bytes(bytes: InlineBytes) -> Seq<u8>;

impl InlineBytes {
    /// `SmallVec::new`: no bytes.
    #[verifier::external_body]
    pub(crate) fn new() -> (r: Self)
        ensures
            inline_bytes(r) == Seq::<u8>::empty(),
    {
        InlineBytes { inner: SmallVec::new() }
    }

    /// `SmallVec::extend_from_slice`: appends the bytes of the slice.
    #[verifier::external_body]
    pub(crate) fn extend_from_slice(&mut self, slice: &[u8])
        ensures
            inline_bytes(*final(self)) == inline_bytes(*old(self)) + slice@,
    {
        self.inner.extend_from_slice(slice)
    }

    /// `SmallVec::as_slice`: the bytes held.
    #[verifier::external_body]
    pub(crate) fn as_slice(&self) -> (r: &[u8])
        ensures
            r@ == inline_bytes(*self),
    {
        self.inner.as_slice()
    }

    /// `SmallVec::capacity`: the room that is there. It is never less than
    /// the inline room of twenty-four bytes, nor than what is held; how much
    /// more is the allocator's matter.
    #[verifier::external_body]
    pub(crate) fn capacity(&self) -> (r: usize)
        ensures
            r >= INLINE_ROOM,
            r >= inline_bytes(*self).len(),
    {
        self.inner.capacity()
    }

    /// `SmallVec::spilled`: whether the bytes have moved to the heap. Bytes
    /// that have not moved fit the inline room; bytes that fit may have moved
    /// all the same.
    #[verifier::external_body]
    pub(crate) fn spilled(&self) -> (r: bool)
        ensures
            !r ==> inline_bytes(*self).len() <= INLINE_ROOM,
    {
        self.inner.spilled()
    }
}

/// A string that stays off the heap while it is short.
#[derive(Debug)]
pub struct CompactString {
    data: InlineBytes,
}

impl View for CompactString {
    type V = Seq<char>;

    closed spec fn view(&self) -> Seq<char> {
        decode_utf8(inline_bytes(self.data))
    }
}

/// Bytes that are valid UTF-8, followed by the bytes of a text, are the
/// bytes of what the first say followed by the text.
pub proof fn lemma_decode_append(bytes: Seq<u8>, text: Seq<char>)
    requires
        valid_utf8(bytes),
    ensures
        valid_utf8(bytes + encode_utf8(text)),
        decode_utf8(bytes + encode_utf8(text)) == decode_utf8(bytes) + text,
{
    decode_utf8_encode_utf8(bytes);
    lemma_encode_concat(decode_utf8(bytes), text);
    encode_utf8_valid_utf8(decode_utf8(bytes) + text);
    encode_utf8_decode_utf8(decode_utf8(bytes) + text);
}

impl Clone for CompactString {
    fn clone(&self) -> (r: Self)
        ensures
            r@ == self@,
    {
        proof {
            use_type_invariant(self);
        }
        let mut data = InlineBytes::new();
        data.extend_from_slice(self.data.as_slice());
        assert(Seq::<u8>::empty() + inline_bytes(self.data) == inline_bytes(self.data));
        CompactString { data }
    }
}

impl Default for CompactString {
    fn default() -> (r: Self)
        ensures
            r@ == Seq::<char>::empty(),
    {
        CompactString::new()
    }
}

impl PartialEq for CompactString {
    fn eq(&self, other: &Self) -> (r: bool) {
        self.same_as(other)
    }
}

impl vstd::std_specs::cmp::PartialEqSpecImpl for CompactString {
    open spec fn obeys_eq_spec() -> bool {
        true
    }

    open spec fn eq_spec(&self, other: &Self) -> bool {
        self@ == other@
    }
}

impl Eq for CompactString {

}

impl CompactString {
    #[verifier::type_invariant]
    spec fn holds_text(self) -> bool {
        valid_utf8(inline_bytes(self.data))
    }

    /// Whether two strings are the same text.
    pub fn same_as(&self, other: &Self) -> (r: bool)
        ensures
            r == (self@ == other@),
    {
        proof {
            use_type_invariant(self);
            use_type_invariant(other);
            decode_utf8_encode_utf8(inline_bytes(self.data));
            decode_utf8_encode_utf8(inline_bytes(other.data));
        }
        bytes_equal(self.data.as_slice(), other.data.as_slice())
    }

    pub fn new() -> (r: Self)
        ensures
            r@ == Seq::<char>::empty(),
    {
        let r = CompactString { data: InlineBytes::new() };
        assert(decode_utf8(Seq::<u8>::empty()) == Seq::<char>::empty());
        r
    }

    pub fn from_str(s: &str) -> (r: Self)
        ensures
            r@ == s@,
    {
        let mut data = InlineBytes::new();
        data.extend_from_slice(s.as_bytes());
        proof {
            assert(Seq::<u8>::empty() + encode_utf8(s@) == encode_utf8(s@));
            encode_utf8_valid_utf8(s@);
            encode_utf8_decode_utf8(s@);
        }
        CompactString { data }
    }

    pub fn from_static(s: &'static str) -> (r: Self)
        ensures
            r@ == s@,
    {
        CompactString::from_str(s)
    }

    pub fn as_str(&self) -> (r: &str)
        ensures
            r@ == self@,
    {
        proof {
            use_type_invariant(self);
        }
        match str_from_utf8(self.data.as_slice()) {
            Some(text) => {
                proof {
                    encode_utf8_decode_utf8(text@);
                }
                text
            },
            None => "",
        }
    }

    /// The number of bytes the string takes.
    pub fn len(&self) -> (r: usize)
        ensures
            r == encode_utf8(self@).len(),
    {
        proof {
            use_type_invariant(self);
            decode_utf8_encode_utf8(inline_bytes(self.data));
        }
        self.data.as_slice().len()
    }

    pub fn is_empty(&self) -> (r: bool)
        ensures
            r == (self@.len() == 0),
    {
        proof {
            use_type_invariant(self);
            decode_utf8_encode_utf8(inline_bytes(self.data));
            crate::directive::lemma_empty_bytes(self@);
        }
        self.data.as_slice().len() == 0
    }

    /// The room that is there for bytes: at least the inline room, and at
    /// least what the string takes.
    pub fn capacity(&self) -> (r: usize)
        ensures
            r >= INLINE_ROOM,
            r >= encode_utf8(self@).len(),
    {
        proof {
            use_type_invariant(self);
            decode_utf8_encode_utf8(inline_bytes(self.data));
        }
        self.data.capacity()
    }

    pub fn push_str(&mut self, s: &str)
        ensures
            final(self)@ == old(self)@ + s@,
    {
        proof {
            use_type_invariant(&*self);
            lemma_decode_append(inline_bytes(self.data), s@);
        }
        let mut taken = CompactString::new();
        core::mem::swap(self, &mut taken);
        let mut data = taken.data;
        data.extend_from_slice(s.as_bytes());
        *self = CompactString { data };
    }

    pub fn clear(&mut self)
        ensures
            final(self)@ == Seq::<char>::empty(),
    {
        *self = CompactString::new();
    }

    /// Whether the bytes have moved to the heap. A string that has not
    /// moved takes no more than the inline room.
    pub fn is_inline(&self) -> (r: bool)
        ensures
            !r ==> encode_utf8(self@).len() <= INLINE_ROOM,
    {
        proof {
            use_type_invariant(self);
            decode_utf8_encode_utf8(inline_bytes(self.data));
        }
        self.data.spilled()
    }

    /// The string as an owned string.
    pub fn to_string(&self) -> (r: String)
        ensures
            r@ == self@,
    {
        String::from_str(self.as_str())
    }
}

} // verus!
