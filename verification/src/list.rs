use vstd::prelude::*;
use smallvec::SmallVec;
use crate::source::Source;
use crate::source::SourceView;

verus! {

/// The sources of a directive, in the order in which they were added. The
/// first few are kept inline, without an allocation.
#[derive(Debug, Hash)]
#[verifier::external_body]
pub struct SourceList {
    inner: SmallVec<[Source; 4]>,
}

/// The sources a list holds, first to last.
pub uninterp spec fn source_items(list: SourceList) -> Seq<Source>;

/// The mathematical values of a run of sources.
pub open spec fn source_views(items: Seq<Source>) -> Seq<SourceView> {
    items.map_values(|source: Source| source@)
}

impl View for SourceList {
    type V = Seq<SourceView>;

    open spec fn view(&self) -> Seq<SourceView> {
        source_views(source_items(*self))
    }
}

impl SourceList {
    /// `SmallVec::new`: a list that holds nothing.
    #[verifier::external_body]
    pub(crate) fn new() -> (r: Self)
        ensures
            source_items(r) == Seq::<Source>::empty(),
    {
        SourceList { inner: SmallVec::new() }
    }

    /// `SmallVec::push`: appends one source behind the others.
    #[verifier::external_body]
    pub(crate) fn push(&mut self, source: Source)
        ensures
            source_items(*final(self)) == source_items(*old(self)).push(source),
    {
        self.inner.push(source)
    }

    /// `SmallVec::clear`: removes every source.
    #[verifier::external_body]
    pub(crate) fn clear(&mut self)
        ensures
            source_items(*final(self)) == Seq::<Source>::empty(),
    {
        self.inner.clear()
    }

    /// `SmallVec::as_slice`: the sources held, first to last.
    #[verifier::external_body]
    pub(crate) fn as_slice(&self) -> (r: &[Source])
        ensures
            r@ == source_items(*self),
    {
        self.inner.as_slice()
    }
}

} // verus!
