use vstd::prelude::*;
use vstd::utf8::encode_utf8;
use std::borrow::Cow;
use bytes::BytesMut;
use crate::buffer::buffer_bytes;
use crate::buffer::buffer_extend;
use crate::error::CspError;
use crate::list::source_items;
use crate::list::source_views;
use crate::list::SourceList;
use crate::source::cow_clone;
use crate::source::cow_str;
use crate::source::size_sum;
use crate::source::clamp;
use crate::source::Source;
use crate::source::SourceView;
use crate::utils::lemma_encode_concat;

verus! {

/// A directive as a mathematical value.
pub struct DirectiveView {
    pub name: Seq<char>,
    pub sources: Seq<SourceView>,
    pub fallback: Option<Seq<SourceView>>,
}

/// The sources written one after the other, each behind a space.
pub open spec fn spaced(sources: Seq<SourceView>) -> Seq<char>
    decreases sources.len(),
{
    if sources.len() == 0 {
        Seq::<char>::empty()
    } else {
        spaced(sources.drop_last()) + " "@ + sources.last().text()
    }
}

/// The first source, in order, whose host, scheme, nonce or digest is empty.
pub open spec fn first_empty(sources: Seq<SourceView>) -> Option<SourceView>
    decreases sources.len(),
{
    if sources.len() == 0 {
        None
    } else if sources[0].has_empty_text() {
        Some(sources[0])
    } else {
        first_empty(sources.drop_first())
    }
}

/// The sources after `source` was added: `'none'` stands alone, whichever
/// came last wins, and a source that is already there is not added again.
pub open spec fn with_source(sources: Seq<SourceView>, source: SourceView) -> Seq<SourceView> {
    if source is None_ {
        seq![source]
    } else if sources.len() > 0 && sources[0] is None_ {
        seq![source]
    } else if sources.contains(source) {
        sources
    } else {
        sources.push(source)
    }
}

/// The sources after each of `added` was added in turn.
pub open spec fn with_sources(sources: Seq<SourceView>, added: Seq<SourceView>) -> Seq<SourceView>
    decreases added.len(),
{
    if added.len() == 0 {
        sources
    } else {
        with_source(with_sources(sources, added.drop_last()), added.last())
    }
}

/// Whether `'none'`, if it occurs, is the only source.
pub open spec fn none_stands_alone(sources: Seq<SourceView>) -> bool {
    forall|i: int| 0 <= i < sources.len() && #[trigger] sources[i] is None_ ==> sources.len() == 1
}

/// Adding a source keeps `'none'` alone: a list in which `'none'` is the only
/// source, or does not occur, is such a list again after any addition.
pub proof fn lemma_with_source_keeps_none_alone(sources: Seq<SourceView>, source: SourceView)
    requires
        none_stands_alone(sources),
    ensures
        none_stands_alone(with_source(sources, source)),
{
    let after = with_source(sources, source);
    assert forall|i: int| 0 <= i < after.len() && #[trigger] after[i] is None_ implies after.len()
        == 1 by {
        if source is None_ {
        } else if sources.len() > 0 && sources[0] is None_ {
        } else if sources.contains(source) {
        } else {
            if i < sources.len() {
                assert(sources[i] is None_);
                assert(sources.len() == 1);
                assert(sources[0] is None_);
            }
        }
    }
}

/// Adding `'none'` leaves it as the only source, whatever was there; adding
/// anything else to a list that holds only `'none'` replaces it.
pub proof fn lemma_none_collapse(sources: Seq<SourceView>, source: SourceView)
    ensures
        with_source(sources, SourceView::None_) == seq![SourceView::None_],
        !(source is None_) ==> with_source(seq![SourceView::None_], source) == seq![source],
{
}

impl DirectiveView {
    /// The fallback sources, none where the directive has no such list.
    pub open spec fn fallback_list(self) -> Seq<SourceView> {
        match self.fallback {
            Some(list) => list,
            None => Seq::<SourceView>::empty(),
        }
    }

    /// The directive as it is written in a header: its name, then each source
    /// behind a space, then each fallback source behind a space.
    pub open spec fn text(self) -> Seq<char> {
        self.name + spaced(self.sources) + spaced(self.fallback_list())
    }

    /// The number of bytes the written directive takes.
    pub open spec fn byte_len(self) -> nat {
        encode_utf8(self.text()).len()
    }

    /// Whether `'none'` stands beside another source.
    pub open spec fn has_none_with_others(self) -> bool {
        self.sources.len() > 1 && exists|i: int|
            0 <= i < self.sources.len() && #[trigger] self.sources[i] is None_
    }

    /// What is wrong with the directive, if anything: `'none'` beside other
    /// sources, or else the first source with an empty text.
    pub open spec fn validation_error(self) -> Option<Seq<char>> {
        if self.has_none_with_others() {
            Some("Directive '"@ + self.name + "' contains 'none' with other sources"@)
        } else {
            match first_empty(self.sources) {
                Some(SourceView::Host(_)) => Some(
                    "Directive '"@ + self.name + "' contains empty host"@,
                ),
                Some(SourceView::Scheme(_)) => Some(
                    "Directive '"@ + self.name + "' contains empty scheme"@,
                ),
                Some(SourceView::Nonce(_)) => Some(
                    "Directive '"@ + self.name + "' contains empty nonce"@,
                ),
                Some(SourceView::Hash { .. }) => Some(
                    "Directive '"@ + self.name + "' contains empty hash"@,
                ),
                _ => None,
            }
        }
    }

    pub open spec fn contains_nonce(self) -> bool {
        exists|i: int| 0 <= i < self.sources.len() && #[trigger] self.sources[i] is Nonce
    }

    pub open spec fn contains_hash(self) -> bool {
        exists|i: int| 0 <= i < self.sources.len() && #[trigger] self.sources[i] is Hash
    }
}

/// The number of bytes a text takes in UTF-8.
pub open spec fn text_len(text: Seq<char>) -> nat {
    encode_utf8(text).len()
}

/// The length of a written run of sources is the sum of the lengths of its
/// parts.
pub proof fn lemma_spaced_push(sources: Seq<SourceView>, source: SourceView)
    ensures
        spaced(sources.push(source)) == spaced(sources) + " "@ + source.text(),
        encode_utf8(spaced(sources.push(source))) == encode_utf8(spaced(sources)) + encode_utf8(
            " "@,
        ) + encode_utf8(source.text()),
        text_len(spaced(sources.push(source))) == text_len(spaced(sources)) + text_len(" "@)
            + source.byte_len(),
{
    let grown = sources.push(source);
    assert(grown.drop_last() == sources);
    assert(grown.last() == source);
    lemma_encode_concat(spaced(sources), " "@);
    lemma_encode_concat(spaced(sources) + " "@, source.text());
}

/// The bytes of a written directive are those of its three parts.
pub proof fn lemma_directive_text(view: DirectiveView)
    ensures
        encode_utf8(view.text()) == encode_utf8(view.name) + encode_utf8(spaced(view.sources))
            + encode_utf8(spaced(view.fallback_list())),
        view.byte_len() == text_len(view.name) + text_len(spaced(view.sources)) + text_len(
            spaced(view.fallback_list()),
        ),
{
    lemma_encode_concat(view.name, spaced(view.sources));
    lemma_encode_concat(view.name + spaced(view.sources), spaced(view.fallback_list()));
}

/// Where no source before position `at` has an empty text, the first empty
/// source of the whole list is the first one from `at` on.
pub proof fn lemma_first_empty_skip(sources: Seq<SourceView>, at: int)
    requires
        0 <= at <= sources.len(),
        forall|j: int| 0 <= j < at ==> !(#[trigger] sources[j]).has_empty_text(),
    ensures
        first_empty(sources) == first_empty(sources.subrange(at, sources.len() as int)),
    decreases at,
{
    if at == 0 {
        assert(sources.subrange(0, sources.len() as int) == sources);
    } else {
        let rest = sources.drop_first();
        assert forall|j: int| 0 <= j < at - 1 implies !(#[trigger] rest[j]).has_empty_text() by {
            assert(rest[j] == sources[j + 1]);
        }
        lemma_first_empty_skip(rest, at - 1);
        assert(rest.subrange(at - 1, rest.len() as int) == sources.subrange(
            at,
            sources.len() as int,
        ));
    }
}

/// A named rule: the name, the sources it admits in the order in which they
/// were added, and an optional list of fallback sources that is written
/// behind them.
#[derive(Debug, Hash)]
pub struct Directive {
    name: Cow<'static, str>,
    sources: SourceList,
    fallback_sources: Option<SourceList>,
}

impl View for Directive {
    type V = DirectiveView;

    closed spec fn view(&self) -> DirectiveView {
        DirectiveView {
            name: self.name@,
            sources: self.sources@,
            fallback: match self.fallback_sources {
                Some(list) => Some(list@),
                None => None,
            },
        }
    }
}

/// A copy of a list, source by source.
fn clone_list(list: &SourceList) -> (r: SourceList)
    ensures
        r@ == list@,
{
    let items = list.as_slice();
    let mut copy = SourceList::new();
    let mut i: usize = 0;
    while i < items.len()
        invariant
            i <= items.len(),
            items@ == source_items(*list),
            copy@ == source_views(items@.subrange(0, i as int)),
        decreases items.len() - i,
    {
        let source = items[i].clone();
        copy.push(source);
        assert(source_views(items@.subrange(0, i + 1)) == source_views(
            items@.subrange(0, i as int),
        ).push(items@[i as int]@));
        i = i + 1;
    }
    assert(items@.subrange(0, items@.len() as int) == items@);
    copy
}

/// Writes each source behind a space.
fn write_spaced(items: &[Source], buffer: &mut BytesMut)
    requires
        buffer_bytes(*old(buffer)).len() + text_len(spaced(source_views(items@))) <= isize::MAX,
    ensures
        buffer_bytes(*final(buffer)) == buffer_bytes(*old(buffer)) + encode_utf8(
            spaced(source_views(items@)),
        ),
{
    let ghost views = source_views(items@);
    let mut i: usize = 0;
    assert(views.subrange(0, 0) == Seq::<SourceView>::empty());
    assert(encode_utf8(spaced(views.subrange(0, 0))) == Seq::<u8>::empty());
    assert(buffer_bytes(*buffer) + Seq::<u8>::empty() == buffer_bytes(*buffer));
    while i < items.len()
        invariant
            i <= items.len(),
            views == source_views(items@),
            buffer_bytes(*old(buffer)).len() + text_len(spaced(views)) <= isize::MAX,
            buffer_bytes(*buffer) == buffer_bytes(*old(buffer)) + encode_utf8(
                spaced(views.subrange(0, i as int)),
            ),
        decreases items.len() - i,
    {
        proof {
            let done = views.subrange(0, i as int);
            assert(views.subrange(0, i + 1) == done.push(views[i as int]));
            lemma_spaced_push(done, views[i as int]);
            lemma_spaced_prefix_len(views, i + 1);
        }
        buffer_extend(buffer, " ".as_bytes());
        items[i].write_to_buffer(buffer);
        i = i + 1;
    }
    assert(views.subrange(0, views.len() as int) == views);
}

/// A written prefix of a run of sources is no longer than the whole run.
pub proof fn lemma_spaced_prefix_len(sources: Seq<SourceView>, upto: int)
    requires
        0 <= upto <= sources.len(),
    ensures
        text_len(spaced(sources.subrange(0, upto))) <= text_len(spaced(sources)),
    decreases sources.len() - upto,
{
    if upto == sources.len() {
        assert(sources.subrange(0, upto) == sources);
    } else {
        lemma_spaced_prefix_len(sources, upto + 1);
        let done = sources.subrange(0, upto);
        assert(sources.subrange(0, upto + 1) == done.push(sources[upto]));
        lemma_spaced_push(done, sources[upto]);
    }
}

/// The number of bytes a written run of sources takes, held at `usize::MAX`.
fn spaced_size(items: &[Source]) -> (r: usize)
    ensures
        r == clamp(text_len(spaced(source_views(items@)))),
{
    let ghost views = source_views(items@);
    let mut size: usize = 0;
    let mut i: usize = 0;
    assert(views.subrange(0, 0) == Seq::<SourceView>::empty());
    assert(encode_utf8(spaced(views.subrange(0, 0))) == Seq::<u8>::empty());
    while i < items.len()
        invariant
            i <= items.len(),
            views == source_views(items@),
            size == clamp(text_len(spaced(views.subrange(0, i as int)))),
        decreases items.len() - i,
    {
        proof {
            let done = views.subrange(0, i as int);
            assert(views.subrange(0, i + 1) == done.push(views[i as int]));
            lemma_spaced_push(done, views[i as int]);
        }
        size = size_sum(size_sum(size, " ".as_bytes().len()), items[i].estimated_size());
        i = i + 1;
    }
    assert(views.subrange(0, views.len() as int) == views);
    size
}

impl Clone for Directive {
    fn clone(&self) -> (r: Self)
        ensures
            r@ == self@,
    {
        Directive {
            name: cow_clone(&self.name),
            sources: clone_list(&self.sources),
            fallback_sources: match &self.fallback_sources {
                Some(list) => Some(clone_list(list)),
                None => None,
            },
        }
    }
}

/// Whether two runs of sources are the same, source by source.
fn same_sources(a: &[Source], b: &[Source]) -> (r: bool)
    ensures
        r == (source_views(a@) == source_views(b@)),
{
    let ghost va = source_views(a@);
    let ghost vb = source_views(b@);
    if a.len() != b.len() {
        assert(va.len() != vb.len());
        return false;
    }
    let mut i: usize = 0;
    while i < a.len()
        invariant
            i <= a.len(),
            a.len() == b.len(),
            va == source_views(a@),
            vb == source_views(b@),
            forall|j: int| 0 <= j < i ==> va[j] == vb[j],
        decreases a.len() - i,
    {
        if !a[i].same_as(&b[i]) {
            assert(va[i as int] != vb[i as int]);
            return false;
        }
        i = i + 1;
    }
    assert(va =~= vb);
    true
}

impl PartialEq for Directive {
    fn eq(&self, other: &Self) -> (r: bool) {
        if !crate::utils::fast_string_compare(cow_str(&self.name), cow_str(&other.name)) {
            return false;
        }
        if !same_sources(self.sources.as_slice(), other.sources.as_slice()) {
            return false;
        }
        match &self.fallback_sources {
            Some(mine) => match &other.fallback_sources {
                Some(theirs) => same_sources(mine.as_slice(), theirs.as_slice()),
                None => false,
            },
            None => other.fallback_sources.is_none(),
        }
    }
}

impl vstd::std_specs::cmp::PartialEqSpecImpl for Directive {
    open spec fn obeys_eq_spec() -> bool {
        true
    }

    open spec fn eq_spec(&self, other: &Self) -> bool {
        self@ == other@
    }
}

impl Eq for Directive {

}

impl Default for Directive {
    fn default() -> (r: Self)
        ensures
            r@ == (DirectiveView {
                name: Seq::<char>::empty(),
                sources: Seq::<SourceView>::empty(),
                fallback: None,
            }),
    {
        let r = Directive {
            name: Cow::Owned(String::new()),
            sources: SourceList::new(),
            fallback_sources: None,
        };
        assert(r.sources@ == Seq::<SourceView>::empty());
        r
    }
}

impl Directive {
    /// A directive of the given name that admits nothing yet.
    pub fn new(name: &str) -> (r: Self)
        ensures
            r@ == (DirectiveView {
                name: name@,
                sources: Seq::<SourceView>::empty(),
                fallback: None,
            }),
    {
        let r = Directive {
            name: Cow::Owned(name.to_owned()),
            sources: SourceList::new(),
            fallback_sources: None,
        };
        assert(r.sources@ == Seq::<SourceView>::empty());
        r
    }

    /// Adds one source. `'none'` replaces whatever is there, anything else
    /// replaces `'none'`, and a source that is already there is left out.
    pub fn add_source(&mut self, source: Source) -> (ret: &mut Self)
        ensures
            ret@ == (DirectiveView {
                sources: with_source(old(self)@.sources, source@),
                ..old(self)@
            }),
            *final(self) == *final(ret),
    {
        let ghost before = self.sources@;
        if source.is_none() {
            self.sources.clear();
            self.sources.push(source);
            assert(self.sources@ == seq![source@]);
        } else if self.first_is_none() {
            self.sources.clear();
            self.sources.push(source);
            assert(self.sources@ == seq![source@]);
        } else if !self.holds(&source) {
            self.sources.push(source);
            assert(self.sources@ == before.push(source@));
        }
        self
    }

    /// Whether the first source is `'none'`.
    fn first_is_none(&self) -> (r: bool)
        ensures
            r == (self@.sources.len() > 0 && self@.sources[0] is None_),
    {
        let items = self.sources.as_slice();
        items.len() > 0 && items[0].is_none()
    }

    /// Whether an equal source is already among the sources.
    fn holds(&self, source: &Source) -> (r: bool)
        ensures
            r == self@.sources.contains(source@),
    {
        let items = self.sources.as_slice();
        let ghost views = source_views(items@);
        let mut i: usize = 0;
        while i < items.len()
            invariant
                i <= items.len(),
                views == source_views(items@),
                views == self@.sources,
                forall|j: int| 0 <= j < i ==> views[j] != source@,
            decreases items.len() - i,
        {
            if items[i].same_as(source) {
                assert(views[i as int] == source@);
                return true;
            }
            i = i + 1;
        }
        false
    }

    /// Adds each of the sources in turn, as `add_source` does.
    pub fn add_sources<const N: usize>(&mut self, sources: [Source; N]) -> (ret: &mut Self)
        ensures
            ret@ == (DirectiveView {
                sources: with_sources(old(self)@.sources, source_views(sources@)),
                ..old(self)@
            }),
            *final(self) == *final(ret),
    {
        let ghost added = source_views(sources@);
        let mut i: usize = 0;
        assert(added.subrange(0, 0) == Seq::<SourceView>::empty());
        while i < N
            invariant
                i <= N,
                added == source_views(sources@),
                self@ == (DirectiveView {
                    sources: with_sources(old(self)@.sources, added.subrange(0, i as int)),
                    ..old(self)@
                }),
            decreases N - i,
        {
            let source = sources[i].clone();
            proof {
                let upto = added.subrange(0, i + 1);
                assert(upto.drop_last() == added.subrange(0, i as int));
                assert(upto.last() == source@);
            }
            self.add_source(source);
            i = i + 1;
        }
        assert(added.subrange(0, N as int) == added);
        self
    }

    /// Appends the sources to the fallback list, which is created where the
    /// directive has none. Nothing is collapsed or left out here.
    pub fn add_fallback_sources<const N: usize>(&mut self, sources: [Source; N]) -> (ret: &mut Self)
        ensures
            ret@ == (DirectiveView {
                fallback: Some(old(self)@.fallback_list() + source_views(sources@)),
                ..old(self)@
            }),
            *final(self) == *final(ret),
    {
        let ghost added = source_views(sources@);
        let ghost before = self@.fallback_list();
        let mut list = match self.fallback_sources.take() {
            Some(list) => list,
            None => SourceList::new(),
        };
        assert(list@ == before);
        let mut i: usize = 0;
        assert(added.subrange(0, 0) == Seq::<SourceView>::empty());
        while i < N
            invariant
                i <= N,
                added == source_views(sources@),
                list@ == before + added.subrange(0, i as int),
            decreases N - i,
        {
            let source = sources[i].clone();
            list.push(source);
            assert(before + added.subrange(0, i + 1) == (before + added.subrange(
                0,
                i as int,
            )).push(source@));
            i = i + 1;
        }
        assert(added.subrange(0, N as int) == added);
        self.fallback_sources = Some(list);
        self
    }

    pub fn name(&self) -> (r: &str)
        ensures
            r@ == self@.name,
    {
        cow_str(&self.name)
    }

    pub fn sources(&self) -> (r: &[Source])
        ensures
            source_views(r@) == self@.sources,
    {
        self.sources.as_slice()
    }

    pub fn fallback_sources(&self) -> (r: Option<&[Source]>)
        ensures
            match r {
                Some(list) => self@.fallback == Some(source_views(list@)),
                None => self@.fallback is None,
            },
    {
        match &self.fallback_sources {
            Some(list) => Some(list.as_slice()),
            None => None,
        }
    }

    /// Checks the directive. It is refused where `'none'` stands beside
    /// another source, and else where a host, scheme, nonce or digest is
    /// empty; the error names the directive and, of those, the first.
    pub fn validate(&self) -> (r: Result<(), CspError>)
        ensures
            match r {
                Ok(_) => self@.validation_error() is None,
                Err(e) => e matches CspError::ValidationError(message) && Some(message@)
                    == self@.validation_error(),
            },
    {
        let items = self.sources.as_slice();
        let ghost views = source_views(items@);
        if items.len() > 1 && self.holds_none() {
            return Err(CspError::ValidationError(self.complaint("' contains 'none' with other sources")));
        }
        let mut i: usize = 0;
        while i < items.len()
            invariant
                i <= items.len(),
                views == source_views(items@),
                views == self@.sources,
                !self@.has_none_with_others(),
                forall|j: int| 0 <= j < i ==> !(#[trigger] views[j]).has_empty_text(),
            decreases items.len() - i,
        {
            proof {
                lemma_first_empty_skip(views, i as int);
                let rest = views.subrange(i as int, views.len() as int);
                assert(rest[0] == views[i as int]);
            }
            match &items[i] {
                Source::Host(host) => {
                    if cow_str(host).as_bytes().len() == 0 {
                        proof {
                            lemma_empty_bytes(host@);
                        }
                        return Err(CspError::ValidationError(self.complaint("' contains empty host")));
                    }
                    proof {
                        lemma_empty_bytes(host@);
                    }
                },
                Source::Scheme(scheme) => {
                    if cow_str(scheme).as_bytes().len() == 0 {
                        proof {
                            lemma_empty_bytes(scheme@);
                        }
                        return Err(CspError::ValidationError(self.complaint("' contains empty scheme")));
                    }
                    proof {
                        lemma_empty_bytes(scheme@);
                    }
                },
                Source::Nonce(nonce) => {
                    if cow_str(nonce).as_bytes().len() == 0 {
                        proof {
                            lemma_empty_bytes(nonce@);
                        }
                        return Err(CspError::ValidationError(self.complaint("' contains empty nonce")));
                    }
                    proof {
                        lemma_empty_bytes(nonce@);
                    }
                },
                Source::Hash { algorithm, value } => {
                    if cow_str(value).as_bytes().len() == 0 {
                        proof {
                            lemma_empty_bytes(value@);
                        }
                        return Err(CspError::ValidationError(self.complaint("' contains empty hash")));
                    }
                    proof {
                        lemma_empty_bytes(value@);
                    }
                },
                _ => {},
            }
            i = i + 1;
        }
        proof {
            lemma_first_empty_skip(views, views.len() as int);
            assert(views.subrange(views.len() as int, views.len() as int) == Seq::<
                SourceView,
            >::empty());
        }
        Ok(())
    }

    /// Whether `'none'` is among the sources.
    fn holds_none(&self) -> (r: bool)
        ensures
            r == exists|i: int|
                0 <= i < self@.sources.len() && #[trigger] self@.sources[i] is None_,
    {
        let items = self.sources.as_slice();
        let ghost views = source_views(items@);
        let mut i: usize = 0;
        while i < items.len()
            invariant
                i <= items.len(),
                views == source_views(items@),
                views == self@.sources,
                forall|j: int| 0 <= j < i ==> !(#[trigger] views[j] is None_),
            decreases items.len() - i,
        {
            if items[i].is_none() {
                assert(views[i as int] is None_);
                return true;
            }
            i = i + 1;
        }
        false
    }

    /// The words of a complaint about this directive.
    fn complaint(&self, what: &str) -> (r: String)
        ensures
            r@ == "Directive '"@ + self@.name + what@,
    {
        let mut out = String::from_str("Directive '");
        out.append(cow_str(&self.name));
        out.append(what);
        out
    }

    /// The number of bytes the written directive takes, held at `usize::MAX`.
    pub fn estimated_size(&self) -> (r: usize)
        ensures
            r == clamp(self@.byte_len()),
    {
        proof {
            lemma_directive_text(self@);
        }
        let mut size = cow_str(&self.name).as_bytes().len();
        size = size_sum(size, spaced_size(self.sources.as_slice()));
        match &self.fallback_sources {
            Some(list) => {
                size = size_sum(size, spaced_size(list.as_slice()));
            },
            None => {
                assert(encode_utf8(spaced(Seq::<SourceView>::empty())) == Seq::<u8>::empty());
            },
        }
        size
    }

    pub fn contains_nonce(&self) -> (r: bool)
        ensures
            r == self@.contains_nonce(),
    {
        let items = self.sources.as_slice();
        let ghost views = source_views(items@);
        let mut i: usize = 0;
        while i < items.len()
            invariant
                i <= items.len(),
                views == source_views(items@),
                views == self@.sources,
                forall|j: int| 0 <= j < i ==> !(#[trigger] views[j] is Nonce),
            decreases items.len() - i,
        {
            if items[i].contains_nonce() {
                assert(views[i as int] is Nonce);
                return true;
            }
            i = i + 1;
        }
        false
    }

    pub fn contains_hash(&self) -> (r: bool)
        ensures
            r == self@.contains_hash(),
    {
        let items = self.sources.as_slice();
        let ghost views = source_views(items@);
        let mut i: usize = 0;
        while i < items.len()
            invariant
                i <= items.len(),
                views == source_views(items@),
                views == self@.sources,
                forall|j: int| 0 <= j < i ==> !(#[trigger] views[j] is Hash),
            decreases items.len() - i,
        {
            if items[i].contains_hash() {
                assert(views[i as int] is Hash);
                return true;
            }
            i = i + 1;
        }
        false
    }

    /// Appends the written directive to the buffer.
    pub fn write_to_buffer(&self, buffer: &mut BytesMut)
        requires
            buffer_bytes(*old(buffer)).len() + self@.byte_len() <= isize::MAX,
        ensures
            buffer_bytes(*final(buffer)) == buffer_bytes(*old(buffer)) + encode_utf8(self@.text()),
    {
        proof {
            lemma_directive_text(self@);
        }
        buffer_extend(buffer, cow_str(&self.name).as_bytes());
        write_spaced(self.sources.as_slice(), buffer);
        match &self.fallback_sources {
            Some(list) => {
                write_spaced(list.as_slice(), buffer);
            },
            None => {
                assert(encode_utf8(spaced(Seq::<SourceView>::empty())) == Seq::<u8>::empty());
            },
        }
        assert(buffer_bytes(*buffer) == buffer_bytes(*old(buffer)) + (encode_utf8(self@.name)
            + encode_utf8(spaced(self@.sources)) + encode_utf8(spaced(self@.fallback_list()))));
    }

    /// The directive as it is written in a header.
    pub fn to_string(&self) -> (r: String)
        ensures
            r@ == self@.text(),
    {
        let mut out = String::from_str(cow_str(&self.name));
        append_spaced(&mut out, self.sources.as_slice());
        match &self.fallback_sources {
            Some(list) => {
                append_spaced(&mut out, list.as_slice());
            },
            None => {
                assert(out@ + spaced(Seq::<SourceView>::empty()) == out@);
            },
        }
        out
    }
}

/// Appends each source behind a space.
fn append_spaced(out: &mut String, items: &[Source])
    ensures
        final(out)@ == old(out)@ + spaced(source_views(items@)),
{
    let ghost views = source_views(items@);
    let mut i: usize = 0;
    assert(views.subrange(0, 0) == Seq::<SourceView>::empty());
    assert(out@ + spaced(views.subrange(0, 0)) == out@);
    while i < items.len()
        invariant
            i <= items.len(),
            views == source_views(items@),
            out@ == old(out)@ + spaced(views.subrange(0, i as int)),
        decreases items.len() - i,
    {
        proof {
            let done = views.subrange(0, i as int);
            assert(views.subrange(0, i + 1) == done.push(views[i as int]));
            lemma_spaced_push(done, views[i as int]);
        }
        out.append(" ");
        let text = items[i].to_string();
        out.append(text.as_str());
        assert(out@ == old(out)@ + (spaced(views.subrange(0, i as int)) + " "@ + views[i as int].text()));
        i = i + 1;
    }
    assert(views.subrange(0, views.len() as int) == views);
}

/// A text is empty exactly when it takes no bytes.
pub proof fn lemma_empty_bytes(text: Seq<char>)
    ensures
        (encode_utf8(text).len() == 0) == (text.len() == 0),
{
    if text.len() > 0 {
        vstd::utf8::encode_utf8_first_scalar(text);
        vstd::utf8::encode_utf8_valid_utf8(text);
    }
}

} // verus!
