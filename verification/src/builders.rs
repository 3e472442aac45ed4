use vstd::prelude::*;
use std::borrow::Cow;
use crate::directive::with_source;
use crate::directive::with_sources;
use crate::directive::Directive;
use crate::directive::DirectiveView;
use crate::list::source_views;
use crate::source::Source;
use crate::source::SourceView;
use crate::utils::fast_string_compare;

verus! {

/// A directive that has a name and nothing else.
pub open spec fn bare_directive(name: Seq<char>) -> DirectiveView {
    DirectiveView { name, sources: Seq::<SourceView>::empty(), fallback: None }
}

/// A builder for one of the named directives. The builder owns the directive
/// it is filling and hands it out with `build`.
pub trait DirectiveSpec: Sized {
    /// The name of the directive that `new` starts.
    const NAME: &'static str;

    /// The directive as filled so far.
    spec fn inner(&self) -> Directive;

    fn inner_mut(&mut self) -> (r: &mut Directive)
        ensures
            *r == old(self).inner(),
            final(self).inner() == *final(r),
    ;

    fn build(self) -> (r: Directive)
        ensures
            r == self.inner(),
    ;

    fn add_source(self, source: Source) -> (r: Self)
        ensures
            r.inner()@ == (DirectiveView {
                sources: with_source(self.inner()@.sources, source@),
                ..self.inner()@
            }),
    {
        let mut this = self;
        this.inner_mut().add_source(source);
        this
    }

    fn add_sources<const N: usize>(self, sources: [Source; N]) -> (r: Self)
        ensures
            r.inner()@ == (DirectiveView {
                sources: with_sources(self.inner()@.sources, source_views(sources@)),
                ..self.inner()@
            }),
    {
        let mut this = self;
        this.inner_mut().add_sources(sources);
        this
    }

    fn fallback_sources<const N: usize>(self, sources: [Source; N]) -> (r: Self)
        ensures
            r.inner()@ == (DirectiveView {
                fallback: Some(self.inner()@.fallback_list() + source_views(sources@)),
                ..self.inner()@
            }),
    {
        let mut this = self;
        this.inner_mut().add_fallback_sources(sources);
        this
    }
}

/// Builds the `default-src` directive.
#[derive(Debug, Default)]
pub struct DefaultSrc {
    directive: Directive,
}

impl DefaultSrc {
    pub fn new() -> (r: Self)
        ensures
            r.inner()@ == bare_directive("default-src"@),
    {
        DefaultSrc { directive: Directive::new("default-src") }
    }
}

impl Clone for DefaultSrc {
    fn clone(&self) -> (r: Self)
        ensures
            r.inner()@ == self.inner()@,
    {
        DefaultSrc { directive: self.directive.clone() }
    }
}

impl DirectiveSpec for DefaultSrc {
    const NAME: &'static str = "default-src";

    closed spec fn inner(&self) -> Directive {
        self.directive
    }

    fn inner_mut(&mut self) -> (r: &mut Directive) {
        &mut self.directive
    }

    fn build(self) -> (r: Directive) {
        self.directive
    }
}

/// Builds the `script-src` directive.
#[derive(Debug, Default)]
pub struct ScriptSrc {
    directive: Directive,
}

impl ScriptSrc {
    pub fn new() -> (r: Self)
        ensures
            r.inner()@ == bare_directive("script-src"@),
    {
        ScriptSrc { directive: Directive::new("script-src") }
    }
}

impl Clone for ScriptSrc {
    fn clone(&self) -> (r: Self)
        ensures
            r.inner()@ == self.inner()@,
    {
        ScriptSrc { directive: self.directive.clone() }
    }
}

impl DirectiveSpec for ScriptSrc {
    const NAME: &'static str = "script-src";

    closed spec fn inner(&self) -> Directive {
        self.directive
    }

    fn inner_mut(&mut self) -> (r: &mut Directive) {
        &mut self.directive
    }

    fn build(self) -> (r: Directive) {
        self.directive
    }
}

/// Builds the `style-src` directive.
#[derive(Debug, Default)]
pub struct StyleSrc {
    directive: Directive,
}

impl StyleSrc {
    pub fn new() -> (r: Self)
        ensures
            r.inner()@ == bare_directive("style-src"@),
    {
        StyleSrc { directive: Directive::new("style-src") }
    }
}

impl Clone for StyleSrc {
    fn clone(&self) -> (r: Self)
        ensures
            r.inner()@ == self.inner()@,
    {
        StyleSrc { directive: self.directive.clone() }
    }
}

impl DirectiveSpec for StyleSrc {
    const NAME: &'static str = "style-src";

    closed spec fn inner(&self) -> Directive {
        self.directive
    }

    fn inner_mut(&mut self) -> (r: &mut Directive) {
        &mut self.directive
    }

    fn build(self) -> (r: Directive) {
        self.directive
    }
}

/// Builds the `img-src` directive.
#[derive(Debug, Default)]
pub struct ImgSrc {
    directive: Directive,
}

impl ImgSrc {
    pub fn new() -> (r: Self)
        ensures
            r.inner()@ == bare_directive("img-src"@),
    {
        ImgSrc { directive: Directive::new("img-src") }
    }
}

impl Clone for ImgSrc {
    fn clone(&self) -> (r: Self)
        ensures
            r.inner()@ == self.inner()@,
    {
        ImgSrc { directive: self.directive.clone() }
    }
}

impl DirectiveSpec for ImgSrc {
    const NAME: &'static str = "img-src";

    closed spec fn inner(&self) -> Directive {
        self.directive
    }

    fn inner_mut(&mut self) -> (r: &mut Directive) {
        &mut self.directive
    }

    fn build(self) -> (r: Directive) {
        self.directive
    }
}

/// Builds the `connect-src` directive.
#[derive(Debug, Default)]
pub struct ConnectSrc {
    directive: Directive,
}

impl ConnectSrc {
    pub fn new() -> (r: Self)
        ensures
            r.inner()@ == bare_directive("connect-src"@),
    {
        ConnectSrc { directive: Directive::new("connect-src") }
    }
}

impl Clone for ConnectSrc {
    fn clone(&self) -> (r: Self)
        ensures
            r.inner()@ == self.inner()@,
    {
        ConnectSrc { directive: self.directive.clone() }
    }
}

impl DirectiveSpec for ConnectSrc {
    const NAME: &'static str = "connect-src";

    closed spec fn inner(&self) -> Directive {
        self.directive
    }

    fn inner_mut(&mut self) -> (r: &mut Directive) {
        &mut self.directive
    }

    fn build(self) -> (r: Directive) {
        self.directive
    }
}

/// Builds the `font-src` directive.
#[derive(Debug, Default)]
pub struct FontSrc {
    directive: Directive,
}

impl FontSrc {
    pub fn new() -> (r: Self)
        ensures
            r.inner()@ == bare_directive("font-src"@),
    {
        FontSrc { directive: Directive::new("font-src") }
    }
}

impl Clone for FontSrc {
    fn clone(&self) -> (r: Self)
        ensures
            r.inner()@ == self.inner()@,
    {
        FontSrc { directive: self.directive.clone() }
    }
}

impl DirectiveSpec for FontSrc {
    const NAME: &'static str = "font-src";

    closed spec fn inner(&self) -> Directive {
        self.directive
    }

    fn inner_mut(&mut self) -> (r: &mut Directive) {
        &mut self.directive
    }

    fn build(self) -> (r: Directive) {
        self.directive
    }
}

/// Builds the `object-src` directive.
#[derive(Debug, Default)]
pub struct ObjectSrc {
    directive: Directive,
}

impl ObjectSrc {
    pub fn new() -> (r: Self)
        ensures
            r.inner()@ == bare_directive("object-src"@),
    {
        ObjectSrc { directive: Directive::new("object-src") }
    }
}

impl Clone for ObjectSrc {
    fn clone(&self) -> (r: Self)
        ensures
            r.inner()@ == self.inner()@,
    {
        ObjectSrc { directive: self.directive.clone() }
    }
}

impl DirectiveSpec for ObjectSrc {
    const NAME: &'static str = "object-src";

    closed spec fn inner(&self) -> Directive {
        self.directive
    }

    fn inner_mut(&mut self) -> (r: &mut Directive) {
        &mut self.directive
    }

    fn build(self) -> (r: Directive) {
        self.directive
    }
}

/// Builds the `media-src` directive.
#[derive(Debug, Default)]
pub struct MediaSrc {
    directive: Directive,
}

impl MediaSrc {
    pub fn new() -> (r: Self)
        ensures
            r.inner()@ == bare_directive("media-src"@),
    {
        MediaSrc { directive: Directive::new("media-src") }
    }
}

impl Clone for MediaSrc {
    fn clone(&self) -> (r: Self)
        ensures
            r.inner()@ == self.inner()@,
    {
        MediaSrc { directive: self.directive.clone() }
    }
}

impl DirectiveSpec for MediaSrc {
    const NAME: &'static str = "media-src";

    closed spec fn inner(&self) -> Directive {
        self.directive
    }

    fn inner_mut(&mut self) -> (r: &mut Directive) {
        &mut self.directive
    }

    fn build(self) -> (r: Directive) {
        self.directive
    }
}

/// Builds the `frame-src` directive.
#[derive(Debug, Default)]
pub struct FrameSrc {
    directive: Directive,
}

impl FrameSrc {
    pub fn new() -> (r: Self)
        ensures
            r.inner()@ == bare_directive("frame-src"@),
    {
        FrameSrc { directive: Directive::new("frame-src") }
    }
}

impl Clone for FrameSrc {
    fn clone(&self) -> (r: Self)
        ensures
            r.inner()@ == self.inner()@,
    {
        FrameSrc { directive: self.directive.clone() }
    }
}

impl DirectiveSpec for FrameSrc {
    const NAME: &'static str = "frame-src";

    closed spec fn inner(&self) -> Directive {
        self.directive
    }

    fn inner_mut(&mut self) -> (r: &mut Directive) {
        &mut self.directive
    }

    fn build(self) -> (r: Directive) {
        self.directive
    }
}

/// Builds the `worker-src` directive.
#[derive(Debug, Default)]
pub struct WorkerSrc {
    directive: Directive,
}

impl WorkerSrc {
    pub fn new() -> (r: Self)
        ensures
            r.inner()@ == bare_directive("worker-src"@),
    {
        WorkerSrc { directive: Directive::new("worker-src") }
    }
}

impl Clone for WorkerSrc {
    fn clone(&self) -> (r: Self)
        ensures
            r.inner()@ == self.inner()@,
    {
        WorkerSrc { directive: self.directive.clone() }
    }
}

impl DirectiveSpec for WorkerSrc {
    const NAME: &'static str = "worker-src";

    closed spec fn inner(&self) -> Directive {
        self.directive
    }

    fn inner_mut(&mut self) -> (r: &mut Directive) {
        &mut self.directive
    }

    fn build(self) -> (r: Directive) {
        self.directive
    }
}

/// Builds the `manifest-src` directive.
#[derive(Debug, Default)]
pub struct ManifestSrc {
    directive: Directive,
}

impl ManifestSrc {
    pub fn new() -> (r: Self)
        ensures
            r.inner()@ == bare_directive("manifest-src"@),
    {
        ManifestSrc { directive: Directive::new("manifest-src") }
    }
}

impl Clone for ManifestSrc {
    fn clone(&self) -> (r: Self)
        ensures
            r.inner()@ == self.inner()@,
    {
        ManifestSrc { directive: self.directive.clone() }
    }
}

impl DirectiveSpec for ManifestSrc {
    const NAME: &'static str = "manifest-src";

    closed spec fn inner(&self) -> Directive {
        self.directive
    }

    fn inner_mut(&mut self) -> (r: &mut Directive) {
        &mut self.directive
    }

    fn build(self) -> (r: Directive) {
        self.directive
    }
}

/// Builds the `child-src` directive.
#[derive(Debug, Default)]
pub struct ChildSrc {
    directive: Directive,
}

impl ChildSrc {
    pub fn new() -> (r: Self)
        ensures
            r.inner()@ == bare_directive("child-src"@),
    {
        ChildSrc { directive: Directive::new("child-src") }
    }
}

impl Clone for ChildSrc {
    fn clone(&self) -> (r: Self)
        ensures
            r.inner()@ == self.inner()@,
    {
        ChildSrc { directive: self.directive.clone() }
    }
}

impl DirectiveSpec for ChildSrc {
    const NAME: &'static str = "child-src";

    closed spec fn inner(&self) -> Directive {
        self.directive
    }

    fn inner_mut(&mut self) -> (r: &mut Directive) {
        &mut self.directive
    }

    fn build(self) -> (r: Directive) {
        self.directive
    }
}

/// Builds the `frame-ancestors` directive.
#[derive(Debug, Default)]
pub struct FrameAncestors {
    directive: Directive,
}

impl FrameAncestors {
    pub fn new() -> (r: Self)
        ensures
            r.inner()@ == bare_directive("frame-ancestors"@),
    {
        FrameAncestors { directive: Directive::new("frame-ancestors") }
    }
}

impl Clone for FrameAncestors {
    fn clone(&self) -> (r: Self)
        ensures
            r.inner()@ == self.inner()@,
    {
        FrameAncestors { directive: self.directive.clone() }
    }
}

impl DirectiveSpec for FrameAncestors {
    const NAME: &'static str = "frame-ancestors";

    closed spec fn inner(&self) -> Directive {
        self.directive
    }

    fn inner_mut(&mut self) -> (r: &mut Directive) {
        &mut self.directive
    }

    fn build(self) -> (r: Directive) {
        self.directive
    }
}

/// Builds the `base-uri` directive.
#[derive(Debug, Default)]
pub struct BaseUri {
    directive: Directive,
}

impl BaseUri {
    pub fn new() -> (r: Self)
        ensures
            r.inner()@ == bare_directive("base-uri"@),
    {
        BaseUri { directive: Directive::new("base-uri") }
    }
}

impl Clone for BaseUri {
    fn clone(&self) -> (r: Self)
        ensures
            r.inner()@ == self.inner()@,
    {
        BaseUri { directive: self.directive.clone() }
    }
}

impl DirectiveSpec for BaseUri {
    const NAME: &'static str = "base-uri";

    closed spec fn inner(&self) -> Directive {
        self.directive
    }

    fn inner_mut(&mut self) -> (r: &mut Directive) {
        &mut self.directive
    }

    fn build(self) -> (r: Directive) {
        self.directive
    }
}

/// Builds the `form-action` directive.
#[derive(Debug, Default)]
pub struct FormAction {
    directive: Directive,
}

impl FormAction {
    pub fn new() -> (r: Self)
        ensures
            r.inner()@ == bare_directive("form-action"@),
    {
        FormAction { directive: Directive::new("form-action") }
    }
}

impl Clone for FormAction {
    fn clone(&self) -> (r: Self)
        ensures
            r.inner()@ == self.inner()@,
    {
        FormAction { directive: self.directive.clone() }
    }
}

impl DirectiveSpec for FormAction {
    const NAME: &'static str = "form-action";

    closed spec fn inner(&self) -> Directive {
        self.directive
    }

    fn inner_mut(&mut self) -> (r: &mut Directive) {
        &mut self.directive
    }

    fn build(self) -> (r: Directive) {
        self.directive
    }
}

/// Builds the `script-src-elem` directive.
#[derive(Debug, Default)]
pub struct ScriptSrcElem {
    directive: Directive,
}

impl ScriptSrcElem {
    pub fn new() -> (r: Self)
        ensures
            r.inner()@ == bare_directive("script-src-elem"@),
    {
        ScriptSrcElem { directive: Directive::new("script-src-elem") }
    }
}

impl Clone for ScriptSrcElem {
    fn clone(&self) -> (r: Self)
        ensures
            r.inner()@ == self.inner()@,
    {
        ScriptSrcElem { directive: self.directive.clone() }
    }
}

impl DirectiveSpec for ScriptSrcElem {
    const NAME: &'static str = "script-src-elem";

    closed spec fn inner(&self) -> Directive {
        self.directive
    }

    fn inner_mut(&mut self) -> (r: &mut Directive) {
        &mut self.directive
    }

    fn build(self) -> (r: Directive) {
        self.directive
    }
}

/// Builds the `script-src-attr` directive.
#[derive(Debug, Default)]
pub struct ScriptSrcAttr {
    directive: Directive,
}

impl ScriptSrcAttr {
    pub fn new() -> (r: Self)
        ensures
            r.inner()@ == bare_directive("script-src-attr"@),
    {
        ScriptSrcAttr { directive: Directive::new("script-src-attr") }
    }
}

impl Clone for ScriptSrcAttr {
    fn clone(&self) -> (r: Self)
        ensures
            r.inner()@ == self.inner()@,
    {
        ScriptSrcAttr { directive: self.directive.clone() }
    }
}

impl DirectiveSpec for ScriptSrcAttr {
    const NAME: &'static str = "script-src-attr";

    closed spec fn inner(&self) -> Directive {
        self.directive
    }

    fn inner_mut(&mut self) -> (r: &mut Directive) {
        &mut self.directive
    }

    fn build(self) -> (r: Directive) {
        self.directive
    }
}

/// Builds the `style-src-elem` directive.
#[derive(Debug, Default)]
pub struct StyleSrcElem {
    directive: Directive,
}

impl StyleSrcElem {
    pub fn new() -> (r: Self)
        ensures
            r.inner()@ == bare_directive("style-src-elem"@),
    {
        StyleSrcElem { directive: Directive::new("style-src-elem") }
    }
}

impl Clone for StyleSrcElem {
    fn clone(&self) -> (r: Self)
        ensures
            r.inner()@ == self.inner()@,
    {
        StyleSrcElem { directive: self.directive.clone() }
    }
}

impl DirectiveSpec for StyleSrcElem {
    const NAME: &'static str = "style-src-elem";

    closed spec fn inner(&self) -> Directive {
        self.directive
    }

    fn inner_mut(&mut self) -> (r: &mut Directive) {
        &mut self.directive
    }

    fn build(self) -> (r: Directive) {
        self.directive
    }
}

/// Builds the `style-src-attr` directive.
#[derive(Debug, Default)]
pub struct StyleSrcAttr {
    directive: Directive,
}

impl StyleSrcAttr {
    pub fn new() -> (r: Self)
        ensures
            r.inner()@ == bare_directive("style-src-attr"@),
    {
        StyleSrcAttr { directive: Directive::new("style-src-attr") }
    }
}

impl Clone for StyleSrcAttr {
    fn clone(&self) -> (r: Self)
        ensures
            r.inner()@ == self.inner()@,
    {
        StyleSrcAttr { directive: self.directive.clone() }
    }
}

impl DirectiveSpec for StyleSrcAttr {
    const NAME: &'static str = "style-src-attr";

    closed spec fn inner(&self) -> Directive {
        self.directive
    }

    fn inner_mut(&mut self) -> (r: &mut Directive) {
        &mut self.directive
    }

    fn build(self) -> (r: Directive) {
        self.directive
    }
}

/// Builds the `prefetch-src` directive.
#[derive(Debug, Default)]
pub struct PrefetchSrc {
    directive: Directive,
}

impl PrefetchSrc {
    pub fn new() -> (r: Self)
        ensures
            r.inner()@ == bare_directive("prefetch-src"@),
    {
        PrefetchSrc { directive: Directive::new("prefetch-src") }
    }
}

impl Clone for PrefetchSrc {
    fn clone(&self) -> (r: Self)
        ensures
            r.inner()@ == self.inner()@,
    {
        PrefetchSrc { directive: self.directive.clone() }
    }
}

impl DirectiveSpec for PrefetchSrc {
    const NAME: &'static str = "prefetch-src";

    closed spec fn inner(&self) -> Directive {
        self.directive
    }

    fn inner_mut(&mut self) -> (r: &mut Directive) {
        &mut self.directive
    }

    fn build(self) -> (r: Directive) {
        self.directive
    }
}

/// The distinct flags of a `sandbox` directive, in the order in which they
/// were first allowed.
#[derive(Debug)]
pub struct Sandbox {
    values: Vec<String>,
}

/// The texts of a run of strings.
pub open spec fn string_views(values: Seq<String>) -> Seq<Seq<char>> {
    values.map_values(|value: String| value@)
}

/// The flags as host-shaped sources, which is how a directive holds them.
pub open spec fn flag_sources(flags: Seq<Seq<char>>) -> Seq<SourceView> {
    flags.map_values(|flag: Seq<char>| SourceView::Host(flag))
}

/// The flags after `flag` was allowed: it joins behind the others unless it
/// is already among them.
pub open spec fn with_flag(flags: Seq<Seq<char>>, flag: Seq<char>) -> Seq<Seq<char>> {
    if flags.contains(flag) {
        flags
    } else {
        flags.push(flag)
    }
}

impl View for Sandbox {
    type V = Seq<Seq<char>>;

    closed spec fn view(&self) -> Seq<Seq<char>> {
        string_views(self.values@)
    }
}

impl Default for Sandbox {
    fn default() -> (r: Self)
        ensures
            r@ == Seq::<Seq<char>>::empty(),
    {
        Sandbox::new()
    }
}

impl Clone for Sandbox {
    fn clone(&self) -> (r: Self)
        ensures
            r@ == self@,
    {
        proof {
            use_type_invariant(self);
        }
        let ghost flags = string_views(self.values@);
        let mut values: Vec<String> = Vec::new();
        let mut i: usize = 0;
        while i < self.values.len()
            invariant
                i <= self.values.len(),
                flags == string_views(self.values@),
                string_views(values@) == flags.subrange(0, i as int),
            decreases self.values.len() - i,
        {
            let ghost before = values@;
            let value = self.values[i].clone();
            values.push(value);
            assert(string_views(values@) == string_views(before).push(value@));
            assert(flags.subrange(0, i + 1) == flags.subrange(0, i as int).push(flags[i as int]));
            i = i + 1;
        }
        assert(flags.subrange(0, flags.len() as int) == flags);
        Sandbox { values }
    }
}

impl Sandbox {
    #[verifier::type_invariant]
    spec fn distinct(self) -> bool {
        string_views(self.values@).no_duplicates()
    }

    pub fn new() -> (r: Self)
        ensures
            r@ == Seq::<Seq<char>>::empty(),
    {
        let r = Sandbox { values: Vec::new() };
        assert(string_views(r.values@) == Seq::<Seq<char>>::empty());
        r
    }

    pub fn allow_forms(self) -> (r: Self)
        ensures
            r@ == with_flag(self@, "allow-forms"@),
    {
        self.add_value("allow-forms")
    }

    pub fn allow_same_origin(self) -> (r: Self)
        ensures
            r@ == with_flag(self@, "allow-same-origin"@),
    {
        self.add_value("allow-same-origin")
    }

    pub fn allow_scripts(self) -> (r: Self)
        ensures
            r@ == with_flag(self@, "allow-scripts"@),
    {
        self.add_value("allow-scripts")
    }

    pub fn allow_popups(self) -> (r: Self)
        ensures
            r@ == with_flag(self@, "allow-popups"@),
    {
        self.add_value("allow-popups")
    }

    pub fn allow_modals(self) -> (r: Self)
        ensures
            r@ == with_flag(self@, "allow-modals"@),
    {
        self.add_value("allow-modals")
    }

    pub fn allow_orientation_lock(self) -> (r: Self)
        ensures
            r@ == with_flag(self@, "allow-orientation-lock"@),
    {
        self.add_value("allow-orientation-lock")
    }

    pub fn allow_pointer_lock(self) -> (r: Self)
        ensures
            r@ == with_flag(self@, "allow-pointer-lock"@),
    {
        self.add_value("allow-pointer-lock")
    }

    pub fn allow_presentation(self) -> (r: Self)
        ensures
            r@ == with_flag(self@, "allow-presentation"@),
    {
        self.add_value("allow-presentation")
    }

    pub fn allow_popups_to_escape_sandbox(self) -> (r: Self)
        ensures
            r@ == with_flag(self@, "allow-popups-to-escape-sandbox"@),
    {
        self.add_value("allow-popups-to-escape-sandbox")
    }

    pub fn allow_top_navigation(self) -> (r: Self)
        ensures
            r@ == with_flag(self@, "allow-top-navigation"@),
    {
        self.add_value("allow-top-navigation")
    }

    /// Allows a flag by its text.
    pub fn add_value(self, value: &str) -> (r: Self)
        ensures
            r@ == with_flag(self@, value@),
    {
        proof {
            use_type_invariant(&self);
        }
        let ghost flags = string_views(self.values@);
        let mut i: usize = 0;
        while i < self.values.len()
            invariant
                i <= self.values.len(),
                flags == string_views(self.values@),
                forall|j: int| 0 <= j < i ==> flags[j] != value@,
            decreases self.values.len() - i,
        {
            if fast_string_compare(self.values[i].as_str(), value) {
                assert(flags[i as int] == value@);
                return self;
            }
            i = i + 1;
        }
        let mut values = self.values;
        values.push(value.to_owned());
        assert(string_views(values@) == flags.push(value@));
        Sandbox { values }
    }

    /// The `sandbox` directive that carries the flags, in their order.
    pub fn build(self) -> (r: Directive)
        ensures
            r@ == (DirectiveView {
                name: "sandbox"@,
                sources: flag_sources(self@),
                fallback: None,
            }),
    {
        proof {
            use_type_invariant(&self);
        }
        let ghost flags = string_views(self.values@);
        let mut directive = Directive::new("sandbox");
        let mut i: usize = 0;
        assert(flag_sources(flags.subrange(0, 0)) == Seq::<SourceView>::empty());
        while i < self.values.len()
            invariant
                i <= self.values.len(),
                flags == string_views(self.values@),
                flags.no_duplicates(),
                directive@ == (DirectiveView {
                    name: "sandbox"@,
                    sources: flag_sources(flags.subrange(0, i as int)),
                    fallback: None,
                }),
            decreases self.values.len() - i,
        {
            let source = Source::Host(Cow::Owned(self.values[i].clone()));
            proof {
                let done = flag_sources(flags.subrange(0, i as int));
                assert(source@ == SourceView::Host(flags[i as int]));
                assert(!done.contains(source@)) by {
                    if done.contains(source@) {
                        let j = choose|j: int| 0 <= j < done.len() && done[j] == source@;
                        assert(flags[j] == flags[i as int]);
                    }
                }
                assert(forall|j: int| 0 <= j < done.len() ==> !(#[trigger] done[j] is None_));
                assert(flag_sources(flags.subrange(0, i + 1)) == done.push(source@));
            }
            directive.add_source(source);
            i = i + 1;
        }
        assert(flags.subrange(0, flags.len() as int) == flags);
        directive
    }
}

} // verus!
