use vstd::prelude::*;
use std::borrow::Cow;
use crate::builders::bare_directive;
use crate::builders::flag_sources;
use crate::builders::BaseUri;
use crate::builders::ChildSrc;
use crate::builders::ConnectSrc;
use crate::builders::DefaultSrc;
use crate::builders::DirectiveSpec;
use crate::builders::FontSrc;
use crate::builders::FormAction;
use crate::builders::FrameAncestors;
use crate::builders::FrameSrc;
use crate::builders::ImgSrc;
use crate::builders::ManifestSrc;
use crate::builders::MediaSrc;
use crate::builders::ObjectSrc;
use crate::builders::Sandbox;
use crate::builders::ScriptSrc;
use crate::builders::StyleSrc;
use crate::builders::WorkerSrc;
use crate::directive::with_sources;
use crate::directive::Directive;
use crate::directive::DirectiveView;
use crate::error::CspError;
use crate::list::source_views;
use crate::policy::CspPolicy;
use crate::policy::PolicyView;
use crate::source::Source;
use crate::source::SourceView;

verus! {

/// The directive of that name that admits the sources, added in turn to an
/// empty list.
pub open spec fn listed(name: Seq<char>, sources: Seq<SourceView>) -> DirectiveView {
    DirectiveView {
        name,
        sources: with_sources(Seq::<SourceView>::empty(), sources),
        fallback: None,
    }
}

/// The texts of a run of string slices.
pub open spec fn str_views(values: Seq<&str>) -> Seq<Seq<char>> {
    values.map_values(|value: &str| value@)
}

/// Assembles a policy step by step.
#[derive(Debug, Default)]
pub struct CspPolicyBuilder {
    policy: CspPolicy,
}

impl View for CspPolicyBuilder {
    type V = PolicyView;

    closed spec fn view(&self) -> PolicyView {
        self.policy@
    }
}

/// The directive of that name whose sources are the texts, as host-shaped
/// sources added in turn.
fn directive_of_texts<const N: usize>(name: &str, texts: [&str; N]) -> (r: Directive)
    ensures
        r@ == listed(name@, flag_sources(str_views(texts@))),
{
    let ghost all = flag_sources(str_views(texts@));
    let mut directive = Directive::new(name);
    let mut i: usize = 0;
    assert(all.subrange(0, 0) == Seq::<SourceView>::empty());
    while i < N
        invariant
            i <= N,
            all == flag_sources(str_views(texts@)),
            directive@ == listed(name@, all.subrange(0, i as int)),
        decreases N - i,
    {
        let source = Source::Host(Cow::Owned(texts[i].to_owned()));
        proof {
            let upto = all.subrange(0, i + 1);
            assert(upto.drop_last() == all.subrange(0, i as int));
            assert(upto.last() == source@);
        }
        directive.add_source(source);
        i = i + 1;
    }
    assert(all.subrange(0, N as int) == all);
    directive
}

impl CspPolicyBuilder {
    pub fn new() -> (r: Self)
        ensures
            r@ == CspPolicy::empty_view(),
    {
        CspPolicyBuilder { policy: CspPolicy::new() }
    }

    /// Adds the directive that a directive builder has filled.
    pub fn add_directive<D: DirectiveSpec>(self, directive_builder: D) -> (r: Self)
        ensures
            r@ == self@.with_directive(directive_builder.inner()@),
    {
        let mut this = self;
        this.policy.add_directive(directive_builder.build());
        this
    }

    /// Adds a finished directive.
    pub fn with_directive(self, directive: Directive) -> (r: Self)
        ensures
            r@ == self@.with_directive(directive@),
    {
        let mut this = self;
        this.policy.add_directive(directive);
        this
    }

    pub fn default_src<const N: usize>(self, sources: [Source; N]) -> (r: Self)
        ensures
            r@ == self@.with_directive(listed("default-src"@, source_views(sources@))),
    {
        self.add_directive(DefaultSrc::new().add_sources(sources))
    }

    pub fn script_src<const N: usize>(self, sources: [Source; N]) -> (r: Self)
        ensures
            r@ == self@.with_directive(listed("script-src"@, source_views(sources@))),
    {
        self.add_directive(ScriptSrc::new().add_sources(sources))
    }

    pub fn style_src<const N: usize>(self, sources: [Source; N]) -> (r: Self)
        ensures
            r@ == self@.with_directive(listed("style-src"@, source_views(sources@))),
    {
        self.add_directive(StyleSrc::new().add_sources(sources))
    }

    pub fn img_src<const N: usize>(self, sources: [Source; N]) -> (r: Self)
        ensures
            r@ == self@.with_directive(listed("img-src"@, source_views(sources@))),
    {
        self.add_directive(ImgSrc::new().add_sources(sources))
    }

    pub fn connect_src<const N: usize>(self, sources: [Source; N]) -> (r: Self)
        ensures
            r@ == self@.with_directive(listed("connect-src"@, source_views(sources@))),
    {
        self.add_directive(ConnectSrc::new().add_sources(sources))
    }

    pub fn font_src<const N: usize>(self, sources: [Source; N]) -> (r: Self)
        ensures
            r@ == self@.with_directive(listed("font-src"@, source_views(sources@))),
    {
        self.add_directive(FontSrc::new().add_sources(sources))
    }

    pub fn object_src<const N: usize>(self, sources: [Source; N]) -> (r: Self)
        ensures
            r@ == self@.with_directive(listed("object-src"@, source_views(sources@))),
    {
        self.add_directive(ObjectSrc::new().add_sources(sources))
    }

    pub fn media_src<const N: usize>(self, sources: [Source; N]) -> (r: Self)
        ensures
            r@ == self@.with_directive(listed("media-src"@, source_views(sources@))),
    {
        self.add_directive(MediaSrc::new().add_sources(sources))
    }

    pub fn frame_src<const N: usize>(self, sources: [Source; N]) -> (r: Self)
        ensures
            r@ == self@.with_directive(listed("frame-src"@, source_views(sources@))),
    {
        self.add_directive(FrameSrc::new().add_sources(sources))
    }

    pub fn worker_src<const N: usize>(self, sources: [Source; N]) -> (r: Self)
        ensures
            r@ == self@.with_directive(listed("worker-src"@, source_views(sources@))),
    {
        self.add_directive(WorkerSrc::new().add_sources(sources))
    }

    pub fn manifest_src<const N: usize>(self, sources: [Source; N]) -> (r: Self)
        ensures
            r@ == self@.with_directive(listed("manifest-src"@, source_views(sources@))),
    {
        self.add_directive(ManifestSrc::new().add_sources(sources))
    }

    pub fn child_src<const N: usize>(self, sources: [Source; N]) -> (r: Self)
        ensures
            r@ == self@.with_directive(listed("child-src"@, source_views(sources@))),
    {
        self.add_directive(ChildSrc::new().add_sources(sources))
    }

    pub fn frame_ancestors<const N: usize>(self, sources: [Source; N]) -> (r: Self)
        ensures
            r@ == self@.with_directive(listed("frame-ancestors"@, source_views(sources@))),
    {
        self.add_directive(FrameAncestors::new().add_sources(sources))
    }

    pub fn base_uri<const N: usize>(self, sources: [Source; N]) -> (r: Self)
        ensures
            r@ == self@.with_directive(listed("base-uri"@, source_views(sources@))),
    {
        self.add_directive(BaseUri::new().add_sources(sources))
    }

    pub fn form_action<const N: usize>(self, sources: [Source; N]) -> (r: Self)
        ensures
            r@ == self@.with_directive(listed("form-action"@, source_views(sources@))),
    {
        self.add_directive(FormAction::new().add_sources(sources))
    }

    /// Adds the `sandbox` directive with the flags of the sandbox builder.
    pub fn sandbox(self, sandbox_builder: Sandbox) -> (r: Self)
        ensures
            r@ == self@.with_directive(
                DirectiveView {
                    name: "sandbox"@,
                    sources: flag_sources(sandbox_builder@),
                    fallback: None,
                },
            ),
    {
        self.with_directive(sandbox_builder.build())
    }

    pub fn upgrade_insecure_requests(self) -> (r: Self)
        ensures
            r@ == self@.with_directive(bare_directive("upgrade-insecure-requests"@)),
    {
        self.with_directive(Directive::new("upgrade-insecure-requests"))
    }

    pub fn block_all_mixed_content(self) -> (r: Self)
        ensures
            r@ == self@.with_directive(bare_directive("block-all-mixed-content"@)),
    {
        self.with_directive(Directive::new("block-all-mixed-content"))
    }

    pub fn require_trusted_types_for<const N: usize>(self, contexts: [&str; N]) -> (r: Self)
        ensures
            r@ == self@.with_directive(
                listed("require-trusted-types-for"@, flag_sources(str_views(contexts@))),
            ),
    {
        self.with_directive(directive_of_texts("require-trusted-types-for", contexts))
    }

    pub fn trusted_types<const N: usize>(self, policies: [&str; N]) -> (r: Self)
        ensures
            r@ == self@.with_directive(
                listed("trusted-types"@, flag_sources(str_views(policies@))),
            ),
    {
        self.with_directive(directive_of_texts("trusted-types", policies))
    }

    pub fn report_uri(self, uri: &str) -> (r: Self)
        ensures
            r@ == (PolicyView { report_uri: Some(uri@), ..self@ }),
    {
        let mut this = self;
        this.policy.set_report_uri(uri);
        this
    }

    pub fn report_to(self, endpoint: &str) -> (r: Self)
        ensures
            r@ == (PolicyView { report_to: Some(endpoint@), ..self@ }),
    {
        let mut this = self;
        this.policy.set_report_to(endpoint);
        this
    }

    pub fn report_only(self, enabled: bool) -> (r: Self)
        ensures
            r@ == (PolicyView { report_only: enabled, ..self@ }),
    {
        let mut this = self;
        this.policy.set_report_only(enabled);
        this
    }

    /// Hands out the policy if every directive is in order, and the first
    /// complaint otherwise.
    pub fn build(self) -> (r: Result<CspPolicy, CspError>)
        ensures
            match r {
                Ok(policy) => self@.validation_error() is None && policy@ == self@,
                Err(e) => e matches CspError::ValidationError(message) && Some(message@)
                    == self@.validation_error(),
            },
    {
        match self.policy.validate() {
            Ok(_) => Ok(self.policy),
            Err(e) => Err(e),
        }
    }

    /// Hands out the policy as it is, unchecked.
    pub fn build_unchecked(self) -> (r: CspPolicy)
        ensures
            r@ == self@,
    {
        self.policy
    }
}

} // verus!
