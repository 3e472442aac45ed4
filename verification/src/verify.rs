use vstd::prelude::*;
use vstd::utf8::encode_utf8;
use std::collections::HashMap;
use crate::cache::lru_has;
use crate::cache::lru_position;
use crate::cache::lru_put;
use crate::cache::lru_touch;
use crate::cache::verdict_cache_clear;
use crate::cache::verdict_cache_get;
use crate::cache::verdict_cache_new;
use crate::cache::verdict_cache_put;
use crate::cache::verdict_entries;
use crate::cache::CachedVerdict;
use crate::cache::VerdictCache;
use crate::digest::digest_input_ok;
use crate::directive::Directive;
use crate::directive::DirectiveView;
use crate::error::CspError;
use crate::fx::fx_hash;
use crate::hash::hash_matches;
use crate::hash::HashGenerator;
use crate::list::source_views;
use crate::policy::CspPolicy;
use crate::policy::PolicyView;
use crate::source::Source;
use crate::source::SourceView;
use crate::uri::parse_uri;
use crate::uri::url_parse;
use crate::uri::ParsedUri;
use crate::uri::UriParts;
use crate::utils::bytes_equal;
use crate::utils::fast_string_compare;
use crate::utils::lemma_encode_injective;

verus! {

broadcast use vstd::std_specs::hash::group_hash_axioms;

/// Whether `'none'` is among the sources of the directive.
pub open spec fn has_nothing(directive: DirectiveView) -> bool {
    exists|i: int| 0 <= i < directive.sources.len() && #[trigger] directive.sources[i] is None_
}

/// Whether the bytes of a host fit a wildcard pattern `*.domain`: the host
/// ends with `.domain`, and what stands before that holds no dot.
pub open spec fn wildcard_matches(pattern: Seq<u8>, host: Seq<u8>) -> bool {
    &&& pattern.len() >= 2
    &&& pattern[0] == 0x2au8
    &&& pattern[1] == 0x2eu8
    &&& host.len() >= pattern.len() - 1
    &&& host.subrange(host.len() - (pattern.len() - 1), host.len() as int) == pattern.subrange(
        1,
        pattern.len() as int,
    )
    &&& forall|i: int| 0 <= i < host.len() - (pattern.len() - 1) ==> #[trigger] host[i] != 0x2eu8
}

/// Whether a host fits a host pattern: it is the pattern, or the pattern is
/// a wildcard `*.domain` that the host fits. Both are compared as UTF-8.
pub open spec fn host_matches(pattern: Seq<char>, host: Seq<char>) -> bool {
    pattern == host || wildcard_matches(encode_utf8(pattern), encode_utf8(host))
}

/// Whether one source of the `origin` directive makes the URI same-origin:
/// its host is the URI's host as written, or `https://` followed by it
/// parses to the URI's scheme, host and port.
pub open spec fn origin_admits(origin: SourceView, parts: UriParts) -> bool {
    match origin {
        SourceView::Host(host) => parts.host == Some(host) || match url_parse("https://"@ + host) {
            Some(own) => parts.scheme == own.scheme && parts.host == own.host && parts.port
                == own.port,
            None => false,
        },
        _ => false,
    }
}

/// Whether the URI is same-origin: some source of the directive named
/// `origin` admits it. Without such a directive nothing is same-origin.
pub open spec fn is_same_origin(policy: PolicyView, parts: UriParts) -> bool {
    match policy.find("origin"@) {
        Some(origin) => exists|i: int|
            0 <= i < origin.sources.len() && origin_admits(#[trigger] origin.sources[i], parts),
        None => false,
    }
}

/// Whether one source admits the URI.
pub open spec fn source_admits(policy: PolicyView, source: SourceView, parts: UriParts) -> bool {
    match source {
        SourceView::Self_ => is_same_origin(policy, parts),
        SourceView::Host(pattern) => match parts.host {
            Some(host) => host_matches(pattern, host),
            None => false,
        },
        SourceView::Scheme(scheme) => parts.scheme == scheme,
        _ => false,
    }
}

/// Whether the directive admits the URI: it does not hold `'none'`, and one
/// of its sources admits the URI.
pub open spec fn directive_admits(
    policy: PolicyView,
    directive: DirectiveView,
    parts: UriParts,
) -> bool {
    !has_nothing(directive) && exists|i: int|
        0 <= i < directive.sources.len() && source_admits(
            policy,
            #[trigger] directive.sources[i],
            parts,
        )
}

/// The directive that decides for a name: the directive of that name, or
/// `default-src` where there is none.
pub open spec fn effective(policy: PolicyView, name: Seq<char>) -> Option<DirectiveView> {
    match policy.find(name) {
        Some(directive) => Some(directive),
        None => policy.find("default-src"@),
    }
}

/// The verdict on a URI under a directive name: allowed where no directive
/// decides; otherwise nothing where the URI does not parse, and else whether
/// the deciding directive admits it.
pub open spec fn uri_verdict(policy: PolicyView, uri: Seq<char>, name: Seq<char>) -> Option<bool> {
    match effective(policy, name) {
        None => Some(true),
        Some(directive) => match url_parse(uri) {
            None => None,
            Some(parts) => Some(directive_admits(policy, directive, parts)),
        },
    }
}

/// Whether a source is a hash source that the content fits.
pub open spec fn source_admits_content(source: SourceView, content: Seq<u8>) -> bool {
    match source {
        SourceView::Hash { algorithm, value } => hash_matches(algorithm, content, value),
        _ => false,
    }
}

/// Whether the directive holds a hash source that the content fits.
pub open spec fn admits_content(directive: DirectiveView, content: Seq<u8>) -> bool {
    exists|i: int|
        0 <= i < directive.sources.len() && source_admits_content(
            #[trigger] directive.sources[i],
            content,
        )
}

/// Whether the directive holds that nonce.
pub open spec fn admits_nonce(directive: DirectiveView, nonce: Seq<char>) -> bool {
    directive.sources.contains(SourceView::Nonce(nonce))
}

/// The verdict on content by its digest: denied where no directive decides
/// or the deciding one holds `'none'`, and else whether a hash source fits.
pub open spec fn hash_verdict(policy: PolicyView, content: Seq<u8>, name: Seq<char>) -> bool {
    match effective(policy, name) {
        None => false,
        Some(directive) => !has_nothing(directive) && admits_content(directive, content),
    }
}

/// The verdict on a nonce: denied where no directive decides or the deciding
/// one holds `'none'`, and else whether the directive holds the nonce.
pub open spec fn nonce_verdict(policy: PolicyView, nonce: Seq<char>, name: Seq<char>) -> bool {
    match effective(policy, name) {
        None => false,
        Some(directive) => !has_nothing(directive) && admits_nonce(directive, nonce),
    }
}

/// The verdict on inline content: allowed where no directive decides; denied
/// by `'none'`; else allowed by `'unsafe-inline'`, by a matching nonce or by
/// a matching digest.
pub open spec fn inline_verdict(
    policy: PolicyView,
    name: Seq<char>,
    content: Seq<u8>,
    nonce: Option<Seq<char>>,
) -> bool {
    match effective(policy, name) {
        None => true,
        Some(directive) => !has_nothing(directive) && (directive.sources.contains(
            SourceView::UnsafeInline,
        ) || match nonce {
            Some(given) => admits_nonce(directive, given),
            None => false,
        } || admits_content(directive, content)),
    }
}

/// The error for a URI that does not parse.
pub open spec fn is_invalid_uri(e: CspError, uri: Seq<char>) -> bool {
    e matches CspError::VerificationError(message) && message@ == "Invalid URI: "@ + uri
}

/// A wildcard pattern admits every host made of one label without a dot, a
/// dot and the domain, and it never admits the bare domain.
pub proof fn lemma_wildcard_single_label(label: Seq<u8>, domain: Seq<u8>)
    requires
        forall|i: int| 0 <= i < label.len() ==> #[trigger] label[i] != 0x2eu8,
    ensures
        wildcard_matches(seq![0x2au8, 0x2eu8] + domain, label + seq![0x2eu8] + domain),
        !wildcard_matches(seq![0x2au8, 0x2eu8] + domain, domain),
{
    let pattern = seq![0x2au8, 0x2eu8] + domain;
    let host = label + seq![0x2eu8] + domain;
    assert(pattern.len() == domain.len() + 2);
    assert(host.len() == label.len() + 1 + domain.len());
    assert(host.subrange(host.len() - (pattern.len() - 1), host.len() as int) =~= pattern.subrange(
        1,
        pattern.len() as int,
    ));
    assert forall|i: int| 0 <= i < host.len() - (pattern.len() - 1) implies #[trigger] host[i]
        != 0x2eu8 by {
        assert(host[i] == label[i]);
    }
}

/// A wildcard pattern admits no host with a further label before the one
/// that the wildcard stands for.
pub proof fn lemma_wildcard_rejects_deeper(outer: Seq<u8>, label: Seq<u8>, domain: Seq<u8>)
    ensures
        !wildcard_matches(
            seq![0x2au8, 0x2eu8] + domain,
            outer + seq![0x2eu8] + label + seq![0x2eu8] + domain,
        ),
{
    let pattern = seq![0x2au8, 0x2eu8] + domain;
    let host = outer + seq![0x2eu8] + label + seq![0x2eu8] + domain;
    assert(pattern.len() == domain.len() + 2);
    assert(host.len() == outer.len() + 1 + label.len() + 1 + domain.len());
    assert(host[outer.len() as int] == 0x2eu8);
}

/// Whether a host fits a host pattern.
pub fn match_host(pattern: &str, host: &str) -> (r: bool)
    ensures
        r == host_matches(pattern@, host@),
{
    let p = pattern.as_bytes();
    let h = host.as_bytes();
    if bytes_equal(p, h) {
        proof {
            lemma_encode_injective(pattern@, host@);
        }
        return true;
    }
    if p.len() < 2 || p[0] != 0x2au8 || p[1] != 0x2eu8 {
        return false;
    }
    let tail: usize = p.len() - 1;
    if h.len() < tail {
        return false;
    }
    let lead: usize = h.len() - tail;
    let host_tail = &h[lead..h.len()];
    let pattern_tail = &p[1..p.len()];
    assert(host_tail@ == h@.subrange(lead as int, h@.len() as int));
    assert(pattern_tail@ == p@.subrange(1, p@.len() as int));
    if !bytes_equal(host_tail, pattern_tail) {
        return false;
    }
    let mut i: usize = 0;
    while i < lead
        invariant
            i <= lead,
            lead <= h.len(),
            p@ == encode_utf8(pattern@),
            h@ == encode_utf8(host@),
            p@ != h@,
            pattern@ != host@,
            p@.len() >= 2,
            p@[0] == 0x2au8,
            p@[1] == 0x2eu8,
            lead == h@.len() - (p@.len() - 1),
            h@.subrange(lead as int, h@.len() as int) == p@.subrange(1, p@.len() as int),
            forall|j: int| 0 <= j < i ==> #[trigger] h@[j] != 0x2eu8,
        decreases lead - i,
    {
        if h[i] == 0x2eu8 {
            return false;
        }
        i = i + 1;
    }
    true
}

/// Answers whether a policy admits a URI, a digest or a nonce. Verdicts on
/// URIs are remembered, each with the question it answers, and parsed URIs
/// are remembered too.
pub struct PolicyVerifier {
    policy: CspPolicy,
    url_cache: HashMap<u64, (String, ParsedUri)>,
    verification_cache: VerdictCache,
}

/// Whether every remembered verdict answers its question as the policy does.
pub open spec fn verdicts_hold(policy: PolicyView, entries: Seq<(u64, CachedVerdict)>) -> bool {
    forall|i: int|
        0 <= i < entries.len() ==> uri_verdict(
            policy,
            (#[trigger] entries[i]).1.uri@,
            entries[i].1.directive@,
        ) == Some(entries[i].1.allowed)
}

/// Whether every remembered URI is remembered with its own parts.
pub open spec fn parses_hold(cache: Map<u64, (String, ParsedUri)>) -> bool {
    forall|key: u64| #[trigger]
        cache.dom().contains(key) ==> url_parse(cache[key].0@) == Some(cache[key].1@)
}

/// Whether `after` is `before` with one verdict remembered: the verdict
/// carries its question, stands under the key as the most recently used
/// pair, and has taken the place of the pair of the same key or, in a full
/// cache, of the least recently used pair.
pub open spec fn remembered(
    before: Seq<(u64, CachedVerdict)>,
    capacity: nat,
    after: Seq<(u64, CachedVerdict)>,
    key: u64,
    uri: Seq<char>,
    directive_name: Seq<char>,
    allowed: bool,
) -> bool {
    &&& after.len() > 0
    &&& after[0].0 == key
    &&& after[0].1.uri@ == uri
    &&& after[0].1.directive@ == directive_name
    &&& after[0].1.allowed == allowed
    &&& after == lru_put(before, capacity, key, after[0].1)
}

/// Using a key keeps the remembered verdicts true.
pub proof fn lemma_touch_holds(policy: PolicyView, entries: Seq<(u64, CachedVerdict)>, key: u64)
    requires
        verdicts_hold(policy, entries),
    ensures
        verdicts_hold(policy, lru_touch(entries, key)),
{
    let after = lru_touch(entries, key);
    if lru_has(entries, key) {
        let at = lru_position(entries, key);
        assert forall|i: int| 0 <= i < after.len() implies uri_verdict(
            policy,
            (#[trigger] after[i]).1.uri@,
            after[i].1.directive@,
        ) == Some(after[i].1.allowed) by {
            if i == 0 {
                assert(after[0] == entries[at]);
            } else if i - 1 < at {
                assert(after[i] == entries[i - 1]);
            } else {
                assert(after[i] == entries[i]);
            }
        }
    }
}

/// Remembering a true verdict keeps the remembered verdicts true.
pub proof fn lemma_put_holds(
    policy: PolicyView,
    entries: Seq<(u64, CachedVerdict)>,
    capacity: nat,
    key: u64,
    value: CachedVerdict,
)
    requires
        capacity > 0,
        verdicts_hold(policy, entries),
        uri_verdict(policy, value.uri@, value.directive@) == Some(value.allowed),
    ensures
        verdicts_hold(policy, lru_put(entries, capacity, key, value)),
{
    let after = lru_put(entries, capacity, key, value);
    assert forall|i: int| 0 <= i < after.len() implies uri_verdict(
        policy,
        (#[trigger] after[i]).1.uri@,
        after[i].1.directive@,
    ) == Some(after[i].1.allowed) by {
        if i == 0 {
            assert(after[0] == (key, value));
        } else if lru_has(entries, key) {
            let at = lru_position(entries, key);
            if i - 1 < at {
                assert(after[i] == entries[i - 1]);
            } else {
                assert(after[i] == entries[i]);
            }
        } else {
            assert(after[i] == entries[i - 1]);
        }
    }
}

/// The bytes that stand for a question: those of the URI and those of the
/// directive name, each closed by the byte `0xff`.
pub open spec fn question_bytes(uri: Seq<char>, directive_name: Seq<char>) -> Seq<u8> {
    encode_utf8(uri) + seq![0xffu8] + encode_utf8(directive_name) + seq![0xffu8]
}

/// Writes out the bytes that stand for a question.
fn question_text(uri: &str, directive_name: &str) -> (r: Vec<u8>)
    ensures
        r@ == question_bytes(uri@, directive_name@),
{
    let mut bytes: Vec<u8> = Vec::new();
    let u = uri.as_bytes();
    let mut i: usize = 0;
    assert(bytes@ == u@.subrange(0, 0));
    while i < u.len()
        invariant
            i <= u.len(),
            bytes@ == u@.subrange(0, i as int),
        decreases u.len() - i,
    {
        bytes.push(u[i]);
        assert(bytes@ == u@.subrange(0, i + 1));
        i = i + 1;
    }
    assert(u@.subrange(0, u@.len() as int) == u@);
    bytes.push(0xffu8);
    let ghost head = bytes@;
    let d = directive_name.as_bytes();
    let mut j: usize = 0;
    assert(bytes@ == head + d@.subrange(0, 0));
    while j < d.len()
        invariant
            j <= d.len(),
            bytes@ == head + d@.subrange(0, j as int),
        decreases d.len() - j,
    {
        bytes.push(d[j]);
        assert(bytes@ == head + d@.subrange(0, j + 1));
        j = j + 1;
    }
    assert(d@.subrange(0, d@.len() as int) == d@);
    bytes.push(0xffu8);
    assert(bytes@ == encode_utf8(uri@) + seq![0xffu8] + encode_utf8(directive_name@) + seq![
        0xffu8,
    ]);
    bytes
}

/// The key under which a question is remembered: the Fx hash of the bytes
/// that stand for it. Nothing is promised of the number; what is remembered
/// under it carries the question itself.
fn question_key(uri: &str, directive_name: &str) -> u64 {
    let bytes = question_text(uri, directive_name);
    fx_hash(bytes.as_slice())
}

/// Whether `'none'` is among the sources.
fn holds_nothing(directive: &Directive) -> (r: bool)
    ensures
        r == has_nothing(directive@),
{
    let items = directive.sources();
    let ghost views = source_views(items@);
    let mut i: usize = 0;
    while i < items.len()
        invariant
            i <= items.len(),
            views == source_views(items@),
            views == directive@.sources,
            forall|j: int| 0 <= j < i ==> !(#[trigger] views[j] is None_),
        decreases items.len() - i,
    {
        if items[i].is_none() {
            assert(views[i as int] is None_);
            return true;
        }
        i = i + 1;
    }
    false
}

/// Whether the directive holds a source equal to the given one.
fn holds_source(directive: &Directive, source: &Source) -> (r: bool)
    ensures
        r == directive@.sources.contains(source@),
{
    let items = directive.sources();
    let ghost views = source_views(items@);
    let mut i: usize = 0;
    while i < items.len()
        invariant
            i <= items.len(),
            views == source_views(items@),
            views == directive@.sources,
            forall|j: int| 0 <= j < i ==> views[j] != source@,
        decreases items.len() - i,
    {
        if items[i].same_as(source) {
            assert(views[i as int] == source@);
            return true;
        }
        i = i + 1;
    }
    false
}

/// Whether the directive holds that nonce.
fn holds_nonce(directive: &Directive, nonce: &str) -> (r: bool)
    ensures
        r == admits_nonce(directive@, nonce@),
{
    let items = directive.sources();
    let ghost views = source_views(items@);
    let mut i: usize = 0;
    while i < items.len()
        invariant
            i <= items.len(),
            views == source_views(items@),
            views == directive@.sources,
            forall|j: int| 0 <= j < i ==> views[j] != SourceView::Nonce(nonce@),
        decreases items.len() - i,
    {
        match &items[i] {
            Source::Nonce(expected) => {
                if fast_string_compare(nonce, crate::source::cow_str(expected)) {
                    assert(views[i as int] == SourceView::Nonce(nonce@));
                    return true;
                }
            },
            _ => {},
        }
        i = i + 1;
    }
    false
}

/// Whether the directive holds a hash source that the content fits.
fn holds_digest_of(directive: &Directive, content: &[u8]) -> (r: bool)
    requires
        digest_input_ok(content@.len()),
    ensures
        r == admits_content(directive@, content@),
{
    let items = directive.sources();
    let ghost views = source_views(items@);
    let mut i: usize = 0;
    while i < items.len()
        invariant
            i <= items.len(),
            digest_input_ok(content@.len()),
            views == source_views(items@),
            views == directive@.sources,
            forall|j: int| 0 <= j < i ==> !source_admits_content(#[trigger] views[j], content@),
        decreases items.len() - i,
    {
        match &items[i] {
            Source::Hash { algorithm, value } => {
                let calculated = HashGenerator::generate(*algorithm, content);
                if fast_string_compare(calculated.as_str(), crate::source::cow_str(value)) {
                    assert(source_admits_content(views[i as int], content@));
                    return true;
                }
            },
            _ => {},
        }
        i = i + 1;
    }
    false
}

/// Whether the host of a URI is the given text.
fn host_is(parts: &ParsedUri, text: &str) -> (r: bool)
    ensures
        r == (parts@.host == Some(text@)),
{
    match &parts.host {
        Some(host) => fast_string_compare(host.as_str(), text),
        None => false,
    }
}

/// Whether two optional hosts are the same.
fn same_host(a: &Option<String>, b: &Option<String>) -> (r: bool)
    ensures
        r == (match (*a, *b) {
            (Some(x), Some(y)) => x@ == y@,
            (None, None) => true,
            _ => false,
        }),
{
    match a {
        Some(x) => match b {
            Some(y) => fast_string_compare(x.as_str(), y.as_str()),
            None => false,
        },
        None => b.is_none(),
    }
}

/// Whether two optional ports are the same.
fn same_port(a: Option<u16>, b: Option<u16>) -> (r: bool)
    ensures
        r == (a == b),
{
    match a {
        Some(x) => match b {
            Some(y) => x == y,
            None => false,
        },
        None => b.is_none(),
    }
}

/// Whether one source of the `origin` directive makes the URI same-origin.
fn origin_source_admits(source: &Source, parts: &ParsedUri) -> (r: bool)
    ensures
        r == origin_admits(source@, parts@),
{
    match source {
        Source::Host(host) => {
            let text = crate::source::cow_str(host);
            if host_is(parts, text) {
                return true;
            }
            let mut own_text = String::from_str("https://");
            own_text.append(text);
            match parse_uri(own_text.as_str()) {
                Some(own) => fast_string_compare(parts.scheme.as_str(), own.scheme.as_str())
                    && same_host(&parts.host, &own.host) && same_port(parts.port, own.port),
                None => false,
            }
        },
        _ => false,
    }
}

/// Whether the policy makes the URI same-origin.
fn same_origin(policy: &CspPolicy, parts: &ParsedUri) -> (r: bool)
    ensures
        r == is_same_origin(policy@, parts@),
{
    match policy.get_directive("origin") {
        Some(origin) => {
            let items = origin.sources();
            let ghost views = source_views(items@);
            let mut i: usize = 0;
            while i < items.len()
                invariant
                    i <= items.len(),
                    views == source_views(items@),
                    views == origin@.sources,
                    policy@.find("origin"@) == Some(origin@),
                    forall|j: int| 0 <= j < i ==> !origin_admits(#[trigger] views[j], parts@),
                decreases items.len() - i,
            {
                assert(views.len() == items@.len());
                if origin_source_admits(&items[i], parts) {
                    assert(origin_admits(origin@.sources[i as int], parts@));
                    return true;
                }
                i = i + 1;
            }
            false
        },
        None => false,
    }
}

/// Whether one source admits the URI.
fn source_allows(policy: &CspPolicy, source: &Source, parts: &ParsedUri) -> (r: bool)
    ensures
        r == source_admits(policy@, source@, parts@),
{
    match source {
        Source::Self_ => same_origin(policy, parts),
        Source::Host(pattern) => match &parts.host {
            Some(host) => match_host(crate::source::cow_str(pattern), host.as_str()),
            None => false,
        },
        Source::Scheme(scheme) => fast_string_compare(
            parts.scheme.as_str(),
            crate::source::cow_str(scheme),
        ),
        _ => false,
    }
}

/// Whether the directive admits the URI.
fn directive_allows(policy: &CspPolicy, directive: &Directive, parts: &ParsedUri) -> (r: bool)
    ensures
        r == directive_admits(policy@, directive@, parts@),
{
    if holds_nothing(directive) {
        return false;
    }
    let items = directive.sources();
    let ghost views = source_views(items@);
    let mut i: usize = 0;
    while i < items.len()
        invariant
            i <= items.len(),
            views == source_views(items@),
            views == directive@.sources,
            !has_nothing(directive@),
            forall|j: int| 0 <= j < i ==> !source_admits(policy@, #[trigger] views[j], parts@),
        decreases items.len() - i,
    {
        assert(views.len() == items@.len());
        if source_allows(policy, &items[i], parts) {
            assert(source_admits(policy@, directive@.sources[i as int], parts@));
            return true;
        }
        i = i + 1;
    }
    false
}

/// The directive that decides for a name.
fn effective_directive<'a>(policy: &'a CspPolicy, name: &str) -> (r: Option<&'a Directive>)
    ensures
        match r {
            Some(directive) => effective(policy@, name@) == Some(directive@),
            None => effective(policy@, name@) is None,
        },
{
    match policy.get_directive(name) {
        Some(directive) => Some(directive),
        None => {
            if !fast_string_compare(name, "default-src") {
                policy.get_directive("default-src")
            } else {
                None
            }
        },
    }
}

impl PolicyVerifier {
    /// The policy that the verifier answers for.
    pub closed spec fn policy_view(&self) -> PolicyView {
        self.policy@
    }

    /// Whether what the verifier remembers is true of its policy.
    pub closed spec fn wf(&self) -> bool {
        &&& crate::cache::verdict_capacity(self.verification_cache) > 0
        &&& verdicts_hold(self.policy@, verdict_entries(self.verification_cache))
        &&& parses_hold(self.url_cache@)
    }

    /// Whether the verifier remembers nothing.
    pub closed spec fn is_fresh(&self) -> bool {
        &&& verdict_entries(self.verification_cache).len() == 0
        &&& self.url_cache@.len() == 0
    }

    /// A verifier for the policy that remembers nothing yet.
    pub fn new(policy: CspPolicy) -> (r: Self)
        ensures
            r.wf(),
            r.is_fresh(),
            r.policy_view() == policy@,
    {
        let r = PolicyVerifier {
            policy,
            url_cache: HashMap::new(),
            verification_cache: verdict_cache_new(512),
        };
        assert(r.url_cache@.dom() =~= Set::<u64>::empty());
        r
    }

    /// The parts of a URI, from memory where they are remembered.
    fn parts_of(cache: &mut HashMap<u64, (String, ParsedUri)>, uri: &str) -> (r: Option<ParsedUri>)
        requires
            parses_hold(old(cache)@),
        ensures
            parses_hold(final(cache)@),
            match r {
                Some(parts) => url_parse(uri@) == Some(parts@),
                None => url_parse(uri@) is None,
            },
    {
        let key = fx_hash(uri.as_bytes());
        match cache.get(&key) {
            Some(known) => {
                if fast_string_compare(known.0.as_str(), uri) {
                    return Some(known.1.clone());
                }
            },
            None => {},
        }
        match parse_uri(uri) {
            Some(parts) => {
                if cache.len() < 256 {
                    cache.insert(key, (uri.to_owned(), parts.clone()));
                }
                Some(parts)
            },
            None => None,
        }
    }

    /// Remembers a verdict with its question.
    fn remember(
        cache: &mut VerdictCache,
        key: u64,
        uri: &str,
        directive_name: &str,
        allowed: bool,
        Ghost(policy): Ghost<PolicyView>,
    )
        requires
            crate::cache::verdict_capacity(*old(cache)) > 0,
            verdicts_hold(policy, verdict_entries(*old(cache))),
            uri_verdict(policy, uri@, directive_name@) == Some(allowed),
        ensures
            crate::cache::verdict_capacity(*final(cache)) == crate::cache::verdict_capacity(
                *old(cache),
            ),
            verdicts_hold(policy, verdict_entries(*final(cache))),
            remembered(
                verdict_entries(*old(cache)),
                crate::cache::verdict_capacity(*old(cache)),
                verdict_entries(*final(cache)),
                key,
                uri@,
                directive_name@,
                allowed,
            ),
    {
        let value = CachedVerdict {
            uri: uri.to_owned(),
            directive: directive_name.to_owned(),
            allowed,
        };
        proof {
            lemma_put_holds(
                policy,
                verdict_entries(*cache),
                crate::cache::verdict_capacity(*cache),
                key,
                value,
            );
            crate::cache::lemma_put_then_found(
                verdict_entries(*cache),
                crate::cache::verdict_capacity(*cache),
                key,
                value,
            );
        }
        verdict_cache_put(cache, key, value);
    }

    /// Whether the policy admits the URI under the directive name. Where
    /// neither the directive nor `default-src` exists the URI is allowed.
    /// A URI that does not parse is an error, and no verdict is remembered
    /// for it.
    pub fn verify_uri(&mut self, uri: &str, directive_name: &str) -> (r: Result<bool, CspError>)
        requires
            old(self).wf(),
        ensures
            final(self).wf(),
            final(self).policy_view() == old(self).policy_view(),
            match r {
                Ok(allowed) => uri_verdict(old(self).policy_view(), uri@, directive_name@) == Some(
                    allowed,
                ),
                Err(e) => uri_verdict(old(self).policy_view(), uri@, directive_name@) is None
                    && is_invalid_uri(e, uri@),
            },
    {
        let ghost view = self.policy@;
        let key = question_key(uri, directive_name);
        proof {
            lemma_touch_holds(view, verdict_entries(self.verification_cache), key);
        }
        match verdict_cache_get(&mut self.verification_cache, key) {
            Some(known) => {
                if fast_string_compare(known.uri.as_str(), uri) && fast_string_compare(
                    known.directive.as_str(),
                    directive_name,
                ) {
                    return Ok(known.allowed);
                }
            },
            None => {},
        }
        let directive = match effective_directive(&self.policy, directive_name) {
            Some(directive) => directive,
            None => {
                Self::remember(
                    &mut self.verification_cache,
                    key,
                    uri,
                    directive_name,
                    true,
                    Ghost(view),
                );
                return Ok(true);
            },
        };
        let parts = match Self::parts_of(&mut self.url_cache, uri) {
            Some(parts) => parts,
            None => {
                let mut message = String::from_str("Invalid URI: ");
                message.append(uri);
                return Err(CspError::VerificationError(message));
            },
        };
        let allowed = directive_allows(&self.policy, directive, &parts);
        Self::remember(
            &mut self.verification_cache,
            key,
            uri,
            directive_name,
            allowed,
            Ghost(view),
        );
        Ok(allowed)
    }

    /// Whether the policy admits content by its digest under the directive
    /// name.
    pub fn verify_hash(&self, content: &[u8], directive_name: &str) -> (r: Result<bool, CspError>)
        requires
            digest_input_ok(content@.len()),
        ensures
            r matches Ok(allowed) && allowed == hash_verdict(
                self.policy_view(),
                content@,
                directive_name@,
            ),
    {
        match effective_directive(&self.policy, directive_name) {
            Some(directive) => {
                if holds_nothing(directive) {
                    return Ok(false);
                }
                Ok(holds_digest_of(directive, content))
            },
            None => Ok(false),
        }
    }

    /// Whether the policy admits the nonce under the directive name.
    pub fn verify_nonce(&self, nonce: &str, directive_name: &str) -> (r: Result<bool, CspError>)
        ensures
            r matches Ok(allowed) && allowed == nonce_verdict(
                self.policy_view(),
                nonce@,
                directive_name@,
            ),
    {
        match effective_directive(&self.policy, directive_name) {
            Some(directive) => {
                if holds_nothing(directive) {
                    return Ok(false);
                }
                Ok(holds_nonce(directive, nonce))
            },
            None => Ok(false),
        }
    }

    pub fn policy(&self) -> (r: &CspPolicy)
        ensures
            r@ == self.policy_view(),
    {
        &self.policy
    }

    /// The policy, to be changed in place. The remembered verdicts are
    /// forgotten first, since they answer for the policy as it was.
    pub fn policy_mut(&mut self) -> (ret: &mut CspPolicy)
        requires
            old(self).wf(),
        ensures
            ret@ == old(self).policy_view(),
            final(self).policy_view() == final(ret)@,
            final(self).wf(),
    {
        verdict_cache_clear(&mut self.verification_cache);
        &mut self.policy
    }

    /// Forgets everything that is remembered.
    pub fn clear_caches(&mut self)
        requires
            old(self).wf(),
        ensures
            final(self).wf(),
            final(self).is_fresh(),
            final(self).policy_view() == old(self).policy_view(),
    {
        self.url_cache.clear();
        verdict_cache_clear(&mut self.verification_cache);
        assert(self.url_cache@.dom() =~= Set::<u64>::empty());
    }

    /// The verdict on inline content under a directive name.
    fn verify_inline(&self, name: &str, content: &[u8], nonce: Option<&str>) -> (r: bool)
        requires
            digest_input_ok(content@.len()),
        ensures
            r == inline_verdict(
                self.policy_view(),
                name@,
                content@,
                match nonce {
                    Some(given) => Some(given@),
                    None => None,
                },
            ),
    {
        match effective_directive(&self.policy, name) {
            Some(directive) => {
                if holds_nothing(directive) {
                    return false;
                }
                if holds_source(directive, &Source::UnsafeInline) {
                    return true;
                }
                match nonce {
                    Some(given) => {
                        if holds_nonce(directive, given) {
                            return true;
                        }
                    },
                    None => {},
                }
                holds_digest_of(directive, content)
            },
            None => true,
        }
    }

    /// Whether the policy admits an inline script, by `script-src` or else
    /// `default-src`.
    pub fn verify_inline_script(&self, content: &[u8], nonce: Option<&str>) -> (r: Result<
        bool,
        CspError,
    >)
        requires
            digest_input_ok(content@.len()),
        ensures
            r matches Ok(allowed) && allowed == inline_verdict(
                self.policy_view(),
                "script-src"@,
                content@,
                match nonce {
                    Some(given) => Some(given@),
                    None => None,
                },
            ),
    {
        Ok(self.verify_inline("script-src", content, nonce))
    }

    /// Whether the policy admits an inline style, by `style-src` or else
    /// `default-src`.
    pub fn verify_inline_style(&self, content: &[u8], nonce: Option<&str>) -> (r: Result<
        bool,
        CspError,
    >)
        requires
            digest_input_ok(content@.len()),
        ensures
            r matches Ok(allowed) && allowed == inline_verdict(
                self.policy_view(),
                "style-src"@,
                content@,
                match nonce {
                    Some(given) => Some(given@),
                    None => None,
                },
            ),
    {
        Ok(self.verify_inline("style-src", content, nonce))
    }
}

} // verus!
