use vstd::prelude::*;
use vstd::utf8::encode_utf8;
use std::borrow::Cow;
use std::time::Duration;
use actix_web::http::header::HeaderValue;
use bytes::BytesMut;
use crate::buffer::buffer_bytes;
use crate::buffer::buffer_extend;
use crate::buffer::buffer_with_capacity;
use crate::buffer::header_bytes;
use crate::buffer::header_bytes_ok;
use crate::buffer::header_clone;
use crate::buffer::header_from_buffer;
use crate::directive::text_len;
use crate::directive::Directive;
use crate::directive::DirectiveView;
use crate::error::CspError;
use crate::fx::fx_hash;
use crate::ordered::distinct_keys;
use crate::ordered::has_key;
use crate::ordered::key_position;
use crate::ordered::map_entries;
use crate::ordered::map_get;
use crate::ordered::map_get_index;
use crate::ordered::map_insert;
use crate::ordered::map_len;
use crate::ordered::map_new;
use crate::ordered::DirectiveMap;
use crate::source::clamp;
use crate::source::cow_clone;
use crate::source::cow_str;
use crate::source::size_sum;
use crate::utils::lemma_encode_concat;
use crate::utils::CachedValue;

verus! {

/// A policy as a mathematical value: its directives in insertion order and
/// its reporting settings.
pub struct PolicyView {
    pub directives: Seq<DirectiveView>,
    pub report_only: bool,
    pub report_uri: Option<Seq<char>>,
    pub report_to: Option<Seq<char>>,
}

/// What stands before a segment of the header: nothing before the first,
/// a semicolon and a space before the others.
pub open spec fn separator(first: bool) -> Seq<char> {
    if first {
        Seq::<char>::empty()
    } else {
        "; "@
    }
}

/// The directives written one after the other, joined by `"; "`.
pub open spec fn joined(directives: Seq<DirectiveView>) -> Seq<char>
    decreases directives.len(),
{
    if directives.len() == 0 {
        Seq::<char>::empty()
    } else {
        joined(directives.drop_last()) + separator(directives.len() == 1)
            + directives.last().text()
    }
}

/// A reporting segment: the separator, the keyword, a space and the value;
/// nothing where the setting is absent.
pub open spec fn report_segment(first: bool, keyword: Seq<char>, value: Option<Seq<char>>) -> Seq<
    char,
> {
    match value {
        Some(text) => separator(first) + keyword + " "@ + text,
        None => Seq::<char>::empty(),
    }
}

/// The first complaint among the directives, in their order.
pub open spec fn first_complaint(directives: Seq<DirectiveView>) -> Option<Seq<char>>
    decreases directives.len(),
{
    if directives.len() == 0 {
        None
    } else if directives[0].validation_error() is Some {
        directives[0].validation_error()
    } else {
        first_complaint(directives.drop_first())
    }
}

/// A number in `width` bytes, least significant first.
pub open spec fn le_bytes(n: nat, width: nat) -> Seq<u8>
    decreases width,
{
    if width == 0 {
        Seq::<u8>::empty()
    } else {
        seq![(n % 256) as u8] + le_bytes(n / 256, (width - 1) as nat)
    }
}

/// What the directives contribute to the hashed bytes: for each, its name
/// and its written form, each closed by the byte `0xff`.
pub open spec fn directives_digest(directives: Seq<DirectiveView>) -> Seq<u8>
    decreases directives.len(),
{
    if directives.len() == 0 {
        Seq::<u8>::empty()
    } else {
        directives_digest(directives.drop_last()) + encode_utf8(directives.last().name)
            + seq![0xffu8] + encode_utf8(directives.last().text()) + seq![0xffu8]
    }
}

/// What an optional text contributes to the hashed bytes: `1`, the text and
/// `0xff` where it is present, `0` where it is not.
pub open spec fn optional_digest(value: Option<Seq<char>>) -> Seq<u8> {
    match value {
        Some(text) => seq![1u8] + encode_utf8(text) + seq![0xffu8],
        None => seq![0u8],
    }
}

impl PolicyView {
    /// Whether a directive of that name is present.
    pub open spec fn has(self, name: Seq<char>) -> bool {
        exists|i: int| 0 <= i < self.directives.len() && (#[trigger] self.directives[i]).name == name
    }

    /// The position of a directive of that name.
    pub open spec fn position(self, name: Seq<char>) -> int {
        choose|i: int| 0 <= i < self.directives.len() && (#[trigger] self.directives[i]).name == name
    }

    /// The directive of that name, if there is one.
    pub open spec fn find(self, name: Seq<char>) -> Option<DirectiveView> {
        if self.has(name) {
            Some(self.directives[self.position(name)])
        } else {
            None
        }
    }

    /// No two directives share a name.
    pub open spec fn distinct_names(self) -> bool {
        forall|i: int, j: int|
            0 <= i < self.directives.len() && 0 <= j < self.directives.len() && i != j ==> (
            #[trigger] self.directives[i]).name != (#[trigger] self.directives[j]).name
    }

    /// The policy after a directive was added: it replaces the one of the
    /// same name, in its place, or goes last.
    pub open spec fn with_directive(self, directive: DirectiveView) -> PolicyView {
        PolicyView {
            directives: if self.has(directive.name) {
                self.directives.update(self.position(directive.name), directive)
            } else {
                self.directives.push(directive)
            },
            ..self
        }
    }

    /// The `report-uri` segment of the header.
    pub open spec fn uri_segment(self) -> Seq<char> {
        report_segment(self.directives.len() == 0, "report-uri"@, self.report_uri)
    }

    /// The `report-to` segment of the header.
    pub open spec fn to_segment(self) -> Seq<char> {
        report_segment(
            self.directives.len() == 0 && self.report_uri is None,
            "report-to"@,
            self.report_to,
        )
    }

    /// The header value of the policy: the directives in insertion order
    /// joined by `"; "`, then `report-uri` and `report-to` where they are
    /// set, each behind `"; "` unless it comes first.
    pub open spec fn text(self) -> Seq<char> {
        joined(self.directives) + self.uri_segment() + self.to_segment()
    }

    /// The name of the header that carries the policy.
    pub open spec fn header_name(self) -> Seq<char> {
        if self.report_only {
            "content-security-policy-report-only"@
        } else {
            "content-security-policy"@
        }
    }

    /// What is wrong with the policy, if anything: the complaint of the first
    /// directive that has one.
    pub open spec fn validation_error(self) -> Option<Seq<char>> {
        first_complaint(self.directives)
    }

    /// Whether the header value can be produced: it is short enough to be
    /// allocated and holds only bytes that a header value may hold.
    pub open spec fn compilable(self) -> bool {
        text_len(self.text()) <= isize::MAX && header_bytes_ok(encode_utf8(self.text()))
    }

    /// The bytes that are hashed: the number of directives, each directive,
    /// the report-only flag, and the two reporting settings.
    pub open spec fn hash_input(self) -> Seq<u8> {
        le_bytes(self.directives.len(), 8) + directives_digest(self.directives) + seq![
            if self.report_only {
                1u8
            } else {
                0u8
            },
        ] + optional_digest(self.report_uri) + optional_digest(self.report_to)
    }

    pub open spec fn contains_nonce(self) -> bool {
        exists|i: int| 0 <= i < self.directives.len() && (#[trigger] self.directives[i]).contains_nonce()
    }

    pub open spec fn contains_hash(self) -> bool {
        exists|i: int| 0 <= i < self.directives.len() && (#[trigger] self.directives[i]).contains_hash()
    }
}

/// Whether the bytes are the header value of the policy: the policy can be
/// written, and the bytes are its written form in UTF-8.
pub open spec fn is_header_of(policy: PolicyView, bytes: Seq<u8>) -> bool {
    policy.compilable() && bytes == encode_utf8(policy.text())
}

/// A policy has one header value: whatever is compiled from the same policy
/// is the same bytes.
pub proof fn lemma_header_is_determined(policy: PolicyView, first: Seq<u8>, second: Seq<u8>)
    requires
        is_header_of(policy, first),
        is_header_of(policy, second),
    ensures
        first == second,
{
}

/// Whether `answer` answers a request for the structural hash, given what
/// was remembered before and what is remembered after: the answer is not
/// zero, it is what was remembered, if anything was, and it is remembered
/// from now on.
pub open spec fn answers_hash(before: Option<u64>, answer: u64, after: Option<u64>) -> bool {
    &&& answer != 0
    &&& after == Some(answer)
    &&& before matches Some(known) ==> answer == known
}

/// Asked twice without a change in between, the structural hash answers the
/// same.
pub proof fn lemma_hash_is_stable(
    before: Option<u64>,
    first: u64,
    between: Option<u64>,
    second: u64,
    after: Option<u64>,
)
    requires
        answers_hash(before, first, between),
        answers_hash(between, second, after),
    ensures
        first == second,
{
}

/// The error of a header value that cannot be produced.
pub open spec fn is_header_failure(e: CspError) -> bool {
    e matches CspError::InvalidDirectiveValue(message) && message@
        == "Failed to create header value"@
}

/// The value used as a key in place of a raw hash: the hash itself, or `1`
/// where the hash is zero.
pub open spec fn nonzero_key(raw: u64) -> u64 {
    if raw == 0 {
        1
    } else {
        raw
    }
}

/// Coerces a raw hash into a key that is never zero.
pub fn to_nonzero_key(raw: u64) -> (r: u64)
    ensures
        r == nonzero_key(raw),
        r != 0,
{
    if raw == 0 {
        1
    } else {
        raw
    }
}

/// The views of the values of a run of pairs.
pub open spec fn entry_views(entries: Seq<(Seq<char>, Directive)>) -> Seq<DirectiveView> {
    entries.map_values(|entry: (Seq<char>, Directive)| entry.1@)
}

/// Writing one more directive: the written form grows by the separator and
/// the directive.
pub proof fn lemma_joined_push(directives: Seq<DirectiveView>, directive: DirectiveView)
    ensures
        joined(directives.push(directive)) == joined(directives) + separator(directives.len() == 0)
            + directive.text(),
        encode_utf8(joined(directives.push(directive))) == encode_utf8(joined(directives))
            + encode_utf8(separator(directives.len() == 0)) + encode_utf8(directive.text()),
        text_len(joined(directives.push(directive))) == text_len(joined(directives)) + text_len(
            separator(directives.len() == 0),
        ) + directive.byte_len(),
{
    let grown = directives.push(directive);
    assert(grown.drop_last() == directives);
    assert(grown.last() == directive);
    lemma_encode_concat(joined(directives), separator(directives.len() == 0));
    lemma_encode_concat(
        joined(directives) + separator(directives.len() == 0),
        directive.text(),
    );
}

/// The written form of the first directives is no longer than that of all.
pub proof fn lemma_joined_prefix_len(directives: Seq<DirectiveView>, upto: int)
    requires
        0 <= upto <= directives.len(),
    ensures
        text_len(joined(directives.subrange(0, upto))) <= text_len(joined(directives)),
    decreases directives.len() - upto,
{
    if upto == directives.len() {
        assert(directives.subrange(0, upto) == directives);
    } else {
        lemma_joined_prefix_len(directives, upto + 1);
        let done = directives.subrange(0, upto);
        assert(directives.subrange(0, upto + 1) == done.push(directives[upto]));
        lemma_joined_push(done, directives[upto]);
    }
}

/// The bytes of a reporting segment are those of its parts.
pub proof fn lemma_report_segment(first: bool, keyword: Seq<char>, text: Seq<char>)
    ensures
        encode_utf8(report_segment(first, keyword, Some(text))) == encode_utf8(separator(first))
            + encode_utf8(keyword) + encode_utf8(" "@) + encode_utf8(text),
{
    lemma_encode_concat(separator(first), keyword);
    lemma_encode_concat(separator(first) + keyword, " "@);
    lemma_encode_concat(separator(first) + keyword + " "@, text);
}

/// The bytes of a header value are those of its three parts.
pub proof fn lemma_policy_text(view: PolicyView)
    ensures
        encode_utf8(view.text()) == encode_utf8(joined(view.directives)) + encode_utf8(
            view.uri_segment(),
        ) + encode_utf8(view.to_segment()),
        text_len(view.text()) == text_len(joined(view.directives)) + text_len(view.uri_segment())
            + text_len(view.to_segment()),
{
    lemma_encode_concat(joined(view.directives), view.uri_segment());
    lemma_encode_concat(joined(view.directives) + view.uri_segment(), view.to_segment());
}

/// Where no directive before position `at` has a complaint, the first
/// complaint of all is the first from `at` on.
pub proof fn lemma_first_complaint_skip(directives: Seq<DirectiveView>, at: int)
    requires
        0 <= at <= directives.len(),
        forall|j: int| 0 <= j < at ==> (#[trigger] directives[j]).validation_error() is None,
    ensures
        first_complaint(directives) == first_complaint(
            directives.subrange(at, directives.len() as int),
        ),
    decreases at,
{
    if at == 0 {
        assert(directives.subrange(0, directives.len() as int) == directives);
    } else {
        let rest = directives.drop_first();
        assert forall|j: int| 0 <= j < at - 1 implies (#[trigger] rest[j]).validation_error() is None by {
            assert(rest[j] == directives[j + 1]);
        }
        lemma_first_complaint_skip(rest, at - 1);
        assert(rest.subrange(at - 1, rest.len() as int) == directives.subrange(
            at,
            directives.len() as int,
        ));
    }
}

/// An insertion keeps the keys distinct.
pub proof fn lemma_insert_keeps_distinct(
    entries: Seq<(Seq<char>, Directive)>,
    key: Seq<char>,
    value: Directive,
)
    requires
        distinct_keys(entries),
    ensures
        distinct_keys(crate::ordered::entries_insert(entries, key, value)),
{
    let after = crate::ordered::entries_insert(entries, key, value);
    assert forall|i: int, j: int|
        0 <= i < after.len() && 0 <= j < after.len() && i != j implies (#[trigger] after[i]).0 != (
    #[trigger] after[j]).0 by {
        if has_key(entries, key) {
            let k = key_position(entries, key);
            assert(after[i].0 == entries[i].0);
            assert(after[j].0 == entries[j].0);
        } else {
            if i < entries.len() {
                assert(after[i] == entries[i]);
            }
            if j < entries.len() {
                assert(after[j] == entries[j]);
            }
        }
    }
}

/// An ordered set of directives with its reporting settings. The compiled
/// header value and the structural hash are remembered until the policy
/// changes.
#[derive(Debug)]
pub struct CspPolicy {
    directives: DirectiveMap,
    report_only: bool,
    report_uri: Option<Cow<'static, str>>,
    report_to: Option<Cow<'static, str>>,
    cached_header_value: Option<CachedValue<HeaderValue>>,
    policy_hash: Option<u64>,
}

/// The text of an optional string.
pub open spec fn optional_text(value: Option<Cow<'static, str>>) -> Option<Seq<char>> {
    match value {
        Some(text) => Some(text@),
        None => None,
    }
}

impl View for CspPolicy {
    type V = PolicyView;

    closed spec fn view(&self) -> PolicyView {
        PolicyView {
            directives: entry_views(map_entries(self.directives)),
            report_only: self.report_only,
            report_uri: optional_text(self.report_uri),
            report_to: optional_text(self.report_to),
        }
    }
}

/// Appends bytes to a vector.
fn append_bytes(out: &mut Vec<u8>, data: &[u8])
    ensures
        final(out)@ == old(out)@ + data@,
{
    let mut i: usize = 0;
    assert(out@ == old(out)@ + data@.subrange(0, 0));
    while i < data.len()
        invariant
            i <= data.len(),
            out@ == old(out)@ + data@.subrange(0, i as int),
        decreases data.len() - i,
    {
        out.push(data[i]);
        assert(old(out)@ + data@.subrange(0, i + 1) == (old(out)@ + data@.subrange(
            0,
            i as int,
        )).push(data@[i as int]));
        i = i + 1;
    }
    assert(data@.subrange(0, data@.len() as int) == data@);
}

/// Appends a number in eight bytes, least significant first.
fn append_count(out: &mut Vec<u8>, count: usize)
    ensures
        final(out)@ == old(out)@ + le_bytes(count as nat, 8),
{
    let mut rest: usize = count;
    let mut written: usize = 0;
    assert(le_bytes(count as nat, 8) == le_bytes(count as nat, 8) + le_bytes(0, 0));
    assert(out@ + le_bytes(count as nat, 8) == old(out)@ + le_bytes(count as nat, 8));
    while written < 8
        invariant
            written <= 8,
            out@ + le_bytes(rest as nat, (8 - written) as nat) == old(out)@ + le_bytes(
                count as nat,
                8,
            ),
        decreases 8 - written,
    {
        let low: u8 = (rest % 256) as u8;
        proof {
            let width = (8 - written) as nat;
            assert(le_bytes(rest as nat, width) == seq![low] + le_bytes(
                (rest / 256) as nat,
                (width - 1) as nat,
            ));
            assert(out@.push(low) + le_bytes((rest / 256) as nat, (width - 1) as nat) == out@ + (
            seq![low] + le_bytes((rest / 256) as nat, (width - 1) as nat)));
        }
        out.push(low);
        rest = rest / 256;
        written = written + 1;
    }
    assert(le_bytes(rest as nat, 0) == Seq::<u8>::empty());
    assert(out@ + Seq::<u8>::empty() == out@);
}

/// Appends what an optional text contributes to the hashed bytes.
fn append_optional(out: &mut Vec<u8>, value: &Option<Cow<'static, str>>)
    ensures
        final(out)@ == old(out)@ + optional_digest(optional_text(*value)),
{
    match value {
        Some(text) => {
            out.push(1u8);
            append_bytes(out, cow_str(text).as_bytes());
            out.push(0xffu8);
            assert(out@ == old(out)@ + (seq![1u8] + encode_utf8(text@) + seq![0xffu8]));
        },
        None => {
            out.push(0u8);
            assert(out@ == old(out)@ + seq![0u8]);
        },
    }
}

/// Appends one reporting segment.
fn write_report_segment(buffer: &mut BytesMut, first: bool, keyword: &str, value: &str)
    requires
        buffer_bytes(*old(buffer)).len() + text_len(
            report_segment(first, keyword@, Some(value@)),
        ) <= isize::MAX,
    ensures
        buffer_bytes(*final(buffer)) == buffer_bytes(*old(buffer)) + encode_utf8(
            report_segment(first, keyword@, Some(value@)),
        ),
{
    proof {
        lemma_report_segment(first, keyword@, value@);
    }
    if !first {
        buffer_extend(buffer, "; ".as_bytes());
    } else {
        assert(encode_utf8(Seq::<char>::empty()) == Seq::<u8>::empty());
        assert(buffer_bytes(*buffer) + Seq::<u8>::empty() == buffer_bytes(*buffer));
    }
    buffer_extend(buffer, keyword.as_bytes());
    buffer_extend(buffer, " ".as_bytes());
    buffer_extend(buffer, value.as_bytes());
    assert(buffer_bytes(*buffer) == buffer_bytes(*old(buffer)) + (encode_utf8(separator(first))
        + encode_utf8(keyword@) + encode_utf8(" "@) + encode_utf8(value@)));
}

/// The number of bytes a reporting segment takes, held at `usize::MAX`.
fn report_segment_size(first: bool, keyword: &str, value: &str) -> (r: usize)
    ensures
        r == clamp(text_len(report_segment(first, keyword@, Some(value@)))),
{
    proof {
        lemma_report_segment(first, keyword@, value@);
        assert(encode_utf8(Seq::<char>::empty()) == Seq::<u8>::empty());
    }
    let lead: usize = if first {
        0
    } else {
        "; ".as_bytes().len()
    };
    size_sum(
        size_sum(size_sum(lead, keyword.as_bytes().len()), " ".as_bytes().len()),
        value.as_bytes().len(),
    )
}

impl Clone for CspPolicy {
    /// A policy with the same directives and settings. What was remembered
    /// of the header value stays behind; the structural hash comes along.
    fn clone(&self) -> (r: Self)
        ensures
            r@ == self@,
            r.hash_memo() == self.hash_memo(),
            r.header_memo() is None,
    {
        proof {
            use_type_invariant(self);
        }
        let ghost entries = map_entries(self.directives);
        let mut directives = map_new();
        let count = map_len(&self.directives);
        let mut i: usize = 0;
        while i < count
            invariant
                i <= count,
                count == entries.len(),
                entries == map_entries(self.directives),
                distinct_keys(entries),
                forall|k: int| 0 <= k < entries.len() ==> (#[trigger] entries[k]).0 == entries[k].1@.name,
                map_entries(directives).len() == i,
                forall|k: int| 0 <= k < i ==> (#[trigger] map_entries(directives)[k]).0 == entries[k].0
                    && map_entries(directives)[k].1@ == entries[k].1@,
            decreases count - i,
        {
            let ghost before = map_entries(directives);
            match map_get_index(&self.directives, i) {
                Some((key, value)) => {
                    proof {
                        assert(!has_key(before, key@)) by {
                            if has_key(before, key@) {
                                let k = key_position(before, key@);
                                assert(before[k].0 == entries[k].0);
                                assert(entries[k].0 == entries[i as int].0);
                            }
                        }
                        assert(distinct_keys(before)) by {
                            assert forall|a: int, b: int|
                                0 <= a < before.len() && 0 <= b < before.len() && a != b implies (
                            #[trigger] before[a]).0 != (#[trigger] before[b]).0 by {
                                assert(before[a].0 == entries[a].0);
                                assert(before[b].0 == entries[b].0);
                            }
                        }
                    }
                    map_insert(&mut directives, cow_clone(key), value.clone());
                },
                None => {},
            }
            i = i + 1;
        }
        proof {
            let copied = map_entries(directives);
            assert(entry_views(copied) =~= entry_views(entries));
            assert(distinct_keys(copied)) by {
                assert forall|a: int, b: int|
                    0 <= a < copied.len() && 0 <= b < copied.len() && a != b implies (
                #[trigger] copied[a]).0 != (#[trigger] copied[b]).0 by {
                    assert(copied[a].0 == entries[a].0);
                    assert(copied[b].0 == entries[b].0);
                }
            }
        }
        CspPolicy {
            directives,
            report_only: self.report_only,
            report_uri: match &self.report_uri {
                Some(uri) => Some(cow_clone(uri)),
                None => None,
            },
            report_to: match &self.report_to {
                Some(endpoint) => Some(cow_clone(endpoint)),
                None => None,
            },
            cached_header_value: None,
            policy_hash: self.policy_hash,
        }
    }
}

impl Default for CspPolicy {
    fn default() -> (r: Self)
        ensures
            r@ == CspPolicy::empty_view(),
            r.hash_memo() is None,
            r.header_memo() is None,
    {
        CspPolicy::new()
    }
}

impl CspPolicy {
    #[verifier::type_invariant]
    spec fn well_formed(self) -> bool {
        let entries = map_entries(self.directives);
        &&& distinct_keys(entries)
        &&& forall|i: int| 0 <= i < entries.len() ==> (#[trigger] entries[i]).0 == entries[i].1@.name
        &&& self.cached_header_value matches Some(cached) ==> self@.compilable() && header_bytes(
            cached.held(),
        ) == encode_utf8(self@.text())
        &&& self.policy_hash matches Some(hash) ==> hash != 0
    }

    /// The structural hash that is remembered, if any.
    pub closed spec fn hash_memo(&self) -> Option<u64> {
        self.policy_hash
    }

    /// The bytes of the header value that is remembered, if any.
    pub closed spec fn header_memo(&self) -> Option<Seq<u8>> {
        match self.cached_header_value {
            Some(cached) => Some(header_bytes(cached.held())),
            None => None,
        }
    }

    /// The policy without directives or reporting settings.
    pub open spec fn empty_view() -> PolicyView {
        PolicyView {
            directives: Seq::<DirectiveView>::empty(),
            report_only: false,
            report_uri: None,
            report_to: None,
        }
    }

    /// A policy without directives or reporting settings.
    pub fn new() -> (r: Self)
        ensures
            r@ == CspPolicy::empty_view(),
            r.hash_memo() is None,
            r.header_memo() is None,
    {
        let r = CspPolicy {
            directives: map_new(),
            report_only: false,
            report_uri: None,
            report_to: None,
            cached_header_value: None,
            policy_hash: None,
        };
        assert(r@.directives == Seq::<DirectiveView>::empty());
        r
    }

    /// Adds a directive under its name. A directive of the same name is
    /// replaced in its place; a new one goes last. What was remembered of
    /// the header value and the hash is forgotten.
    pub fn add_directive(&mut self, directive: Directive) -> (ret: &mut Self)
        ensures
            ret@ == old(self)@.with_directive(directive@),
            ret@.distinct_names(),
            ret.hash_memo() is None,
            ret.header_memo() is None,
            *final(self) == *final(ret),
    {
        proof {
            use_type_invariant(&*self);
        }
        let ghost before = map_entries(self.directives);
        let ghost views = entry_views(before);
        self.cached_header_value = None;
        self.policy_hash = None;
        let key: Cow<'static, str> = Cow::Owned(directive.name().to_owned());
        proof {
            let name = directive@.name;
            assert(has_key(before, name) == old(self)@.has(name)) by {
                if has_key(before, name) {
                    let k = key_position(before, name);
                    assert(views[k].name == name);
                }
                if old(self)@.has(name) {
                    let k = old(self)@.position(name);
                    assert(before[k].0 == name);
                }
            }
            if has_key(before, name) {
                let k = key_position(before, name);
                let p = old(self)@.position(name);
                assert(before[p].0 == name);
                assert(k == p);
                assert(entry_views(before.update(k, (name, directive))) =~= views.update(
                    p,
                    directive@,
                ));
            } else {
                assert(entry_views(before.push((name, directive))) =~= views.push(directive@));
            }
        }
        let mut directives = map_new();
        core::mem::swap(&mut self.directives, &mut directives);
        map_insert(&mut directives, key, directive);
        proof {
            let after = map_entries(directives);
            assert(distinct_keys(after)) by {
                lemma_insert_keeps_distinct(before, directive@.name, directive);
            }
            assert forall|i: int| 0 <= i < after.len() implies (#[trigger] after[i]).0
                == after[i].1@.name by {
                if has_key(before, directive@.name) {
                    if i != key_position(before, directive@.name) {
                        assert(after[i] == before[i]);
                    }
                } else {
                    if i < before.len() {
                        assert(after[i] == before[i]);
                    }
                }
            }
        }
        self.directives = directives;
        proof {
            let after = map_entries(self.directives);
            assert(distinct_keys(after));
            assert forall|i: int, j: int|
                0 <= i < self@.directives.len() && 0 <= j < self@.directives.len() && i
                    != j implies (#[trigger] self@.directives[i]).name != (
            #[trigger] self@.directives[j]).name by {
                assert(after[i].0 == after[i].1@.name);
                assert(after[j].0 == after[j].1@.name);
            }
        }
        self
    }

    /// Chooses between the enforcing and the report-only header. What was
    /// remembered is forgotten.
    pub fn set_report_only(&mut self, report_only: bool) -> (ret: &mut Self)
        ensures
            ret@ == (PolicyView { report_only, ..old(self)@ }),
            ret.hash_memo() is None,
            ret.header_memo() is None,
            *final(self) == *final(ret),
    {
        proof {
            use_type_invariant(&*self);
        }
        self.cached_header_value = None;
        self.policy_hash = None;
        self.report_only = report_only;
        self
    }

    /// Sets where violations are reported. What was remembered is forgotten.
    pub fn set_report_uri(&mut self, uri: &str) -> (ret: &mut Self)
        ensures
            ret@ == (PolicyView { report_uri: Some(uri@), ..old(self)@ }),
            ret.hash_memo() is None,
            ret.header_memo() is None,
            *final(self) == *final(ret),
    {
        proof {
            use_type_invariant(&*self);
        }
        self.cached_header_value = None;
        self.policy_hash = None;
        self.report_uri = Some(Cow::Owned(uri.to_owned()));
        self
    }

    /// Sets the reporting endpoint group. What was remembered is forgotten.
    pub fn set_report_to(&mut self, endpoint: &str) -> (ret: &mut Self)
        ensures
            ret@ == (PolicyView { report_to: Some(endpoint@), ..old(self)@ }),
            ret.hash_memo() is None,
            ret.header_memo() is None,
            *final(self) == *final(ret),
    {
        proof {
            use_type_invariant(&*self);
        }
        self.cached_header_value = None;
        self.policy_hash = None;
        self.report_to = Some(Cow::Owned(endpoint.to_owned()));
        self
    }

    /// The name of the header that carries the policy, chosen by the
    /// report-only flag alone.
    pub fn header_name(&self) -> (r: &'static str)
        ensures
            r@ == self@.header_name(),
    {
        if self.report_only {
            "content-security-policy-report-only"
        } else {
            "content-security-policy"
        }
    }

    /// The header value, remembered for a minute.
    pub fn header_value(&mut self) -> (r: Result<HeaderValue, CspError>)
        ensures
            final(self)@ == old(self)@,
            final(self).hash_memo() == old(self).hash_memo(),
            match r {
                Ok(value) => is_header_of(old(self)@, header_bytes(value)) && final(self).header_memo() == Some(header_bytes(value)),
                Err(e) => !old(self)@.compilable() && is_header_failure(e),
            },
    {
        self.header_value_with_cache_duration(Duration::from_secs(60))
    }

    /// The header value of the policy. A value that is remembered and still
    /// fresh is handed out again; otherwise the policy is written anew and
    /// the result remembered for `ttl`. The policy itself does not change.
    pub fn header_value_with_cache_duration(&mut self, ttl: Duration) -> (r: Result<
        HeaderValue,
        CspError,
    >)
        ensures
            final(self)@ == old(self)@,
            final(self).hash_memo() == old(self).hash_memo(),
            match r {
                Ok(value) => is_header_of(old(self)@, header_bytes(value)) && final(self).header_memo() == Some(header_bytes(value)),
                Err(e) => !old(self)@.compilable() && is_header_failure(e),
            },
    {
        proof {
            use_type_invariant(&*self);
        }
        match &self.cached_header_value {
            Some(cached) => {
                if cached.is_valid() {
                    return Ok(header_clone(cached.value()));
                }
            },
            None => {},
        }
        match self.generate_header_value() {
            Ok(value) => {
                self.cached_header_value = Some(CachedValue::new(header_clone(&value), ttl));
                Ok(value)
            },
            Err(e) => Err(e),
        }
    }

    /// The length of the header value in bytes, held at `usize::MAX`.
    fn estimated_size(&self) -> (r: usize)
        ensures
            r == clamp(text_len(self@.text())),
    {
        let ghost entries = map_entries(self.directives);
        let ghost views = entry_views(entries);
        let count = map_len(&self.directives);
        let mut size: usize = 0;
        let mut i: usize = 0;
        assert(views.subrange(0, 0) == Seq::<DirectiveView>::empty());
        assert(encode_utf8(Seq::<char>::empty()) == Seq::<u8>::empty());
        while i < count
            invariant
                i <= count,
                count == entries.len(),
                entries == map_entries(self.directives),
                views == entry_views(entries),
                encode_utf8(Seq::<char>::empty()) == Seq::<u8>::empty(),
                size == clamp(text_len(joined(views.subrange(0, i as int)))),
            decreases count - i,
        {
            match map_get_index(&self.directives, i) {
                Some((_, directive)) => {
                    proof {
                        let done = views.subrange(0, i as int);
                        assert(views.subrange(0, i + 1) == done.push(views[i as int]));
                        lemma_joined_push(done, views[i as int]);
                    }
                    let lead: usize = if i == 0 {
                        0
                    } else {
                        "; ".as_bytes().len()
                    };
                    size = size_sum(size_sum(size, lead), directive.estimated_size());
                },
                None => {},
            }
            i = i + 1;
        }
        proof {
            assert(views.subrange(0, views.len() as int) == views);
            lemma_policy_text(self@);
        }
        match &self.report_uri {
            Some(uri) => {
                size = size_sum(size, report_segment_size(count == 0, "report-uri", cow_str(uri)));
            },
            None => {},
        }
        match &self.report_to {
            Some(endpoint) => {
                size = size_sum(
                    size,
                    report_segment_size(
                        count == 0 && self.report_uri.is_none(),
                        "report-to",
                        cow_str(endpoint),
                    ),
                );
            },
            None => {},
        }
        size
    }

    /// Writes the policy into a fresh buffer and turns it into a header
    /// value. This fails where the value would be too long to allocate or
    /// holds a byte that no header value may hold.
    fn generate_header_value(&self) -> (r: Result<HeaderValue, CspError>)
        ensures
            match r {
                Ok(value) => is_header_of(self@, header_bytes(value)),
                Err(e) => !self@.compilable() && is_header_failure(e),
            },
    {
        let size = self.estimated_size();
        if size > isize::MAX as usize {
            return Err(
                CspError::InvalidDirectiveValue(String::from_str("Failed to create header value")),
            );
        }
        let capacity: usize = if size > 1024 {
            size
        } else {
            1024
        };
        let mut buffer = buffer_with_capacity(capacity);
        let ghost entries = map_entries(self.directives);
        let ghost views = entry_views(entries);
        let count = map_len(&self.directives);
        let mut i: usize = 0;
        proof {
            lemma_policy_text(self@);
            assert(views.subrange(0, 0) == Seq::<DirectiveView>::empty());
            assert(encode_utf8(Seq::<char>::empty()) == Seq::<u8>::empty());
        }
        while i < count
            invariant
                i <= count,
                count == entries.len(),
                entries == map_entries(self.directives),
                views == entry_views(entries),
                views == self@.directives,
                text_len(joined(views)) <= isize::MAX,
                encode_utf8(Seq::<char>::empty()) == Seq::<u8>::empty(),
                buffer_bytes(buffer) == encode_utf8(joined(views.subrange(0, i as int))),
            decreases count - i,
        {
            match map_get_index(&self.directives, i) {
                Some((_, directive)) => {
                    proof {
                        let done = views.subrange(0, i as int);
                        assert(views.subrange(0, i + 1) == done.push(views[i as int]));
                        lemma_joined_push(done, views[i as int]);
                        lemma_joined_prefix_len(views, i + 1);
                    }
                    if i > 0 {
                        buffer_extend(&mut buffer, "; ".as_bytes());
                    } else {
                        assert(buffer_bytes(buffer) + Seq::<u8>::empty() == buffer_bytes(buffer));
                    }
                    directive.write_to_buffer(&mut buffer);
                },
                None => {},
            }
            i = i + 1;
        }
        assert(views.subrange(0, views.len() as int) == views);
        match &self.report_uri {
            Some(uri) => {
                write_report_segment(&mut buffer, count == 0, "report-uri", cow_str(uri));
            },
            None => {
                assert(buffer_bytes(buffer) + Seq::<u8>::empty() == buffer_bytes(buffer));
            },
        }
        match &self.report_to {
            Some(endpoint) => {
                write_report_segment(
                    &mut buffer,
                    count == 0 && self.report_uri.is_none(),
                    "report-to",
                    cow_str(endpoint),
                );
            },
            None => {
                assert(buffer_bytes(buffer) + Seq::<u8>::empty() == buffer_bytes(buffer));
            },
        }
        assert(buffer_bytes(buffer) == encode_utf8(self@.text()));
        match header_from_buffer(buffer) {
            Ok(value) => Ok(value),
            Err(_) => Err(
                CspError::InvalidDirectiveValue(String::from_str("Failed to create header value")),
            ),
        }
    }

    /// Checks every directive, in order, and reports the first complaint.
    pub fn validate(&self) -> (r: Result<(), CspError>)
        ensures
            match r {
                Ok(_) => self@.validation_error() is None,
                Err(e) => e matches CspError::ValidationError(message) && Some(message@)
                    == self@.validation_error(),
            },
    {
        let ghost entries = map_entries(self.directives);
        let ghost views = entry_views(entries);
        let count = map_len(&self.directives);
        let mut i: usize = 0;
        while i < count
            invariant
                i <= count,
                count == entries.len(),
                entries == map_entries(self.directives),
                views == entry_views(entries),
                views == self@.directives,
                forall|j: int| 0 <= j < i ==> (#[trigger] views[j]).validation_error() is None,
            decreases count - i,
        {
            proof {
                lemma_first_complaint_skip(views, i as int);
                let rest = views.subrange(i as int, views.len() as int);
                assert(rest[0] == views[i as int]);
            }
            match map_get_index(&self.directives, i) {
                Some((_, directive)) => {
                    match directive.validate() {
                        Ok(_) => {},
                        Err(e) => {
                            return Err(e);
                        },
                    }
                },
                None => {},
            }
            i = i + 1;
        }
        proof {
            lemma_first_complaint_skip(views, views.len() as int);
            assert(views.subrange(views.len() as int, views.len() as int) == Seq::<
                DirectiveView,
            >::empty());
        }
        Ok(())
    }

    /// The directive of that name, if there is one.
    pub fn get_directive(&self, name: &str) -> (r: Option<&Directive>)
        ensures
            self@.distinct_names(),
            match r {
                Some(directive) => self@.find(name@) == Some(directive@),
                None => self@.find(name@) is None,
            },
    {
        proof {
            use_type_invariant(self);
            self.lemma_names();
        }
        let ghost entries = map_entries(self.directives);
        let ghost views = entry_views(entries);
        let r = map_get(&self.directives, name);
        proof {
            if has_key(entries, name@) {
                let k = key_position(entries, name@);
                assert(views[k].name == name@);
                let p = self@.position(name@);
                assert(entries[p].0 == name@);
                assert(k == p);
            }
            if self@.has(name@) {
                let p = self@.position(name@);
                assert(entries[p].0 == name@);
            }
        }
        r
    }

    /// Names are keys: a well-formed map holds each directive under its own
    /// name, so no two directives share one.
    proof fn lemma_names(&self)
        requires
            self.well_formed(),
        ensures
            self@.distinct_names(),
            forall|i: int|
                0 <= i < self@.directives.len() ==> (#[trigger] map_entries(self.directives)[i]).0
                    == self@.directives[i].name,
    {
        let entries = map_entries(self.directives);
        assert forall|i: int, j: int|
            0 <= i < self@.directives.len() && 0 <= j < self@.directives.len() && i != j implies (
        #[trigger] self@.directives[i]).name != (#[trigger] self@.directives[j]).name by {
            assert(entries[i].0 == entries[i].1@.name);
            assert(entries[j].0 == entries[j].1@.name);
        }
    }

    pub fn is_report_only(&self) -> (r: bool)
        ensures
            r == self@.report_only,
    {
        self.report_only
    }

    /// The directives in insertion order.
    pub fn directives(&self) -> (r: Vec<&Directive>)
        ensures
            r@.len() == self@.directives.len(),
            forall|i: int| 0 <= i < r@.len() ==> (#[trigger] r@[i])@ == self@.directives[i],
    {
        let ghost entries = map_entries(self.directives);
        let count = map_len(&self.directives);
        let mut out: Vec<&Directive> = Vec::with_capacity(count);
        let mut i: usize = 0;
        while i < count
            invariant
                i <= count,
                count == entries.len(),
                entries == map_entries(self.directives),
                out@.len() == i,
                forall|k: int| 0 <= k < i ==> *(#[trigger] out@[k]) == entries[k].1,
            decreases count - i,
        {
            match map_get_index(&self.directives, i) {
                Some((_, directive)) => {
                    out.push(directive);
                },
                None => {},
            }
            i = i + 1;
        }
        out
    }

    pub fn report_uri(&self) -> (r: Option<&str>)
        ensures
            match r {
                Some(uri) => self@.report_uri == Some(uri@),
                None => self@.report_uri is None,
            },
    {
        match &self.report_uri {
            Some(uri) => Some(cow_str(uri)),
            None => None,
        }
    }

    pub fn report_to(&self) -> (r: Option<&str>)
        ensures
            match r {
                Some(endpoint) => self@.report_to == Some(endpoint@),
                None => self@.report_to is None,
            },
    {
        match &self.report_to {
            Some(endpoint) => Some(cow_str(endpoint)),
            None => None,
        }
    }

    /// The bytes that are hashed.
    pub fn hash_input(&self) -> (r: Vec<u8>)
        ensures
            r@ == self@.hash_input(),
    {
        let ghost entries = map_entries(self.directives);
        let ghost views = entry_views(entries);
        let count = map_len(&self.directives);
        let mut out: Vec<u8> = Vec::new();
        append_count(&mut out, count);
        let ghost head = out@;
        let mut i: usize = 0;
        assert(views.subrange(0, 0) == Seq::<DirectiveView>::empty());
        assert(head + Seq::<u8>::empty() == head);
        while i < count
            invariant
                i <= count,
                count == entries.len(),
                entries == map_entries(self.directives),
                views == entry_views(entries),
                head == le_bytes(count as nat, 8),
                out@ == head + directives_digest(views.subrange(0, i as int)),
            decreases count - i,
        {
            match map_get_index(&self.directives, i) {
                Some((_, directive)) => {
                    proof {
                        let upto = views.subrange(0, i + 1);
                        assert(upto.drop_last() == views.subrange(0, i as int));
                        assert(upto.last() == views[i as int]);
                    }
                    let ghost before = out@;
                    append_bytes(&mut out, directive.name().as_bytes());
                    out.push(0xffu8);
                    let text = directive.to_string();
                    append_bytes(&mut out, text.as_str().as_bytes());
                    out.push(0xffu8);
                    assert(out@ == before + encode_utf8(views[i as int].name) + seq![0xffu8]
                        + encode_utf8(views[i as int].text()) + seq![0xffu8]);
                    assert(out@ == head + (directives_digest(views.subrange(0, i as int))
                        + encode_utf8(views[i as int].name) + seq![0xffu8] + encode_utf8(
                        views[i as int].text(),
                    ) + seq![0xffu8]));
                },
                None => {},
            }
            i = i + 1;
        }
        assert(views.subrange(0, views.len() as int) == views);
        let ghost body = out@;
        out.push(if self.report_only {
            1u8
        } else {
            0u8
        });
        append_optional(&mut out, &self.report_uri);
        append_optional(&mut out, &self.report_to);
        assert(out@ == body + seq![
            if self.report_only {
                1u8
            } else {
                0u8
            },
        ] + optional_digest(self@.report_uri) + optional_digest(self@.report_to));
        out
    }

    /// The structural hash of the policy, never zero. It is computed from
    /// the hashed bytes on first use and remembered until the policy changes:
    /// asked twice without a change in between, it answers the same.
    pub fn hash(&mut self) -> (r: u64)
        ensures
            final(self)@ == old(self)@,
            final(self).header_memo() == old(self).header_memo(),
            answers_hash(old(self).hash_memo(), r, final(self).hash_memo()),
    {
        proof {
            use_type_invariant(&*self);
        }
        match self.policy_hash {
            Some(hash) => hash,
            None => {
                let input = self.hash_input();
                let hash = to_nonzero_key(fx_hash(input.as_slice()));
                self.policy_hash = Some(hash);
                hash
            },
        }
    }

    pub fn contains_nonce(&self) -> (r: bool)
        ensures
            r == self@.contains_nonce(),
    {
        let ghost entries = map_entries(self.directives);
        let ghost views = entry_views(entries);
        let count = map_len(&self.directives);
        let mut i: usize = 0;
        while i < count
            invariant
                i <= count,
                count == entries.len(),
                entries == map_entries(self.directives),
                views == entry_views(entries),
                views == self@.directives,
                forall|j: int| 0 <= j < i ==> !(#[trigger] views[j]).contains_nonce(),
            decreases count - i,
        {
            match map_get_index(&self.directives, i) {
                Some((_, directive)) => {
                    if directive.contains_nonce() {
                        assert(views[i as int].contains_nonce());
                        return true;
                    }
                },
                None => {},
            }
            i = i + 1;
        }
        false
    }

    pub fn contains_hash(&self) -> (r: bool)
        ensures
            r == self@.contains_hash(),
    {
        let ghost entries = map_entries(self.directives);
        let ghost views = entry_views(entries);
        let count = map_len(&self.directives);
        let mut i: usize = 0;
        while i < count
            invariant
                i <= count,
                count == entries.len(),
                entries == map_entries(self.directives),
                views == entry_views(entries),
                views == self@.directives,
                forall|j: int| 0 <= j < i ==> !(#[trigger] views[j]).contains_hash(),
            decreases count - i,
        {
            match map_get_index(&self.directives, i) {
                Some((_, directive)) => {
                    if directive.contains_hash() {
                        assert(views[i as int].contains_hash());
                        return true;
                    }
                },
                None => {},
            }
            i = i + 1;
        }
        false
    }
}

} // verus!
