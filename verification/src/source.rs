use vstd::prelude::*;
use vstd::utf8::*;
use std::borrow::Cow;
use bytes::BytesMut;
use crate::buffer::buffer_bytes;
use crate::buffer::buffer_extend;
use crate::hash::HashAlgorithm;
use crate::utils::intern_string;
use crate::utils::fast_string_compare;
use crate::utils::lemma_encode_concat;

verus! {

/// One allow-list entry of a directive.
#[derive(Debug, Hash)]
pub enum Source {
    None_,
    Self_,
    UnsafeInline,
    UnsafeEval,
    StrictDynamic,
    ReportSample,
    WasmUnsafeEval,
    UnsafeHashes,
    Host(Cow<'static, str>),
    Scheme(Cow<'static, str>),
    Nonce(Cow<'static, str>),
    Hash { algorithm: HashAlgorithm, value: Cow<'static, str> },
}

/// A source as a mathematical value: the same shape, with texts as
/// sequences of characters.
pub enum SourceView {
    None_,
    Self_,
    UnsafeInline,
    UnsafeEval,
    StrictDynamic,
    ReportSample,
    WasmUnsafeEval,
    UnsafeHashes,
    Host(Seq<char>),
    Scheme(Seq<char>),
    Nonce(Seq<char>),
    Hash { algorithm: HashAlgorithm, value: Seq<char> },
}

impl SourceView {
    /// Whether the source is one of the fixed keywords.
    pub open spec fn is_keyword(self) -> bool {
        !(self is Host || self is Scheme || self is Nonce || self is Hash)
    }

    /// The source as it is written in a header.
    pub open spec fn text(self) -> Seq<char> {
        match self {
            SourceView::None_ => "'none'"@,
            SourceView::Self_ => "'self'"@,
            SourceView::UnsafeInline => "'unsafe-inline'"@,
            SourceView::UnsafeEval => "'unsafe-eval'"@,
            SourceView::StrictDynamic => "'strict-dynamic'"@,
            SourceView::ReportSample => "'report-sample'"@,
            SourceView::WasmUnsafeEval => "'wasm-unsafe-eval'"@,
            SourceView::UnsafeHashes => "'unsafe-hashes'"@,
            SourceView::Host(host) => host,
            SourceView::Scheme(scheme) => scheme + ":"@,
            SourceView::Nonce(nonce) => "'nonce-"@ + nonce + "'"@,
            SourceView::Hash { algorithm, value } => algorithm.prefix_spec() + value + "'"@,
        }
    }

    /// The number of bytes the written source takes.
    pub open spec fn byte_len(self) -> nat {
        encode_utf8(self.text()).len()
    }

    /// Whether a host, scheme, nonce or digest is the empty text.
    pub open spec fn has_empty_text(self) -> bool {
        match self {
            SourceView::Host(host) => host.len() == 0,
            SourceView::Scheme(scheme) => scheme.len() == 0,
            SourceView::Nonce(nonce) => nonce.len() == 0,
            SourceView::Hash { algorithm, value } => value.len() == 0,
            _ => false,
        }
    }
}

impl View for Source {
    type V = SourceView;

    open spec fn view(&self) -> SourceView {
        match *self {
            Source::None_ => SourceView::None_,
            Source::Self_ => SourceView::Self_,
            Source::UnsafeInline => SourceView::UnsafeInline,
            Source::UnsafeEval => SourceView::UnsafeEval,
            Source::StrictDynamic => SourceView::StrictDynamic,
            Source::ReportSample => SourceView::ReportSample,
            Source::WasmUnsafeEval => SourceView::WasmUnsafeEval,
            Source::UnsafeHashes => SourceView::UnsafeHashes,
            Source::Host(host) => SourceView::Host(host@),
            Source::Scheme(scheme) => SourceView::Scheme(scheme@),
            Source::Nonce(nonce) => SourceView::Nonce(nonce@),
            Source::Hash { algorithm, value } => SourceView::Hash { algorithm, value: value@ },
        }
    }
}

/// The text behind a borrowed-or-owned string.
pub fn cow_str<'a>(text: &'a Cow<'static, str>) -> (r: &'a str)
    ensures
        r@ == text@,
{
    match text {
        Cow::Borrowed(borrowed) => borrowed,
        Cow::Owned(owned) => owned.as_str(),
    }
}

/// A copy of a borrowed-or-owned string.
pub fn cow_clone(text: &Cow<'static, str>) -> (r: Cow<'static, str>)
    ensures
        r@ == text@,
{
    match text {
        Cow::Borrowed(borrowed) => Cow::Borrowed(*borrowed),
        Cow::Owned(owned) => Cow::Owned(owned.clone()),
    }
}

/// A size as `usize` holds it: itself, or `usize::MAX` where it is larger.
pub open spec fn clamp(n: nat) -> usize {
    if n <= usize::MAX {
        n as usize
    } else {
        usize::MAX
    }
}

/// The sum of two sizes, held at `usize::MAX` where it would pass it.
pub fn size_sum(a: usize, b: usize) -> (r: usize)
    ensures
        r == clamp((a + b) as nat),
{
    if a <= usize::MAX - b {
        a + b
    } else {
        usize::MAX
    }
}

impl Clone for Source {
    fn clone(&self) -> (r: Self)
        ensures
            r@ == self@,
    {
        match self {
            Source::None_ => Source::None_,
            Source::Self_ => Source::Self_,
            Source::UnsafeInline => Source::UnsafeInline,
            Source::UnsafeEval => Source::UnsafeEval,
            Source::StrictDynamic => Source::StrictDynamic,
            Source::ReportSample => Source::ReportSample,
            Source::WasmUnsafeEval => Source::WasmUnsafeEval,
            Source::UnsafeHashes => Source::UnsafeHashes,
            Source::Host(host) => Source::Host(cow_clone(host)),
            Source::Scheme(scheme) => Source::Scheme(cow_clone(scheme)),
            Source::Nonce(nonce) => Source::Nonce(cow_clone(nonce)),
            Source::Hash { algorithm, value } => Source::Hash {
                algorithm: *algorithm,
                value: cow_clone(value),
            },
        }
    }
}

impl Source {
    /// Whether two sources are the same source.
    pub fn same_as(&self, other: &Self) -> (r: bool)
        ensures
            r == (self@ == other@),
    {
        match self {
            Source::None_ => matches!(other, Source::None_),
            Source::Self_ => matches!(other, Source::Self_),
            Source::UnsafeInline => matches!(other, Source::UnsafeInline),
            Source::UnsafeEval => matches!(other, Source::UnsafeEval),
            Source::StrictDynamic => matches!(other, Source::StrictDynamic),
            Source::ReportSample => matches!(other, Source::ReportSample),
            Source::WasmUnsafeEval => matches!(other, Source::WasmUnsafeEval),
            Source::UnsafeHashes => matches!(other, Source::UnsafeHashes),
            Source::Host(a) => match other {
                Source::Host(b) => fast_string_compare(cow_str(a), cow_str(b)),
                _ => false,
            },
            Source::Scheme(a) => match other {
                Source::Scheme(b) => fast_string_compare(cow_str(a), cow_str(b)),
                _ => false,
            },
            Source::Nonce(a) => match other {
                Source::Nonce(b) => fast_string_compare(cow_str(a), cow_str(b)),
                _ => false,
            },
            Source::Hash { algorithm: alg_a, value: a } => match other {
                Source::Hash { algorithm: alg_b, value: b } => *alg_a == *alg_b
                    && fast_string_compare(cow_str(a), cow_str(b)),
                _ => false,
            },
        }
    }
}

impl PartialEq for Source {
    fn eq(&self, other: &Self) -> (r: bool) {
        self.same_as(other)
    }
}

impl vstd::std_specs::cmp::PartialEqSpecImpl for Source {
    open spec fn obeys_eq_spec() -> bool {
        true
    }

    open spec fn eq_spec(&self, other: &Self) -> bool {
        self@ == other@
    }
}

impl Eq for Source {

}

impl Source {
    pub fn is_none(&self) -> (r: bool)
        ensures
            r == (self@ is None_),
    {
        matches!(self, Source::None_)
    }

    pub fn is_self(&self) -> (r: bool)
        ensures
            r == (self@ is Self_),
    {
        matches!(self, Source::Self_)
    }

    pub fn is_unsafe_inline(&self) -> (r: bool)
        ensures
            r == (self@ is UnsafeInline),
    {
        matches!(self, Source::UnsafeInline)
    }

    pub fn is_unsafe_eval(&self) -> (r: bool)
        ensures
            r == (self@ is UnsafeEval),
    {
        matches!(self, Source::UnsafeEval)
    }

    /// The fixed token of a keyword source; nothing for the others.
    pub fn as_static_str(&self) -> (r: Option<&'static str>)
        ensures
            r is Some == self@.is_keyword(),
            r matches Some(token) ==> token@ == self@.text(),
    {
        match self {
            Source::None_ => Some("'none'"),
            Source::Self_ => Some("'self'"),
            Source::UnsafeInline => Some("'unsafe-inline'"),
            Source::UnsafeEval => Some("'unsafe-eval'"),
            Source::StrictDynamic => Some("'strict-dynamic'"),
            Source::ReportSample => Some("'report-sample'"),
            Source::WasmUnsafeEval => Some("'wasm-unsafe-eval'"),
            Source::UnsafeHashes => Some("'unsafe-hashes'"),
            _ => None,
        }
    }

    /// The number of bytes the written source takes, held at `usize::MAX`.
    pub fn estimated_size(&self) -> (r: usize)
        ensures
            r == clamp(self@.byte_len()),
    {
        match self {
            Source::Host(host) => cow_str(host).as_bytes().len(),
            Source::Scheme(scheme) => {
                proof {
                    lemma_encode_concat(scheme@, ":"@);
                }
                size_sum(cow_str(scheme).as_bytes().len(), ":".as_bytes().len())
            },
            Source::Nonce(nonce) => {
                proof {
                    lemma_encode_concat("'nonce-"@, nonce@);
                    lemma_encode_concat("'nonce-"@ + nonce@, "'"@);
                }
                size_sum(
                    size_sum("'nonce-".as_bytes().len(), cow_str(nonce).as_bytes().len()),
                    "'".as_bytes().len(),
                )
            },
            Source::Hash { algorithm, value } => {
                proof {
                    lemma_encode_concat(algorithm.prefix_spec(), value@);
                    lemma_encode_concat(algorithm.prefix_spec() + value@, "'"@);
                }
                size_sum(
                    size_sum(algorithm.prefix().as_bytes().len(), cow_str(value).as_bytes().len()),
                    "'".as_bytes().len(),
                )
            },
            Source::None_ => "'none'".as_bytes().len(),
            Source::Self_ => "'self'".as_bytes().len(),
            Source::UnsafeInline => "'unsafe-inline'".as_bytes().len(),
            Source::UnsafeEval => "'unsafe-eval'".as_bytes().len(),
            Source::StrictDynamic => "'strict-dynamic'".as_bytes().len(),
            Source::ReportSample => "'report-sample'".as_bytes().len(),
            Source::WasmUnsafeEval => "'wasm-unsafe-eval'".as_bytes().len(),
            Source::UnsafeHashes => "'unsafe-hashes'".as_bytes().len(),
        }
    }

    pub fn contains_nonce(&self) -> (r: bool)
        ensures
            r == (self@ is Nonce),
    {
        matches!(self, Source::Nonce(_))
    }

    pub fn contains_hash(&self) -> (r: bool)
        ensures
            r == (self@ is Hash),
    {
        matches!(self, Source::Hash { .. })
    }

    pub fn scheme(&self) -> (r: Option<&str>)
        ensures
            match self@ {
                SourceView::Scheme(scheme) => r matches Some(text) && text@ == scheme,
                _ => r is None,
            },
    {
        match self {
            Source::Scheme(scheme) => Some(cow_str(scheme)),
            _ => None,
        }
    }

    pub fn host(&self) -> (r: Option<&str>)
        ensures
            match self@ {
                SourceView::Host(host) => r matches Some(text) && text@ == host,
                _ => r is None,
            },
    {
        match self {
            Source::Host(host) => Some(cow_str(host)),
            _ => None,
        }
    }

    pub fn nonce(&self) -> (r: Option<&str>)
        ensures
            match self@ {
                SourceView::Nonce(nonce) => r matches Some(text) && text@ == nonce,
                _ => r is None,
            },
    {
        match self {
            Source::Nonce(nonce) => Some(cow_str(nonce)),
            _ => None,
        }
    }

    pub fn hash_value(&self) -> (r: Option<(&str, HashAlgorithm)>)
        ensures
            match self@ {
                SourceView::Hash { algorithm, value } => r matches Some(pair) && pair.0@ == value
                    && pair.1 == algorithm,
                _ => r is None,
            },
    {
        match self {
            Source::Hash { algorithm, value } => Some((cow_str(value), *algorithm)),
            _ => None,
        }
    }

    /// Appends the written source to the buffer.
    pub fn write_to_buffer(&self, buffer: &mut BytesMut)
        requires
            buffer_bytes(*old(buffer)).len() + self@.byte_len() <= isize::MAX,
        ensures
            buffer_bytes(*final(buffer)) == buffer_bytes(*old(buffer)) + encode_utf8(self@.text()),
    {
        match self {
            Source::Host(host) => {
                match intern_string(cow_str(host)) {
                    Some(shared) => buffer_extend(buffer, shared.as_bytes()),
                    None => buffer_extend(buffer, cow_str(host).as_bytes()),
                }
            },
            Source::Scheme(scheme) => {
                proof {
                    lemma_encode_concat(scheme@, ":"@);
                }
                buffer_extend(buffer, cow_str(scheme).as_bytes());
                buffer_extend(buffer, ":".as_bytes());
            },
            Source::Nonce(nonce) => {
                proof {
                    lemma_encode_concat("'nonce-"@, nonce@);
                    lemma_encode_concat("'nonce-"@ + nonce@, "'"@);
                }
                buffer_extend(buffer, "'nonce-".as_bytes());
                buffer_extend(buffer, cow_str(nonce).as_bytes());
                buffer_extend(buffer, "'".as_bytes());
            },
            Source::Hash { algorithm, value } => {
                proof {
                    lemma_encode_concat(algorithm.prefix_spec(), value@);
                    lemma_encode_concat(algorithm.prefix_spec() + value@, "'"@);
                }
                buffer_extend(buffer, algorithm.prefix().as_bytes());
                buffer_extend(buffer, cow_str(value).as_bytes());
                buffer_extend(buffer, "'".as_bytes());
            },
            Source::None_ => buffer_extend(buffer, "'none'".as_bytes()),
            Source::Self_ => buffer_extend(buffer, "'self'".as_bytes()),
            Source::UnsafeInline => buffer_extend(buffer, "'unsafe-inline'".as_bytes()),
            Source::UnsafeEval => buffer_extend(buffer, "'unsafe-eval'".as_bytes()),
            Source::StrictDynamic => buffer_extend(buffer, "'strict-dynamic'".as_bytes()),
            Source::ReportSample => buffer_extend(buffer, "'report-sample'".as_bytes()),
            Source::WasmUnsafeEval => buffer_extend(buffer, "'wasm-unsafe-eval'".as_bytes()),
            Source::UnsafeHashes => buffer_extend(buffer, "'unsafe-hashes'".as_bytes()),
        }
    }

    /// The source as it is written in a header.
    pub fn to_string(&self) -> (r: String)
        ensures
            r@ == self@.text(),
    {
        match self {
            Source::Host(host) => String::from_str(cow_str(host)),
            Source::Scheme(scheme) => {
                let mut out = String::from_str(cow_str(scheme));
                out.append(":");
                out
            },
            Source::Nonce(nonce) => {
                let mut out = String::from_str("'nonce-");
                out.append(cow_str(nonce));
                out.append("'");
                out
            },
            Source::Hash { algorithm, value } => {
                let mut out = String::from_str(algorithm.prefix());
                out.append(cow_str(value));
                out.append("'");
                out
            },
            Source::None_ => String::from_str("'none'"),
            Source::Self_ => String::from_str("'self'"),
            Source::UnsafeInline => String::from_str("'unsafe-inline'"),
            Source::UnsafeEval => String::from_str("'unsafe-eval'"),
            Source::StrictDynamic => String::from_str("'strict-dynamic'"),
            Source::ReportSample => String::from_str("'report-sample'"),
            Source::WasmUnsafeEval => String::from_str("'wasm-unsafe-eval'"),
            Source::UnsafeHashes => String::from_str("'unsafe-hashes'"),
        }
    }
}

} // verus!
