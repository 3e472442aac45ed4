use vstd::prelude::*;
use vstd::utf8::*;
use std::time::Duration;
use std::time::Instant;
use crate::clock::duration_nanos;
use crate::clock::shorter;

verus! {

/// UTF-8 encoding distributes over concatenation.
pub proof fn lemma_encode_concat(a: Seq<char>, b: Seq<char>)
    ensures
        encode_utf8(a + b) == encode_utf8(a) + encode_utf8(b),
    decreases a.len(),
{
    if a.len() == 0 {
        assert(a + b == b);
        assert(encode_utf8(a) == Seq::<u8>::empty());
        assert(encode_utf8(a) + encode_utf8(b) == encode_utf8(b));
    } else {
        lemma_encode_concat(a.drop_first(), b);
        assert((a + b).drop_first() == a.drop_first() + b);
        assert((a + b)[0] == a[0]);
        let head = encode_scalar(a[0] as u32);
        assert(encode_utf8(a + b) == head + encode_utf8(a.drop_first() + b));
        assert(head + (encode_utf8(a.drop_first()) + encode_utf8(b)) == (head + encode_utf8(
            a.drop_first(),
        )) + encode_utf8(b));
    }
}

/// Two texts with the same UTF-8 encoding are the same text.
pub proof fn lemma_encode_injective(a: Seq<char>, b: Seq<char>)
    requires
        encode_utf8(a) == encode_utf8(b),
    ensures
        a == b,
{
    encode_utf8_decode_utf8(a);
    encode_utf8_decode_utf8(b);
}

/// Compares two byte strings. The lengths are compared first; when they agree
/// every position is visited, whatever the earlier positions held.
pub fn bytes_equal(a: &[u8], b: &[u8]) -> (r: bool)
    ensures
        r == (a@ == b@),
{
    if a.len() != b.len() {
        return false;
    }
    let mut diff: u8 = 0;
    let mut i: usize = 0;
    while i < a.len()
        invariant
            i <= a.len(),
            a.len() == b.len(),
            (diff == 0) == (a@.subrange(0, i as int) =~= b@.subrange(0, i as int)),
        decreases a.len() - i,
    {
        let x: u8 = a[i];
        let y: u8 = b[i];
        proof {
            let pa = a@.subrange(0, i as int);
            let pb = b@.subrange(0, i as int);
            let na = a@.subrange(0, i + 1);
            let nb = b@.subrange(0, i + 1);
            assert(na == pa.push(x));
            assert(nb == pb.push(y));
            assert(na.drop_last() == pa);
            assert(nb.drop_last() == pb);
            assert(na.last() == x);
            assert(nb.last() == y);
            assert(((diff | (x ^ y)) == 0) == (diff == 0 && x == y)) by (bit_vector);
        }
        diff = diff | (x ^ y);
        i = i + 1;
    }
    proof {
        assert(a@.subrange(0, a.len() as int) == a@);
        assert(b@.subrange(0, b.len() as int) == b@);
    }
    diff == 0
}

/// String equality by bytes: length first, then every byte.
pub fn fast_string_compare(a: &str, b: &str) -> (r: bool)
    ensures
        r == (a@ == b@),
{
    let r = bytes_equal(a.as_bytes(), b.as_bytes());
    proof {
        if r {
            lemma_encode_injective(a@, b@);
        }
    }
    r
}

/// The texts that occur in nearly every policy: keyword sources, common
/// schemes and the names of the fetch directives.
pub open spec fn common_strings() -> Seq<Seq<char>> {
    seq![
        "'self'"@,
        "'none'"@,
        "'unsafe-inline'"@,
        "'unsafe-eval'"@,
        "'strict-dynamic'"@,
        "'report-sample'"@,
        "'wasm-unsafe-eval'"@,
        "'unsafe-hashes'"@,
        "https:"@,
        "http:"@,
        "data:"@,
        "blob:"@,
        "filesystem:"@,
        "ws:"@,
        "wss:"@,
        "'unsafe-allow-redirects'"@,
        "default-src"@,
        "script-src"@,
        "style-src"@,
        "img-src"@,
        "connect-src"@,
        "font-src"@,
        "object-src"@,
        "media-src"@,
        "frame-src"@,
        "worker-src"@,
        "manifest-src"@,
        "child-src"@,
        "frame-ancestors"@,
        "base-uri"@,
        "form-action"@,
        "sandbox"@,
    ]
}

/// The shared copy of a common text: `Some` with the same characters when
/// `s` is one of [`common_strings`], nothing otherwise.
pub fn intern_string(s: &str) -> (r: Option<&'static str>)
    ensures
        r is Some == common_strings().contains(s@),
        r matches Some(shared) ==> shared@ == s@,
{
    let table: [&'static str; 32] = [
        "'self'",
        "'none'",
        "'unsafe-inline'",
        "'unsafe-eval'",
        "'strict-dynamic'",
        "'report-sample'",
        "'wasm-unsafe-eval'",
        "'unsafe-hashes'",
        "https:",
        "http:",
        "data:",
        "blob:",
        "filesystem:",
        "ws:",
        "wss:",
        "'unsafe-allow-redirects'",
        "default-src",
        "script-src",
        "style-src",
        "img-src",
        "connect-src",
        "font-src",
        "object-src",
        "media-src",
        "frame-src",
        "worker-src",
        "manifest-src",
        "child-src",
        "frame-ancestors",
        "base-uri",
        "form-action",
        "sandbox",
    ];
    assert(table@.len() == 32);
    assert(common_strings().len() == 32);
    assert(forall|j: int| 0 <= j < 32 ==> (#[trigger] table@[j])@ == common_strings()[j]);
    let mut i: usize = 0;
    while i < 32
        invariant
            i <= 32,
            table@.len() == 32,
            common_strings().len() == 32,
            forall|j: int| 0 <= j < 32 ==> (#[trigger] table@[j])@ == common_strings()[j],
            forall|j: int| 0 <= j < i ==> common_strings()[j] != s@,
        decreases 32 - i,
    {
        let candidate: &'static str = table[i];
        if fast_string_compare(candidate, s) {
            assert(common_strings()[i as int] == s@);
            return Some(candidate);
        }
        i = i + 1;
    }
    None
}

/// The character of a decimal digit.
pub open spec fn digit_char(d: nat) -> char {
    if d == 0 {
        '0'
    } else if d == 1 {
        '1'
    } else if d == 2 {
        '2'
    } else if d == 3 {
        '3'
    } else if d == 4 {
        '4'
    } else if d == 5 {
        '5'
    } else if d == 6 {
        '6'
    } else if d == 7 {
        '7'
    } else if d == 8 {
        '8'
    } else {
        '9'
    }
}

/// A number in decimal, without leading zeros.
pub open spec fn decimal_digits(n: nat) -> Seq<char>
    decreases n,
{
    if n < 10 {
        seq![digit_char(n)]
    } else {
        decimal_digits(n / 10) + seq![digit_char(n % 10)]
    }
}

/// Digits that stand least significant first, written most significant
/// first.
pub open spec fn reversed_digits(digits: Seq<u8>) -> Seq<char>
    decreases digits.len(),
{
    if digits.len() == 0 {
        Seq::<char>::empty()
    } else {
        seq![digit_char(digits.last() as nat)] + reversed_digits(digits.drop_last())
    }
}

/// The one-character text of a decimal digit.
fn digit_text(d: u8) -> (r: &'static str)
    requires
        d < 10,
    ensures
        r@ == seq![digit_char(d as nat)],
{
    proof {
        reveal_strlit("0");
        reveal_strlit("1");
        reveal_strlit("2");
        reveal_strlit("3");
        reveal_strlit("4");
        reveal_strlit("5");
        reveal_strlit("6");
        reveal_strlit("7");
        reveal_strlit("8");
        reveal_strlit("9");
    }
    let r = if d == 0 {
        "0"
    } else if d == 1 {
        "1"
    } else if d == 2 {
        "2"
    } else if d == 3 {
        "3"
    } else if d == 4 {
        "4"
    } else if d == 5 {
        "5"
    } else if d == 6 {
        "6"
    } else if d == 7 {
        "7"
    } else if d == 8 {
        "8"
    } else {
        "9"
    };
    assert(r@ =~= seq![digit_char(d as nat)]);
    r
}

/// A number written in decimal.
pub fn decimal_string(n: u64) -> (r: String)
    ensures
        r@ == decimal_digits(n as nat),
{
    let mut digits: Vec<u8> = Vec::new();
    let mut rest: u64 = n;
    let first: u8 = (rest % 10) as u8;
    digits.push(first);
    rest = rest / 10;
    proof {
        assert(digits@.drop_last() == Seq::<u8>::empty());
        assert(reversed_digits(Seq::<u8>::empty()) == Seq::<char>::empty());
        assert(digits@.last() == first);
        assert(reversed_digits(digits@) == seq![digit_char(first as nat)] + Seq::<char>::empty());
        assert(reversed_digits(digits@) == seq![digit_char(first as nat)]);
    }
    while rest > 0
        invariant
            digits@.len() > 0,
            forall|k: int| 0 <= k < digits@.len() ==> #[trigger] digits@[k] < 10,
            rest > 0 ==> decimal_digits(n as nat) == decimal_digits(rest as nat) + reversed_digits(
                digits@,
            ),
            rest == 0 ==> decimal_digits(n as nat) == reversed_digits(digits@),
        decreases rest,
    {
        let d: u8 = (rest % 10) as u8;
        let ghost before = digits@;
        digits.push(d);
        proof {
            assert(digits@.drop_last() == before);
            assert(reversed_digits(digits@) == seq![digit_char(d as nat)] + reversed_digits(
                before,
            ));
            if rest >= 10 {
                assert(decimal_digits(rest as nat) == decimal_digits((rest / 10) as nat) + seq![
                    digit_char(d as nat),
                ]);
                assert(decimal_digits(n as nat) == decimal_digits((rest / 10) as nat) + (seq![
                    digit_char(d as nat),
                ] + reversed_digits(before)));
            } else {
                assert(decimal_digits(rest as nat) == seq![digit_char(d as nat)]);
            }
        }
        rest = rest / 10;
    }
    let mut out = String::new();
    let mut left: usize = digits.len();
    assert(digits@.subrange(0, left as int) == digits@);
    assert(out@ + reversed_digits(digits@) == reversed_digits(digits@));
    while left > 0
        invariant
            left <= digits@.len(),
            forall|k: int| 0 <= k < digits@.len() ==> #[trigger] digits@[k] < 10,
            out@ + reversed_digits(digits@.subrange(0, left as int)) == reversed_digits(digits@),
        decreases left,
    {
        proof {
            let head = digits@.subrange(0, left as int);
            assert(head.last() == digits@[left - 1]);
            assert(head.drop_last() == digits@.subrange(0, left - 1));
            assert(out@ + (seq![digit_char(digits@[left - 1] as nat)] + reversed_digits(
                digits@.subrange(0, left - 1),
            )) == (out@ + seq![digit_char(digits@[left - 1] as nat)]) + reversed_digits(
                digits@.subrange(0, left - 1),
            ));
        }
        left = left - 1;
        out.append(digit_text(digits[left]));
    }
    assert(digits@.subrange(0, 0) == Seq::<u8>::empty());
    assert(out@ + Seq::<char>::empty() == out@);
    out
}

/// A count one step on: `by` more, starting again from zero where the sum
/// passes `usize::MAX`.
pub open spec fn wrapped_sum(n: usize, by: usize) -> usize {
    if n + by <= usize::MAX {
        (n + by) as usize
    } else {
        (n + by - usize::MAX - 1) as usize
    }
}

/// Adds to a count, wrapping around at `usize::MAX`.
pub fn wrapping_sum(n: usize, by: usize) -> (r: usize)
    ensures
        r == wrapped_sum(n, by),
{
    if n <= usize::MAX - by {
        n + by
    } else {
        by - (usize::MAX - n) - 1
    }
}

/// A count that is set once and read many times.
#[derive(Debug)]
pub struct AtomicCounter {
    value: usize,
}

impl AtomicCounter {
    /// The count held.
    pub closed spec fn count(&self) -> usize {
        self.value
    }

    pub fn new(initial: usize) -> (r: Self)
        ensures
            r.count() == initial,
    {
        AtomicCounter { value: initial }
    }

    pub fn get(&self) -> (r: usize)
        ensures
            r == self.count(),
    {
        self.value
    }
}

impl Default for AtomicCounter {
    fn default() -> (r: Self)
        ensures
            r.count() == 0,
    {
        AtomicCounter::new(0)
    }
}

/// Whether something that stays fresh for `lifetime` is still fresh after
/// `elapsed`: less time has passed than it stays fresh.
pub open spec fn fresh_after(elapsed: Duration, lifetime: Duration) -> bool {
    duration_nanos(elapsed) < duration_nanos(lifetime)
}

/// A value together with the moment it was stored and the time it stays
/// fresh.
#[derive(Debug)]
pub struct CachedValue<T> {
    value: T,
    timestamp: Instant,
    ttl: Duration,
}

impl<T: Clone> Clone for CachedValue<T> {
    /// A copy stored at the same moment, fresh for as long.
    fn clone(&self) -> (r: Self)
        ensures
            cloned::<T>(self.held(), r.held()),
            r.lifetime() == self.lifetime(),
    {
        CachedValue { value: self.value.clone(), timestamp: self.timestamp, ttl: self.ttl }
    }
}

impl<T> CachedValue<T> {
    /// The value held.
    pub closed spec fn held(&self) -> T {
        self.value
    }

    /// The time the value stays fresh.
    pub closed spec fn lifetime(&self) -> Duration {
        self.ttl
    }

    /// Stores a value now.
    pub fn new(value: T, ttl: Duration) -> (r: Self)
        ensures
            r.held() == value,
            r.lifetime() == ttl,
    {
        CachedValue { value, timestamp: Instant::now(), ttl }
    }

    /// Whether less time has passed since the value was stored than it stays
    /// fresh. A value with no lifetime is never fresh.
    pub fn is_valid(&self) -> (r: bool)
        ensures
            exists|elapsed: Duration| r == #[trigger] fresh_after(elapsed, self.lifetime()),
            duration_nanos(self.lifetime()) == 0 ==> !r,
    {
        let elapsed = self.timestamp.elapsed();
        let r = self.is_valid_after(elapsed);
        assert(r == fresh_after(elapsed, self.lifetime()));
        r
    }

    /// Whether the value is still fresh when that much time has passed since
    /// it was stored.
    pub fn is_valid_after(&self, elapsed: Duration) -> (r: bool)
        ensures
            r == fresh_after(elapsed, self.lifetime()),
    {
        shorter(elapsed, self.ttl)
    }

    pub fn value(&self) -> (r: &T)
        ensures
            *r == self.held(),
    {
        &self.value
    }
}

} // verus!
