use std::collections::hash_map::DefaultHasher;
use std::hash::Hasher;
use vstd::prelude::*;
use vstd::std_specs::hash::DefaultHasherAdditionalSpecFns;
use vstd::string::StrSliceExecFns;

verus! {

/// The eight bytes of `n`, the highest first.
pub open spec fn u64_bytes(n: u64) -> Seq<u8> {
    seq![
        (n / 0x100_0000_0000_0000 % 256) as u8,
        (n / 0x1_0000_0000_0000 % 256) as u8,
        (n / 0x100_0000_0000 % 256) as u8,
        (n / 0x1_0000_0000 % 256) as u8,
        (n / 0x100_0000 % 256) as u8,
        (n / 0x1_0000 % 256) as u8,
        (n / 0x100 % 256) as u8,
        (n % 256) as u8,
    ]
}

/// Two bytes for `n`, in the order of the numbers: a smaller number gives bytes
/// that come first.
pub open spec fn i16_bytes(n: i16) -> Seq<u8> {
    seq![((n + 0x8000) / 0x100) as u8, ((n + 0x8000) % 0x100) as u8]
}

/// Four bytes for `n`, in the order of the numbers.
pub open spec fn i32_bytes(n: i32) -> Seq<u8> {
    seq![
        ((n + 0x8000_0000) / 0x100_0000) as u8,
        ((n + 0x8000_0000) / 0x1_0000 % 256) as u8,
        ((n + 0x8000_0000) / 0x100 % 256) as u8,
        ((n + 0x8000_0000) % 256) as u8,
    ]
}

/// The bytes of a text in UTF-8, behind their number.
pub open spec fn text_bytes(text: Seq<char>) -> Seq<u8> {
    u64_bytes(vstd::utf8::encode_utf8(text).len() as u64) + vstd::utf8::encode_utf8(text)
}

/// One byte that says whether a text is there, and then the text.
pub open spec fn optional_text_bytes(text: Option<String>) -> Seq<u8> {
    match text {
        Some(text) => seq![1u8] + text_bytes(text@),
        None => seq![0u8],
    }
}

pub fn write_u64(out: &mut Vec<u8>, n: u64)
    ensures
        final(out)@ == old(out)@ + u64_bytes(n),
{
    out.push((n / 0x100_0000_0000_0000 % 256) as u8);
    out.push((n / 0x1_0000_0000_0000 % 256) as u8);
    out.push((n / 0x100_0000_0000 % 256) as u8);
    out.push((n / 0x1_0000_0000 % 256) as u8);
    out.push((n / 0x100_0000 % 256) as u8);
    out.push((n / 0x1_0000 % 256) as u8);
    out.push((n / 0x100 % 256) as u8);
    out.push((n % 256) as u8);
    assert(out@ =~= old(out)@ + u64_bytes(n));
}

pub fn write_i16(out: &mut Vec<u8>, n: i16)
    ensures
        final(out)@ == old(out)@ + i16_bytes(n),
{
    let shifted: i32 = n as i32 + 0x8000;
    out.push((shifted / 0x100) as u8);
    out.push((shifted % 0x100) as u8);
    assert(out@ =~= old(out)@ + i16_bytes(n));
}

pub fn write_i32(out: &mut Vec<u8>, n: i32)
    ensures
        final(out)@ == old(out)@ + i32_bytes(n),
{
    let shifted: i64 = n as i64 + 0x8000_0000;
    out.push((shifted / 0x100_0000) as u8);
    out.push((shifted / 0x1_0000 % 256) as u8);
    out.push((shifted / 0x100 % 256) as u8);
    out.push((shifted % 256) as u8);
    assert(out@ =~= old(out)@ + i32_bytes(n));
}

pub fn write_text(out: &mut Vec<u8>, text: &String)
    ensures
        final(out)@ == old(out)@ + text_bytes(text@),
{
    let mut bytes = text.as_str().as_bytes_vec();
    write_u64(out, bytes.len() as u64);
    out.append(&mut bytes);
    assert(out@ =~= old(out)@ + text_bytes(text@));
}

pub fn write_optional_text(out: &mut Vec<u8>, text: &Option<String>)
    ensures
        final(out)@ == old(out)@ + optional_text_bytes(*text),
{
    match text {
        Some(text) => {
            out.push(1);
            write_text(out, text);
            assert(out@ =~= old(out)@ + (seq![1u8] + text_bytes(text@)));
        },
        None => {
            out.push(0);
            assert(out@ =~= old(out)@ + seq![0u8]);
        },
    }
}

/// Numbers with the same eight bytes are the same.
pub proof fn lemma_u64_bytes_apart(a: u64, b: u64)
    requires
        u64_bytes(a) == u64_bytes(b),
    ensures
        a == b,
{
    let x = u64_bytes(a);
    let y = u64_bytes(b);
    assert(x[0] == y[0] && x[1] == y[1] && x[2] == y[2] && x[3] == y[3] && x[4] == y[4] && x[5]
        == y[5] && x[6] == y[6] && x[7] == y[7]);
    assert(a == b) by (bit_vector)
        requires
            a / 0x100_0000_0000_0000 % 256 == b / 0x100_0000_0000_0000 % 256,
            a / 0x1_0000_0000_0000 % 256 == b / 0x1_0000_0000_0000 % 256,
            a / 0x100_0000_0000 % 256 == b / 0x100_0000_0000 % 256,
            a / 0x1_0000_0000 % 256 == b / 0x1_0000_0000 % 256,
            a / 0x100_0000 % 256 == b / 0x100_0000 % 256,
            a / 0x1_0000 % 256 == b / 0x1_0000 % 256,
            a / 0x100 % 256 == b / 0x100 % 256,
            a % 256 == b % 256,
    ;
}

/// Numbers with the same two bytes are the same.
pub proof fn lemma_i16_bytes_apart(a: i16, b: i16)
    requires
        i16_bytes(a) == i16_bytes(b),
    ensures
        a == b,
{
    let x = i16_bytes(a);
    let y = i16_bytes(b);
    assert(x[0] == y[0] && x[1] == y[1]);
}

/// Numbers with the same four bytes are the same.
pub proof fn lemma_i32_bytes_apart(a: i32, b: i32)
    requires
        i32_bytes(a) == i32_bytes(b),
    ensures
        a == b,
{
    let x = i32_bytes(a);
    let y = i32_bytes(b);
    assert(x[0] == y[0] && x[1] == y[1] && x[2] == y[2] && x[3] == y[3]);
    let m = (a + 0x8000_0000) as u32;
    let n = (b + 0x8000_0000) as u32;
    assert(m == n) by (bit_vector)
        requires
            m / 0x100_0000 == n / 0x100_0000,
            m / 0x1_0000 % 256 == n / 0x1_0000 % 256,
            m / 0x100 % 256 == n / 0x100 % 256,
            m % 256 == n % 256,
    ;
}

/// Two sequences that begin with parts of the same length are the same only if
/// these parts are the same, and the rest too.
pub proof fn lemma_same_parts<T>(a: Seq<T>, x: Seq<T>, b: Seq<T>, y: Seq<T>)
    requires
        a + x == b + y,
        a.len() == b.len(),
    ensures
        a == b,
        x == y,
{
    assert((a + x).subrange(0, a.len() as int) =~= a);
    assert((b + y).subrange(0, b.len() as int) =~= b);
    assert((a + x).subrange(a.len() as int, (a + x).len() as int) =~= x);
    assert((b + y).subrange(b.len() as int, (b + y).len() as int) =~= y);
}

/// Whether the bytes of a text can be counted in eight bytes, as they can for
/// every text that a machine holds.
pub open spec fn countable(text: Seq<char>) -> bool {
    vstd::utf8::encode_utf8(text).len() <= u64::MAX
}

/// The bytes of a text say where the text ends: where two sequences of bytes that
/// each begin with a text are the same, the texts are the same, and so is what
/// follows them.
pub proof fn lemma_text_bytes_apart(a: Seq<char>, x: Seq<u8>, b: Seq<char>, y: Seq<u8>)
    requires
        text_bytes(a) + x == text_bytes(b) + y,
        countable(a),
        countable(b),
    ensures
        a == b,
        x == y,
{
    let ea = vstd::utf8::encode_utf8(a);
    let eb = vstd::utf8::encode_utf8(b);
    let ca = u64_bytes(ea.len() as u64);
    let cb = u64_bytes(eb.len() as u64);
    assert(text_bytes(a) + x =~= ca + (ea + x));
    assert(text_bytes(b) + y =~= cb + (eb + y));
    lemma_same_parts(ca, ea + x, cb, eb + y);
    lemma_u64_bytes_apart(ea.len() as u64, eb.len() as u64);
    lemma_same_parts(ea, x, eb, y);
    vstd::utf8::encode_utf8_decode_utf8(a);
    vstd::utf8::encode_utf8_decode_utf8(b);
}

/// The same holds of a text that may not be there.
pub proof fn lemma_optional_text_bytes_apart(
    a: Option<String>,
    x: Seq<u8>,
    b: Option<String>,
    y: Seq<u8>,
)
    requires
        optional_text_bytes(a) + x == optional_text_bytes(b) + y,
        a matches Some(text) ==> countable(text@),
        b matches Some(text) ==> countable(text@),
    ensures
        a is Some <==> b is Some,
        a is Some ==> a->0@ == b->0@,
        x == y,
{
    let left = optional_text_bytes(a) + x;
    let right = optional_text_bytes(b) + y;
    assert(left[0] == right[0]);
    match (a, b) {
        (Some(s), Some(t)) => {
            assert(left =~= seq![1u8] + (text_bytes(s@) + x));
            assert(right =~= seq![1u8] + (text_bytes(t@) + y));
            lemma_same_parts(seq![1u8], text_bytes(s@) + x, seq![1u8], text_bytes(t@) + y);
            lemma_text_bytes_apart(s@, x, t@, y);
        },
        (None, None) => {
            lemma_same_parts(seq![0u8], x, seq![0u8], y);
        },
        (Some(s), None) => {
            assert(left[0] == 1u8);
            assert(right[0] == 0u8);
        },
        (None, Some(t)) => {
            assert(left[0] == 0u8);
            assert(right[0] == 1u8);
        },
    }
}

/// A value with a state that a caller can have seen and that a write can be made
/// to depend on.
pub trait Canonical {
    /// The bytes that stand for the state of the value: two values that are to count
    /// as unchanged have the same bytes.
    spec fn canonical(&self) -> Seq<u8>;

    fn canonical_bytes(&self) -> (bytes: Vec<u8>)
        ensures
            bytes@ == self.canonical(),
    ;
}

/// The token that stands for a state given by its bytes.
pub open spec fn token_of(bytes: Seq<u8>) -> u64 {
    DefaultHasher::spec_finish(seq![bytes])
}

/// The token of the state that `value` is in. A caller who has read the value
/// hands the token back with a write, which then goes through only if the value
/// is still in that state.
pub fn etag<H: Canonical>(value: &H) -> (token: u64)
    ensures
        token == token_of(value.canonical()),
{
    let bytes = value.canonical_bytes();
    let mut hasher = DefaultHasher::new();
    hasher.write(bytes.as_slice());
    assert(hasher@ =~= seq![bytes@]);
    hasher.finish()
}

/// The tokens that a caller sent along with a write: the states in any of which
/// the caller is content to find the value.
#[derive(Debug, PartialEq, Eq)]
pub struct IfMatch(pub Vec<u64>);

impl View for IfMatch {
    type V = Seq<u64>;

    open spec fn view(&self) -> Seq<u64> {
        self.0@
    }
}

impl IfMatch {
    /// Whether `token` is one of those that the caller sent.
    pub fn met(&self, token: u64) -> (met: bool)
        ensures
            met == self@.contains(token),
    {
        let mut i: usize = 0;
        while i < self.0.len()
            invariant
                i <= self.0.len(),
                forall|j: int| 0 <= j < i ==> self.0@[j] != token,
            decreases self.0.len() - i,
        {
            if self.0[i] == token {
                return true;
            }
            i += 1;
        }
        false
    }
}

} // verus!
