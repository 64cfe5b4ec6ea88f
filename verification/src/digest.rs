use crate::text::chars_of;
use sha2::Digest;
use vstd::prelude::*;

verus! {

/// The SHA-256 digest of some bytes.
pub uninterp spec fn sha256(bytes: Seq<u8>) -> Seq<u8>;

/// A running SHA-256 computation.
#[verifier::external_body]
pub struct ContentHasher {
    hasher: sha2::Sha256,
}

/// The bytes that a running computation has taken in.
pub uninterp spec fn hashed_bytes(hasher: ContentHasher) -> Seq<u8>;

impl ContentHasher {
    /// `sha2::Sha256::new`: a computation that has taken in nothing.
    #[verifier::external_body]
    pub(crate) fn start() -> (r: ContentHasher)
        ensures
            hashed_bytes(r) == Seq::<u8>::empty(),
    {
        ContentHasher { hasher: sha2::Sha256::new() }
    }

    /// `sha2::Sha256::update`: the bytes follow those that were taken in before.
    #[verifier::external_body]
    pub(crate) fn take_in(&mut self, bytes: &[u8])
        ensures
            hashed_bytes(*final(self)) == hashed_bytes(*old(self)) + bytes@,
    {
        self.hasher.update(bytes);
    }

    /// `sha2::Sha256::finalize`: the 32 bytes of the digest of all that was taken in.
    #[verifier::external_body]
    pub(crate) fn finish(self) -> (r: Vec<u8>)
        ensures
            r@ == sha256(hashed_bytes(self)),
            r@.len() == 32,
    {
        self.hasher.finalize().to_vec()
    }
}

/// The SHA-256 digest of some bytes.
pub fn sha256_of(bytes: &[u8]) -> (r: Vec<u8>)
    ensures
        r@ == sha256(bytes@),
        r@.len() == 32,
{
    let mut hasher = ContentHasher::start();
    hasher.take_in(bytes);
    proof {
        assert(hashed_bytes(hasher) =~= bytes@);
    }
    hasher.finish()
}

/// The lower-case hexadecimal digit for a number below sixteen.
pub open spec fn hex_digit(n: u8) -> char {
    if n < 10 {
        ('0' as u8 + n) as char
    } else {
        ('a' as u8 + (n - 10)) as char
    }
}

/// Bytes in lower-case hexadecimal digits.
pub open spec fn hex(bytes: Seq<u8>) -> Seq<char>
    decreases bytes.len(),
{
    if bytes.len() == 0 {
        Seq::empty()
    } else {
        hex(bytes.drop_last()).push(hex_digit(bytes.last() / 16)).push(hex_digit(bytes.last() % 16))
    }
}

fn digit(n: u8) -> (r: char)
    requires
        n < 16,
    ensures
        r == hex_digit(n),
{
    if n < 10 {
        (48u8 + n) as char
    } else {
        (87u8 + n) as char
    }
}

/// Adds bytes in lower-case hexadecimal digits to a text.
pub fn push_hex(text: &mut String, bytes: &[u8])
    ensures
        final(text)@ == old(text)@ + hex(bytes@),
{
    let ghost start = text@;
    let mut i: usize = 0;
    proof {
        assert(bytes@.subrange(0, 0) =~= Seq::<u8>::empty());
        assert(start + hex(bytes@.subrange(0, 0)) =~= start);
    }
    while i < bytes.len()
        invariant
            0 <= i <= bytes.len(),
            text@ == start + hex(bytes@.subrange(0, i as int)),
        decreases bytes.len() - i,
    {
        proof {
            assert(bytes@.subrange(0, i + 1).drop_last() =~= bytes@.subrange(0, i as int));
        }
        text.push(digit(bytes[i] / 16));
        text.push(digit(bytes[i] % 16));
        proof {
            assert(text@ =~= start + hex(bytes@.subrange(0, i + 1)));
        }
        i = i + 1;
    }
    proof {
        assert(bytes@.subrange(0, bytes@.len() as int) =~= bytes@);
    }
}

/// A digest in words: the name of the algorithm, and the hexadecimal digits.
pub open spec fn named_digest(bytes: Seq<u8>) -> Seq<char> {
    "sha256:"@ + hex(sha256(bytes))
}

pub fn digest_name(digest: &Vec<u8>) -> (r: String)
    ensures
        r@ == "sha256:"@ + hex(digest@),
{
    let mut name = "sha256:".to_owned();
    push_hex(&mut name, digest.as_slice());
    name
}

/// What an inspection of a fixed text shows besides the text.
pub struct TextInspection {
    pub sha256: String,
    pub bytes: usize,
    pub chars: usize,
}

pub fn inspect_text(content: &str) -> (r: TextInspection)
    ensures
        r.sha256@ == named_digest(vstd::utf8::encode_utf8(content@)),
        r.bytes == crate::text::byte_len(content@),
        r.chars == content@.len(),
{
    TextInspection {
        sha256: digest_name(&sha256_of(content.as_bytes())),
        bytes: content.as_bytes().len(),
        chars: chars_of(content).len(),
    }
}

/// A digit of a hexadecimal text stands for its value: the ten figures first, then the small letters.
pub proof fn law_hex_digits_stand_for_their_value(n: u8)
    requires
        n < 16,
    ensures
        n < 10 ==> hex_digit(n) as int == '0' as int + n,
        n >= 10 ==> hex_digit(n) as int == 'a' as int + n - 10,
{
}

/// A hexadecimal text has two digits for each byte, the high half before the low half, in the order of
/// the bytes.
pub proof fn law_hex_texts_have_two_digits_for_each_byte(bytes: Seq<u8>, i: int)
    requires
        0 <= i < bytes.len(),
    ensures
        hex(bytes).len() == 2 * bytes.len(),
        hex(bytes)[2 * i] == hex_digit(bytes[i] / 16),
        hex(bytes)[2 * i + 1] == hex_digit(bytes[i] % 16),
    decreases bytes.len(),
{
    let front = bytes.drop_last();
    if front.len() > 0 {
        if i < front.len() {
            law_hex_texts_have_two_digits_for_each_byte(front, i);
            assert(front[i] == bytes[i]);
        } else {
            law_hex_texts_have_two_digits_for_each_byte(front, 0);
        }
    } else {
        assert(hex(front).len() == 0);
    }
}

/// Different bytes have different hexadecimal texts.
pub proof fn law_hex_texts_tell_bytes_apart(a: Seq<u8>, b: Seq<u8>)
    requires
        hex(a) == hex(b),
    ensures
        a == b,
{
    if a.len() > 0 {
        law_hex_texts_have_two_digits_for_each_byte(a, 0);
    }
    if b.len() > 0 {
        law_hex_texts_have_two_digits_for_each_byte(b, 0);
    }
    assert(a.len() == b.len());
    assert forall|i: int| 0 <= i < a.len() implies a[i] == b[i] by {
        law_hex_texts_have_two_digits_for_each_byte(a, i);
        law_hex_texts_have_two_digits_for_each_byte(b, i);
        law_hex_digits_stand_for_their_value(a[i] / 16);
        law_hex_digits_stand_for_their_value(b[i] / 16);
        law_hex_digits_stand_for_their_value(a[i] % 16);
        law_hex_digits_stand_for_their_value(b[i] % 16);
    }
    assert(a =~= b);
}

/// A digest is named with its method before it.
pub proof fn law_digests_name_their_method(bytes: Seq<u8>)
    ensures
        named_digest(bytes) == "sha256:"@ + hex(sha256(bytes)),
{
}

} // verus!
