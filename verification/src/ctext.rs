//! Text in the form the platform's log takes it: bytes that end in a null
//! byte and hold no other.

use vstd::prelude::*;
use vstd::string::*;
use vstd::utf8::*;

verus! {

/// Whether a null byte occurs among `bytes`.
pub open spec fn has_nul(bytes: Seq<u8>) -> bool {
    exists|i: int| 0 <= i < bytes.len() && bytes[i] == 0u8
}

/// Whether `bytes` is a text without a null byte, followed by one.
pub open spec fn is_terminated(bytes: Seq<u8>) -> bool {
    &&& bytes.len() > 0
    &&& bytes.last() == 0u8
    &&& !has_nul(bytes.drop_last())
}

/// The UTF-8 form of one character holds a null byte only where the
/// character is the null character.
proof fn lemma_scalar_nul(c: char)
    ensures
        has_nul(encode_scalar(c as u32)) <==> c == '\0',
{
    let v = c as u32;
    let bytes = encode_scalar(v);
    if has_width_1_encoding(v) {
        assert(leading_byte_width_1(v) == 0u8 <==> v == 0u32) by (bit_vector)
            requires
                has_width_1_encoding(v),
        ;
        if v == 0 {
            assert(bytes[0] == 0u8);
        }
    } else {
        assert(leading_byte_width_2(v) != 0u8 && leading_byte_width_3(v) != 0u8
            && leading_byte_width_4(v) != 0u8 && last_continuation_byte(v) != 0u8
            && second_last_continuation_byte(v) != 0u8 && third_last_continuation_byte(v)
            != 0u8) by (bit_vector);
    }
}

/// A null byte occurs in two texts joined exactly where it occurs in one of
/// them.
pub proof fn lemma_has_nul_concat(a: Seq<u8>, b: Seq<u8>)
    ensures
        has_nul(a + b) <==> has_nul(a) || has_nul(b),
{
    if has_nul(a) {
        let i = choose|i: int| 0 <= i < a.len() && a[i] == 0u8;
        assert((a + b)[i] == 0u8);
    }
    if has_nul(b) {
        let i = choose|i: int| 0 <= i < b.len() && b[i] == 0u8;
        assert((a + b)[a.len() + i] == 0u8);
    }
}

/// The UTF-8 form of a text holds a null byte exactly where the text holds
/// the null character.
pub proof fn lemma_nul_byte_iff_nul_char(chars: Seq<char>)
    ensures
        has_nul(encode_utf8(chars)) <==> chars.contains('\0'),
    decreases chars.len(),
{
    if chars.len() == 0 {
    } else {
        let rest = chars.drop_first();
        lemma_scalar_nul(chars[0]);
        lemma_nul_byte_iff_nul_char(rest);
        lemma_has_nul_concat(encode_scalar(chars[0] as u32), encode_utf8(rest));
        if chars.contains('\0') {
            let i = choose|i: int| 0 <= i < chars.len() && chars[i] == '\0';
            if i > 0 {
                assert(rest[i - 1] == '\0');
            }
        }
    }
}

/// Tells whether `text` holds a null byte, which it does exactly where it
/// holds the null character.
pub fn contains_nul(text: &str) -> (found: bool)
    ensures
        found == has_nul(text.spec_bytes()),
        found == text@.contains('\0'),
{
    proof {
        lemma_nul_byte_iff_nul_char(text@);
    }
    let bytes = text.as_bytes();
    let mut i: usize = 0;
    while i < bytes.len()
        invariant
            i <= bytes.len(),
            bytes@ == text.spec_bytes(),
            has_nul(bytes@) <==> text@.contains('\0'),
            forall|j: int| 0 <= j < i ==> bytes@[j] != 0u8,
        decreases bytes.len() - i,
    {
        if bytes[i] == 0 {
            return true;
        }
        i = i + 1;
    }
    false
}

/// A null-terminated text.
#[derive(Debug)]
pub struct CText {
    bytes: Vec<u8>,
}

impl View for CText {
    type V = Seq<u8>;

    /// The text, without its terminator.
    closed spec fn view(&self) -> Seq<u8> {
        self.bytes@.drop_last()
    }
}

impl CText {
    #[verifier::type_invariant]
    spec fn well_formed(self) -> bool {
        is_terminated(self.bytes@)
    }

    /// The text with its terminator, as the platform reads it.
    pub closed spec fn with_nul(&self) -> Seq<u8> {
        self.bytes@
    }

    /// Encodes `text` and terminates it, unless it holds a null byte.
    pub fn new(text: &str) -> (made: Option<CText>)
        ensures
            made is None <==> has_nul(text.spec_bytes()),
            made is None <==> text@.contains('\0'),
            made matches Some(c) ==> c@ == text.spec_bytes() && c.with_nul()
                == text.spec_bytes().push(0u8),
    {
        if contains_nul(text) {
            return None;
        }
        let mut bytes = text.as_bytes_vec();
        bytes.push(0);
        Some(CText { bytes })
    }

    /// The text without its terminator.
    pub fn as_bytes(&self) -> (out: &[u8])
        ensures
            out@ == self@,
            !has_nul(out@),
    {
        proof {
            use_type_invariant(self);
        }
        let n: usize = self.bytes.len();
        vstd::slice::slice_subrange(self.bytes.as_slice(), 0, n - 1)
    }

    /// The text and its terminator.
    pub fn as_bytes_with_nul(&self) -> (out: &[u8])
        ensures
            out@ == self.with_nul(),
            out@ == self@.push(0u8),
            is_terminated(out@),
    {
        proof {
            use_type_invariant(self);
        }
        self.bytes.as_slice()
    }
}

} // verus!
