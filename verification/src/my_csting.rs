//! An owned, NUL-terminated byte string for handing text to C, and its
//! conversion back into Rust text.
use vstd::prelude::*;
use vstd::slice::{slice_subrange, slice_to_vec};
use vstd::string::{StringExecFns, StringSliceAdditionalSpecFns};
use vstd::utf8::{
    decode_utf8,
    encode_utf8,
    encode_utf8_decode_utf8,
    encode_utf8_valid_utf8,
    is_ascii_chars,
    is_ascii_chars_encode_utf8,
    valid_utf8,
};

verus! {

/// Each byte read as the character with the same number (ISO 8859-1).
pub open spec fn latin1(bytes: Seq<u8>) -> Seq<char> {
    Seq::new(bytes.len(), |i: int| bytes[i] as char)
}

/// The text that a C string's bytes stand for: their UTF-8 decoding when
/// they are valid UTF-8, each byte as one character otherwise.
pub open spec fn text_of(bytes: Seq<u8>) -> Seq<char> {
    if valid_utf8(bytes) {
        decode_utf8(bytes)
    } else {
        latin1(bytes)
    }
}

/// What `String::from_utf8_lossy` makes of `bytes`: the text they encode,
/// with each invalid sequence replaced by U+FFFD.
pub uninterp spec fn utf8_lossy(bytes: Seq<u8>) -> Seq<char>;

/// `core::str::from_utf8`, with its error dropped. Claims that it succeeds
/// exactly on valid UTF-8 and that the text it returns is encoded by the
/// very bytes it was given.
#[verifier::external_body]
fn str_from_utf8(bytes: &[u8]) -> (r: Option<&str>)
    ensures
        r is Some <==> valid_utf8(bytes@),
        r matches Some(s) ==> s.spec_bytes() == bytes@,
{
    core::str::from_utf8(bytes).ok()
}

/// `String::push`. Claims that it appends the character.
#[verifier::external_body]
fn string_push(s: &mut String, c: char)
    ensures
        final(s)@ == old(s)@.push(c),
{
    s.push(c)
}

/// `String::from_utf8_lossy`, made into an owned `String`. Claims that the
/// result is [`utf8_lossy`] of the bytes, and, as its documentation says of
/// valid input, that valid UTF-8 comes back decoded unchanged.
#[verifier::external_body]
fn string_from_utf8_lossy(bytes: &[u8]) -> (r: String)
    ensures
        r@ == utf8_lossy(bytes@),
        valid_utf8(bytes@) ==> r@ == decode_utf8(bytes@),
{
    String::from_utf8_lossy(bytes).into_owned()
}

/// Turns the bytes of a C string (without its terminator) into Rust text,
/// replacing every invalid UTF-8 sequence by U+FFFD.
pub fn lossy_string_from_bytes(bytes: &[u8]) -> (r: String)
    ensures
        r@ == utf8_lossy(bytes@),
        valid_utf8(bytes@) ==> r@ == decode_utf8(bytes@),
{
    string_from_utf8_lossy(bytes)
}

/// A byte string followed by one NUL byte, ready to be handed to C.
pub struct CString {
    inner: Vec<u8>,
}

impl View for CString {
    type V = Seq<u8>;

    /// The bytes of the string, without the terminating NUL.
    closed spec fn view(&self) -> Seq<u8> {
        self.inner@.drop_last()
    }
}

impl CString {
    /// The bytes as C sees them: the string followed by its NUL.
    pub closed spec fn bytes_with_nul(&self) -> Seq<u8> {
        self.inner@
    }

    /// The buffer always ends in the NUL terminator.
    #[verifier::type_invariant]
    closed spec fn inv(&self) -> bool {
        &&& self.inner@.len() > 0
        &&& self.inner@.last() == 0u8
    }

    /// Copies `s` and appends a NUL byte. The bytes are taken as they are:
    /// a NUL inside `s` is kept, and C will see the string end there.
    pub fn new(s: &[u8]) -> (r: Self)
        ensures
            r@ == s@,
            r.bytes_with_nul() == s@.push(0u8),
    {
        let mut v = slice_to_vec(s);
        v.push(0);
        assert(v@.drop_last() =~= s@);
        CString { inner: v }
    }

    /// The bytes followed by the NUL terminator, as C reads them.
    pub fn as_bytes_with_nul(&self) -> (r: &[u8])
        ensures
            r@ == self.bytes_with_nul(),
            r@ == self@.push(0u8),
    {
        proof {
            use_type_invariant(self);
            assert(self.inner@ =~= self.inner@.drop_last().push(0u8));
        }
        self.inner.as_slice()
    }

    /// The string as Rust text: decoded as UTF-8 when the bytes are valid
    /// UTF-8, otherwise each byte taken as the character with its number.
    pub fn to_rust_string(&self) -> (r: String)
        ensures
            r@ == text_of(self@),
    {
        proof {
            use_type_invariant(self);
        }
        let n = self.inner.len() - 1;
        let slice = slice_subrange(self.inner.as_slice(), 0, n);
        assert(slice@ =~= self@);
        match str_from_utf8(slice) {
            Some(s) => {
                proof {
                    encode_utf8_decode_utf8(s@);
                }
                s.to_owned()
            },
            None => {
                let mut out = String::new();
                let mut i: usize = 0;
                while i < n
                    invariant
                        n == slice@.len(),
                        i <= n,
                        out@ =~= latin1(slice@.take(i as int)),
                    decreases n - i,
                {
                    let b = slice[i];
                    string_push(&mut out, b as char);
                    i = i + 1;
                }
                assert(slice@.take(n as int) =~= slice@);
                out
            },
        }
    }

    /// The debug form `CString(<text>)`, where the text is that of
    /// [`CString::to_rust_string`].
    pub fn to_debug_string(&self) -> (r: String)
        ensures
            r@ == "CString("@ + text_of(self@) + ")"@,
    {
        let mut out = String::from_str("CString(");
        let text = self.to_rust_string();
        out.append(text.as_str());
        out.append(")");
        out
    }
}

/// Bytes below 128 read the same either way: their text is one character
/// per byte, with the byte's number.
pub proof fn lemma_ascii_text(bytes: Seq<u8>)
    requires
        forall|i: int| 0 <= i < bytes.len() ==> bytes[i] < 128,
    ensures
        text_of(bytes) == latin1(bytes),
        valid_utf8(bytes),
{
    let cs = latin1(bytes);
    assert(is_ascii_chars(cs));
    is_ascii_chars_encode_utf8(cs);
    assert(encode_utf8(cs) =~= bytes);
    encode_utf8_valid_utf8(cs);
    encode_utf8_decode_utf8(cs);
}

} // verus!
