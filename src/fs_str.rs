use vstd::prelude::*;
use vstd::string::StringSliceAdditionalSpecFns;
use vstd::slice::slice_to_vec;
use vstd::utf8::*;

verus! {

/// Relies on std::str::from_utf8: it accepts exactly the valid UTF-8
/// sequences, and the text it then hands back is made of those bytes.
#[verifier::external_body]
fn str_from_utf8<'b>(bytes: &'b [u8]) -> (r: Option<&'b str>)
    ensures
        r is Some <==> valid_utf8(bytes@),
        r matches Some(s) ==> s.spec_bytes() == bytes@,
{
    std::str::from_utf8(bytes).ok()
}

/// Whether every byte lies in the ASCII range.
pub open spec fn all_ascii(b: Seq<u8>) -> bool {
    forall|i: int| 0 <= i < b.len() ==> b[i] < 128
}

/// Reading valid UTF-8 bytes as text and encoding that text again gives
/// back the same bytes.
pub proof fn lemma_text_round_trip(b: Seq<u8>)
    requires
        valid_utf8(b),
    ensures
        encode_utf8(decode_utf8(b)) == b,
{
    broadcast use decode_utf8_encode_utf8;
}

/// A borrowed run of bytes that is valid UTF-8, as the storage engine names
/// files and directories.
#[derive(Clone, Copy)]
pub struct FsStr<'a> {
    inner: &'a str,
}

impl<'a> View for FsStr<'a> {
    type V = Seq<u8>;

    closed spec fn view(&self) -> Seq<u8> {
        self.inner.spec_bytes()
    }
}

/// The bytes of every name are valid UTF-8.
pub proof fn lemma_name_is_utf8(s: FsStr)
    ensures
        valid_utf8(s@),
{
    broadcast use encode_utf8_valid_utf8;
}

impl<'a> FsStr<'a> {
    /// Views the bytes of `s` without copying them.
    pub fn new(s: &'a str) -> (r: FsStr<'a>)
        ensures
            r@ == s.spec_bytes(),
    {
        FsStr { inner: s }
    }

    /// Views `bytes` as a name; the caller promises that they are valid
    /// UTF-8, and no copy is made.
    pub fn from_encoded_bytes_unchecked(bytes: &'a [u8]) -> (r: FsStr<'a>)
        requires
            valid_utf8(bytes@),
        ensures
            r@ == bytes@,
    {
        match str_from_utf8(bytes) {
            Some(s) => FsStr { inner: s },
            None => {
                proof {
                    assert(false);
                }
                FsStr { inner: "" }
            },
        }
    }

    /// The bytes as text.
    pub fn to_str(&self) -> (r: &'a str)
        ensures
            r.spec_bytes() == self@,
            r@ == decode_utf8(self@),
    {
        proof {
            broadcast use encode_utf8_decode_utf8;
        }
        self.inner
    }

    pub fn is_empty(&self) -> (r: bool)
        ensures
            r == (self@.len() == 0),
    {
        self.inner.as_bytes().len() == 0
    }

    pub fn len(&self) -> (r: usize)
        ensures
            r == self@.len(),
    {
        self.inner.as_bytes().len()
    }

    pub fn to_bytes(&self) -> (r: &'a [u8])
        ensures
            r@ == self@,
    {
        self.inner.as_bytes()
    }

    /// A fresh copy of the bytes followed by a single nul byte, the form in
    /// which the storage engine takes a name.
    pub fn to_nul_terminated_bytes(&self) -> (r: Vec<u8>)
        ensures
            r@ == self@.push(0u8),
    {
        let mut bytes = slice_to_vec(self.inner.as_bytes());
        bytes.push(0u8);
        bytes
    }

    pub fn is_ascii(&self) -> (r: bool)
        ensures
            r == all_ascii(self@),
    {
        let bytes = self.inner.as_bytes();
        let mut i: usize = 0;
        while i < bytes.len()
            invariant
                i <= bytes@.len(),
                bytes@ == self@,
                forall|j: int| 0 <= j < i ==> bytes@[j] < 128,
            decreases bytes@.len() - i,
        {
            if bytes[i] >= 128 {
                return false;
            }
            i += 1;
        }
        true
    }
}

} // verus!
