//! Paths as the bytes the kernel is given.

use vstd::prelude::*;

verus! {

/// A path: any bytes, whether or not they are text.
#[derive(Debug, PartialEq, Eq, Hash)]
pub struct PathBytes {
    bytes: Vec<u8>,
}

impl View for PathBytes {
    type V = Seq<u8>;

    closed spec fn view(&self) -> Seq<u8> {
        self.bytes@
    }
}

/// Whether a path starts at the root.
pub open spec fn is_rooted(path: Seq<u8>) -> bool {
    path.len() > 0 && path[0] == 0x2Fu8
}

/// Whether a byte string holds a NUL.
pub open spec fn holds_nul(bytes: Seq<u8>) -> bool {
    exists|i: int| 0 <= i < bytes.len() && bytes[i] == 0u8
}

/// What `String::from_utf8_lossy` makes of a byte string.
pub uninterp spec fn lossy_utf8(bytes: Seq<u8>) -> Seq<char>;

/// Calls `String::from_utf8_lossy`. Its result is a function of the bytes alone,
/// named by [`lossy_utf8`]; bytes that are the encoding of a text give that text.
#[verifier::external_body]
pub(crate) fn text_lossy(bytes: &Vec<u8>) -> (text: String)
    ensures
        text@ == lossy_utf8(bytes@),
        vstd::utf8::valid_utf8(bytes@) ==> text@ == vstd::utf8::decode_utf8(bytes@),
{
    String::from_utf8_lossy(bytes).into_owned()
}

/// A text between quotation marks, with what is not printable escaped.
pub uninterp spec fn quoted_text(text: Seq<char>) -> Seq<char>;

/// Calls the `Debug` of `str`. Its result is a function of the text alone, named
/// by [`quoted_text`].
#[verifier::external_body]
pub(crate) fn quoted(text: &str) -> (shown: String)
    ensures
        shown@ == quoted_text(text@),
{
    format!("{:?}", text)
}

/// Whether `bytes` hold a NUL.
pub fn bytes_hold_nul(bytes: &[u8]) -> (found: bool)
    ensures
        found == holds_nul(bytes@),
{
    let mut i: usize = 0;
    while i < bytes.len()
        invariant
            i <= bytes.len(),
            forall|k: int| 0 <= k < i ==> bytes@[k] != 0u8,
        decreases bytes.len() - i,
    {
        if bytes[i] == 0 {
            return true;
        }
        i += 1;
    }
    false
}

/// A copy of `bytes`.
pub fn copy_bytes(bytes: &[u8]) -> (copy: Vec<u8>)
    ensures
        copy@ == bytes@,
{
    let mut copy: Vec<u8> = Vec::new();
    copy.extend_from_slice(bytes);
    assert(copy@ =~= bytes@);
    copy
}

impl PathBytes {
    /// The path that is spelled `bytes`.
    pub fn from_bytes(bytes: Vec<u8>) -> (path: Self)
        ensures
            path@ == bytes@,
    {
        PathBytes { bytes }
    }

    /// The path that is spelled `text`.
    pub fn from_text(text: &str) -> (path: Self)
        ensures
            path@ == vstd::utf8::encode_utf8(text@),
    {
        PathBytes { bytes: copy_bytes(text.as_bytes()) }
    }

    /// The bytes of the path.
    pub fn as_bytes(&self) -> (bytes: &[u8])
        ensures
            bytes@ == self@,
    {
        self.bytes.as_slice()
    }

    /// Whether the path starts at the root.
    pub fn is_absolute(&self) -> (rooted: bool)
        ensures
            rooted == is_rooted(self@),
    {
        self.bytes.len() > 0 && self.bytes[0] == 0x2F
    }

    /// The path as text, with what is not text replaced.
    pub fn to_text(&self) -> (text: String)
        ensures
            text@ == lossy_utf8(self@),
    {
        text_lossy(&self.bytes)
    }
}

impl Clone for PathBytes {
    fn clone(&self) -> (copy: Self)
        ensures
            copy@ == self@,
    {
        PathBytes { bytes: copy_bytes(self.bytes.as_slice()) }
    }
}

} // verus!
