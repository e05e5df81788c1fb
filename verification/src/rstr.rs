//! The string type used to exchange byte buffers with the native engine.
//!
//! A buffer crossing the boundary is a `(length, pointer)` pair. Here the
//! pair is modelled with plain values: the stored length, and an optional
//! byte buffer whose absence stands for a null pointer. The null regime is
//! meaningful on its own — the boolean result encoder reports a match as a
//! null buffer whose length field is exactly one — so the length is kept
//! even when no buffer is present.

use vstd::prelude::*;
use vstd::slice::slice_to_vec;
use vstd::string::StringSliceAdditionalSpecFns;
use vstd::utf8::{decode_utf8, encode_utf8, encode_utf8_decode_utf8, encode_utf8_valid_utf8,
    valid_utf8};

verus! {

/// A view over a byte buffer crossing the native boundary.
///
/// The view never frees anything implicitly: release happens only through
/// [`RosieString::manual_drop`], which is safe to call any number of times.
#[derive(Debug, Clone)]
pub struct RosieString {
    len: u32,
    buf: Option<Vec<u8>>,
}

impl RosieString {
    /// Whether the view holds a buffer; a view without one models a null
    /// pointer.
    pub closed spec fn spec_is_valid(&self) -> bool {
        self.buf is Some
    }

    /// The value of the stored length field.
    pub closed spec fn spec_len(&self) -> u32 {
        self.len
    }

    /// The bytes the view exposes: the buffer's bytes, or the empty
    /// sequence when the buffer is null.
    pub closed spec fn spec_bytes(&self) -> Seq<u8> {
        match self.buf {
            Some(b) => b@,
            None => Seq::<u8>::empty(),
        }
    }

    /// Well-formedness: when a buffer is present, the stored length counts
    /// exactly its bytes; when none is, the view exposes no bytes at all.
    /// A null view may still carry any length — that is how the boolean
    /// encoder signals a match without allocating.
    pub open spec fn wf(&self) -> bool {
        &&& self.spec_is_valid() ==> self.spec_bytes().len() == self.spec_len()
        &&& !self.spec_is_valid() ==> self.spec_bytes() == Seq::<u8>::empty()
    }

    /// A null view with length zero.
    pub fn empty() -> (r: RosieString)
        ensures
            r.wf(),
            !r.spec_is_valid(),
            r.spec_len() == 0,
            r.spec_bytes() == Seq::<u8>::empty(),
    {
        RosieString { len: 0, buf: None }
    }

    /// Rebuild a view from the raw pair observed at the boundary: the
    /// length field as the engine reported it, and the buffer's bytes, or
    /// `None` where the buffer pointer was null.
    pub fn from_parts(len: u32, buf: Option<Vec<u8>>) -> (r: RosieString)
        requires
            buf matches Some(b) ==> b@.len() == len,
        ensures
            r.wf(),
            r.spec_is_valid() == (buf is Some),
            r.spec_len() == len,
            r.spec_bytes() == (match buf {
                Some(b) => b@,
                None => Seq::<u8>::empty(),
            }),
    {
        RosieString { len, buf }
    }

    /// A view over the given text: the buffer holds the text's UTF-8
    /// bytes. The length field is thirty-two bits wide, so the text may
    /// not encode to more bytes than that field can count.
    pub fn from_str(s: &str) -> (r: RosieString)
        requires
            s.spec_bytes().len() <= u32::MAX,
        ensures
            r.wf(),
            r.spec_is_valid(),
            r.spec_bytes() == encode_utf8(s@),
            r.spec_len() == encode_utf8(s@).len(),
    {
        let bytes: Vec<u8> = slice_to_vec(s.as_bytes());
        let n: u32 = bytes.len() as u32;
        RosieString { len: n, buf: Some(bytes) }
    }

    /// Release the buffer. Releasing is idempotent: on a view that is
    /// already null this is a no-op, and in every case the view is null
    /// afterwards. Only a release of an actual buffer resets the length;
    /// a null view keeps the length it had.
    pub fn manual_drop(&mut self)
        ensures
            final(self).wf(),
            !final(self).spec_is_valid(),
            final(self).spec_bytes() == Seq::<u8>::empty(),
            old(self).spec_is_valid() ==> final(self).spec_len() == 0,
            !old(self).spec_is_valid() ==> final(self).spec_len() == old(self).spec_len(),
    {
        if self.buf.is_some() {
            self.buf = None;
            self.len = 0;
        }
    }

    /// Whether the view holds a buffer.
    pub fn is_valid(&self) -> (r: bool)
        ensures
            r == self.spec_is_valid(),
    {
        self.buf.is_some()
    }

    /// A copy of the view's bytes; empty when the buffer is null.
    pub fn as_bytes(&self) -> (r: Vec<u8>)
        ensures
            r@ == self.spec_bytes(),
    {
        match &self.buf {
            Some(b) => slice_to_vec(b.as_slice()),
            None => Vec::new(),
        }
    }

    /// The view's bytes, consuming the view; empty when the buffer is
    /// null.
    pub fn into_bytes(self) -> (r: Vec<u8>)
        ensures
            r@ == self.spec_bytes(),
    {
        match self.buf {
            Some(b) => b,
            None => Vec::new(),
        }
    }

    /// The view's bytes decoded as text. The bytes must form a valid
    /// UTF-8 encoding; decoding never substitutes data.
    pub fn as_str(&self) -> (r: String)
        requires
            valid_utf8(self.spec_bytes()),
        ensures
            r@ == decode_utf8(self.spec_bytes()),
    {
        decode_bytes(self.as_bytes()).unwrap()
    }

    /// The view's bytes decoded as text, when they form a valid UTF-8
    /// encoding, and `None` otherwise: decoding fails rather than
    /// substitute data.
    pub fn try_as_str(&self) -> (r: Option<String>)
        ensures
            r is Some <==> valid_utf8(self.spec_bytes()),
            r matches Some(s) ==> s@ == decode_utf8(self.spec_bytes()),
    {
        decode_bytes(self.as_bytes())
    }

    /// The view's bytes decoded as text, consuming the view. The bytes
    /// must form a valid UTF-8 encoding.
    pub fn into_str(self) -> (r: String)
        requires
            valid_utf8(self.spec_bytes()),
        ensures
            r@ == decode_utf8(self.spec_bytes()),
    {
        decode_bytes(self.into_bytes()).unwrap()
    }

    /// The stored length field, widened to `usize`.
    pub fn len(&self) -> (r: usize)
        ensures
            r == self.spec_len(),
    {
        self.len as usize
    }
}

/// Law: building a view over text and decoding the view's bytes yields
/// the same text back. The premise is exactly what [`RosieString::from_str`]
/// ensures of the view it builds; the conclusion discharges the
/// precondition of [`RosieString::as_str`] and pins its result to the
/// original text.
pub proof fn lemma_view_round_trip(s: &str, v: RosieString)
    requires
        v.spec_bytes() == encode_utf8(s@),
    ensures
        valid_utf8(v.spec_bytes()),
        decode_utf8(v.spec_bytes()) == s@,
{
    encode_utf8_valid_utf8(s@);
    encode_utf8_decode_utf8(s@);
}

/// Relies on `String::from_utf8`: it succeeds exactly when the bytes are
/// a valid UTF-8 encoding, and then returns the text those bytes encode.
#[verifier::external_body]
fn decode_bytes(bytes: Vec<u8>) -> (r: Option<String>)
    ensures
        r is Some <==> valid_utf8(bytes@),
        r matches Some(s) ==> s@ == decode_utf8(bytes@),
{
    String::from_utf8(bytes).ok()
}

} // verus!
