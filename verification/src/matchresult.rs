//! The record a match operation fills in: the encoded result buffer,
//! the unconsumed-input count, the abend flag, and two timings.

use vstd::prelude::*;
use vstd::utf8::{decode_utf8, valid_utf8};

use crate::rstr::RosieString;

verus! {

/// The results of one match operation.
///
/// The result buffer aliases engine memory tied to the pattern that
/// produced it, so no further match may be run against that pattern
/// until this record has been consumed or released — an ordering the
/// caller must keep, not one this type can enforce.
#[derive(Debug)]
pub struct RawMatchResult {
    data: RosieString,
    leftover: i32,
    abend: i32,
    ttotal: i32,
    tmatch: i32,
}

/// [`RawMatchResult`] construction used on the way into an engine call.
pub trait LibRosieMatchResult: Sized {
    /// Whether this record is the blank one handed to the engine to
    /// fill in.
    spec fn spec_is_blank(&self) -> bool;

    /// A blank record, ready to be filled in by a match operation.
    fn empty() -> (r: Self)
        ensures
            r.spec_is_blank(),
    ;
}

impl LibRosieMatchResult for RawMatchResult {
    open spec fn spec_is_blank(&self) -> bool {
        &&& !self.spec_data().spec_is_valid()
        &&& self.spec_data().spec_len() == 0
        &&& self.spec_data().spec_bytes() == Seq::<u8>::empty()
        &&& self.spec_leftover() == 0
        &&& self.spec_abend() == 0
        &&& self.spec_time_total() == 0
        &&& self.spec_time_matching() == 0
    }

    fn empty() -> (r: Self)
        ensures
            r.spec_is_blank(),
    {
        RawMatchResult {
            data: RosieString::empty(),
            leftover: 0,
            abend: 0,
            ttotal: 0,
            tmatch: 0,
        }
    }
}

impl RawMatchResult {
    /// The result buffer.
    pub closed spec fn spec_data(&self) -> RosieString {
        self.data
    }

    /// The count of input bytes the match left unconsumed.
    pub closed spec fn spec_leftover(&self) -> i32 {
        self.leftover
    }

    /// The engine's abnormal-end flag.
    pub closed spec fn spec_abend(&self) -> i32 {
        self.abend
    }

    /// The total time the match call took, in microseconds.
    pub closed spec fn spec_time_total(&self) -> i32 {
        self.ttotal
    }

    /// The time spent matching alone, in microseconds.
    pub closed spec fn spec_time_matching(&self) -> i32 {
        self.tmatch
    }

    /// Rebuild the record from the raw values observed at the boundary.
    pub fn from_parts(
        data: RosieString,
        leftover: i32,
        abend: i32,
        ttotal: i32,
        tmatch: i32,
    ) -> (r: Self)
        ensures
            r.spec_data() == data,
            r.spec_leftover() == leftover,
            r.spec_abend() == abend,
            r.spec_time_total() == ttotal,
            r.spec_time_matching() == tmatch,
    {
        RawMatchResult { data, leftover, abend, ttotal, tmatch }
    }

    /// Whether the pattern matched the input.
    ///
    /// Law: the result counts as a match when the buffer is non-null,
    /// or when the buffer is null and the length field is exactly one —
    /// the boolean encoder signals a match that way without allocating.
    /// A null buffer with any other length is no match.
    pub fn did_match(&self) -> (r: bool)
        ensures
            r == (self.spec_data().spec_is_valid() || self.spec_data().spec_len() == 1),
    {
        if self.data.is_valid() {
            return true;
        }
        if self.data.len() == 1 {
            return true;
        }
        false
    }

    /// A copy of the raw buffer the encoder produced.
    pub fn as_bytes(&self) -> (r: Vec<u8>)
        ensures
            r@ == self.spec_data().spec_bytes(),
    {
        self.data.as_bytes()
    }

    /// The raw buffer the encoder produced, consuming the record.
    pub fn into_bytes(self) -> (r: Vec<u8>)
        ensures
            r@ == self.spec_data().spec_bytes(),
    {
        self.data.into_bytes()
    }

    /// The result buffer decoded as text. The buffer must hold a valid
    /// UTF-8 encoding.
    pub fn as_str(&self) -> (r: String)
        requires
            valid_utf8(self.spec_data().spec_bytes()),
        ensures
            r@ == decode_utf8(self.spec_data().spec_bytes()),
    {
        self.data.as_str()
    }

    /// The result buffer decoded as text, when it holds a valid UTF-8
    /// encoding, and `None` otherwise: decoding fails rather than
    /// substitute data.
    pub fn try_as_str(&self) -> (r: Option<String>)
        ensures
            r is Some <==> valid_utf8(self.spec_data().spec_bytes()),
            r matches Some(s) ==> s@ == decode_utf8(self.spec_data().spec_bytes()),
    {
        self.data.try_as_str()
    }

    /// The result buffer decoded as text, consuming the record. The
    /// buffer must hold a valid UTF-8 encoding.
    pub fn into_str(self) -> (r: String)
        requires
            valid_utf8(self.spec_data().spec_bytes()),
        ensures
            r@ == decode_utf8(self.spec_data().spec_bytes()),
    {
        self.data.into_str()
    }

    /// The total time, in microseconds, the match call took. The engine
    /// reports times as non-negative counts; a negative field would mean
    /// the record was never filled in.
    pub fn time_elapsed_total(&self) -> (r: usize)
        requires
            self.spec_time_total() >= 0,
        ensures
            r == self.spec_time_total(),
    {
        self.ttotal as usize
    }

    /// The time, in microseconds, spent matching the pattern against
    /// the input; excludes the time spent encoding the results.
    pub fn time_elapsed_matching(&self) -> (r: usize)
        requires
            self.spec_time_matching() >= 0,
        ensures
            r == self.spec_time_matching(),
    {
        self.tmatch as usize
    }
}

} // verus!
