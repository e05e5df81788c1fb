//! Tests of the boundary types: string views, error codes, selectors,
//! and match results.

use rosie_sys::encoder::{LibRosieMatchEncoder, LibRosieTraceFormat, MatchEncoder, TraceFormat};
use rosie_sys::error::RosieError;
use rosie_sys::matchresult::{LibRosieMatchResult, RawMatchResult};
use rosie_sys::rosie_home_default;
use rosie_sys::rstr::RosieString;

#[test]
fn rosie_string() {
    // A basic string view over a static string
    let hello_str = "hello";
    let rosie_string = RosieString::from_str(hello_str);
    assert_eq!(rosie_string.len(), hello_str.len());
    assert_eq!(rosie_string.as_str(), hello_str);

    // A string view over a heap-allocated string
    let hello_string = String::from("hi there");
    let rosie_string = RosieString::from_str(hello_string.as_str());
    assert_eq!(rosie_string.len(), hello_string.len());
    assert_eq!(rosie_string.as_str(), hello_string);
}

#[test]
fn view_round_trip() {
    let text = "caf\u{e9} pattern";
    let view = RosieString::from_str(text);
    assert!(view.is_valid());
    assert_eq!(view.len(), text.len());
    assert_eq!(view.as_bytes(), text.as_bytes());
    assert_eq!(view.into_str(), text);
}

#[test]
fn release_is_idempotent() {
    // Releasing a view whose buffer is already null is a no-op.
    let mut s = RosieString::empty();
    assert!(!s.is_valid());
    s.manual_drop();
    assert!(!s.is_valid());
    assert_eq!(s.len(), 0);
    s.manual_drop();
    assert!(!s.is_valid());
    assert_eq!(s.len(), 0);

    // Releasing a held buffer nulls the view; a second release holds.
    let mut t = RosieString::from_str("hello");
    assert!(t.is_valid());
    t.manual_drop();
    assert!(!t.is_valid());
    assert_eq!(t.len(), 0);
    t.manual_drop();
    assert!(!t.is_valid());
    assert_eq!(t.len(), 0);

    // A null view keeps its raw length field through a release.
    let mut b = RosieString::from_parts(1, None);
    b.manual_drop();
    assert!(!b.is_valid());
    assert_eq!(b.len(), 1);
}

#[test]
fn into_bytes_of_null_view_is_empty() {
    let s = RosieString::empty();
    assert_eq!(s.as_bytes(), Vec::<u8>::new());
    assert_eq!(s.into_bytes(), Vec::<u8>::new());
    let n = RosieString::from_parts(1, None);
    assert_eq!(n.into_bytes(), Vec::<u8>::new());
}

#[test]
fn empty_text_still_holds_a_buffer() {
    let v = RosieString::from_str("");
    assert!(v.is_valid());
    assert_eq!(v.len(), 0);
    assert_eq!(v.as_str(), "");
}

#[test]
fn decoding_fails_on_malformed_text() {
    // A lone continuation byte is not valid UTF-8; decoding reports
    // failure instead of substituting data.
    let v = RosieString::from_parts(2, Some(vec![0xff, 0xfe]));
    assert_eq!(v.try_as_str(), None);

    let ok = RosieString::from_str("plain");
    assert_eq!(ok.try_as_str(), Some(String::from("plain")));

    let r = RawMatchResult::from_parts(RosieString::from_parts(1, Some(vec![0x80])), 0, 0, 0, 0);
    assert_eq!(r.try_as_str(), None);
}

#[test]
fn did_match_regimes() {
    // A non-null buffer is a match.
    let data = RosieString::from_str("output");
    let r = RawMatchResult::from_parts(data, 0, 0, 0, 0);
    assert!(r.did_match());

    // A null buffer with length exactly one is the boolean encoder's
    // allocation-free way of reporting a match.
    let data = RosieString::from_parts(1, None);
    let r = RawMatchResult::from_parts(data, 0, 0, 0, 0);
    assert!(r.did_match());

    // A null buffer with any other length is no match.
    let r = RawMatchResult::from_parts(RosieString::empty(), 0, 0, 0, 0);
    assert!(!r.did_match());
    let data = RosieString::from_parts(7, None);
    let r = RawMatchResult::from_parts(data, 0, 0, 0, 0);
    assert!(!r.did_match());
}

#[test]
fn blank_match_result() {
    let r = RawMatchResult::empty();
    assert!(!r.did_match());
    assert_eq!(r.as_bytes(), Vec::<u8>::new());
    assert_eq!(r.time_elapsed_total(), 0);
    assert_eq!(r.time_elapsed_matching(), 0);
}

#[test]
fn match_result_buffers_and_times() {
    let data = RosieString::from_str("true");
    let r = RawMatchResult::from_parts(data, 2, 0, 50, 30);
    assert!(r.did_match());
    assert_eq!(r.as_bytes(), b"true".to_vec());
    assert_eq!(r.as_str(), "true");
    assert_eq!(r.time_elapsed_total(), 50);
    assert_eq!(r.time_elapsed_matching(), 30);
    assert!(r.time_elapsed_matching() <= r.time_elapsed_total());
    assert_eq!(r.into_str(), "true");
}

#[test]
fn error_code_mapping() {
    assert_eq!(RosieError::from(0), RosieError::Success);
    assert_eq!(RosieError::from(-2), RosieError::OutOfMemory);
    assert_eq!(RosieError::from(-3), RosieError::SysCallFailed);
    assert_eq!(RosieError::from(-4), RosieError::EngineCallFailed);
    assert_eq!(RosieError::from(-1001), RosieError::PatternError);
    assert_eq!(RosieError::from(-1002), RosieError::PackageError);
    assert_eq!(RosieError::from(-1003), RosieError::ArgError);
    // Any other code collapses to the miscellaneous error.
    assert_eq!(RosieError::from(-1), RosieError::MiscErr);
    assert_eq!(RosieError::from(-999), RosieError::MiscErr);
    assert_eq!(RosieError::from(17), RosieError::MiscErr);
}

#[test]
fn encoder_identifiers() {
    assert_eq!(MatchEncoder::Bool.as_bytes(), b"bool\0".to_vec());
    assert_eq!(MatchEncoder::Byte.as_bytes(), b"byte\0".to_vec());
    assert_eq!(MatchEncoder::Color.as_bytes(), b"color\0".to_vec());
    assert_eq!(MatchEncoder::JSON.as_bytes(), b"json\0".to_vec());
    assert_eq!(MatchEncoder::JSONPretty.as_bytes(), b"jsonpp\0".to_vec());
    assert_eq!(MatchEncoder::Line.as_bytes(), b"line\0".to_vec());
    assert_eq!(MatchEncoder::Matches.as_bytes(), b"matches\0".to_vec());
    assert_eq!(MatchEncoder::Subs.as_bytes(), b"subs\0".to_vec());
}

#[test]
fn custom_encoder_identifier() {
    let enc = MatchEncoder::custom("my_encoder");
    assert_eq!(enc.as_bytes(), b"my_encoder\0".to_vec());
}

#[test]
fn trace_format_identifiers() {
    assert_eq!(TraceFormat::JSON.as_bytes(), b"json\0".to_vec());
    assert_eq!(TraceFormat::Full.as_bytes(), b"full\0".to_vec());
    assert_eq!(TraceFormat::Condensed.as_bytes(), b"condensed\0".to_vec());
}

#[test]
fn no_baked_home_path() {
    assert_eq!(rosie_home_default(), None);
}
