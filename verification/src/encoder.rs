//! The closed selectors the engine understands: result encoders and
//! trace output formats.
//!
//! Each selector names a fixed, nul-terminated identifier string that is
//! handed to the engine verbatim. A caller may also name a user-defined
//! result-formatting routine; such a custom identifier is carried as its
//! own nul-terminated bytes.

use vstd::prelude::*;
use vstd::slice::slice_to_vec;
use vstd::string::StringSliceAdditionalSpecFns;

verus! {

/// An encoder module used to format the results of a match operation.
#[derive(Clone, Debug, Hash, Eq, PartialEq)]
pub enum MatchEncoder {
    /// The simplest and fastest encoder: reports only whether the
    /// pattern matched.
    Bool,
    /// A compact encoding of the match information into an array of
    /// bytes.
    Byte,
    /// A human-readable format using ANSI text coloring for different
    /// elements.
    Color,
    /// A JSON-encoded match structure.
    JSON,
    /// The same data as [`MatchEncoder::JSON`], formatted for better
    /// readability.
    JSONPretty,
    /// Each matching line from the input becomes a line in the output.
    Line,
    /// The matching subset of each input line becomes a line in the
    /// output.
    Matches,
    /// The subset of the input matched by each sub-expression of the
    /// pattern becomes a line in the output.
    Subs,
    /// The output of a user-defined encoder routine, named by its own
    /// nul-terminated identifier bytes.
    Custom(Vec<u8>),
}

/// [`MatchEncoder`] methods that produce the identifier bytes handed to
/// the engine.
pub trait LibRosieMatchEncoder {
    /// The nul-terminated identifier bytes this selector stands for.
    spec fn spec_bytes(&self) -> Seq<u8>;

    /// Whether the selector's identifier is well formed: non-empty,
    /// nul-terminated, with no interior nul byte.
    spec fn spec_wf(&self) -> bool;

    /// The identifier bytes, ready to hand to the engine. The engine
    /// reads the identifier up to a nul byte, so only a well-formed
    /// selector may be handed over.
    fn as_bytes(&self) -> (r: Vec<u8>)
        requires
            self.spec_wf(),
        ensures
            r@ == self.spec_bytes(),
    ;
}

impl LibRosieMatchEncoder for MatchEncoder {
    open spec fn spec_bytes(&self) -> Seq<u8> {
        match self {
            MatchEncoder::Bool => seq![('b' as u8), ('o' as u8), ('o' as u8), ('l' as u8), 0u8],
            MatchEncoder::Byte => seq![('b' as u8), ('y' as u8), ('t' as u8), ('e' as u8), 0u8],
            MatchEncoder::Color => seq![('c' as u8), ('o' as u8), ('l' as u8), ('o' as u8), ('r' as u8), 0u8],
            MatchEncoder::JSON => seq![('j' as u8), ('s' as u8), ('o' as u8), ('n' as u8), 0u8],
            MatchEncoder::JSONPretty => seq![('j' as u8), ('s' as u8), ('o' as u8), ('n' as u8), ('p' as u8), ('p' as u8), 0u8],
            MatchEncoder::Line => seq![('l' as u8), ('i' as u8), ('n' as u8), ('e' as u8), 0u8],
            MatchEncoder::Matches => seq![('m' as u8), ('a' as u8), ('t' as u8), ('c' as u8), ('h' as u8), ('e' as u8), ('s' as u8), 0u8],
            MatchEncoder::Subs => seq![('s' as u8), ('u' as u8), ('b' as u8), ('s' as u8), 0u8],
            MatchEncoder::Custom(name) => name@,
        }
    }

    open spec fn spec_wf(&self) -> bool {
        nul_terminated(self.spec_bytes())
    }

    fn as_bytes(&self) -> (r: Vec<u8>)
        ensures
            r@ == self.spec_bytes(),
    {
        match self {
            MatchEncoder::Bool => {
                let mut v: Vec<u8> = Vec::new();
                v.push(('b' as u8));
                v.push(('o' as u8));
                v.push(('o' as u8));
                v.push(('l' as u8));
                v.push(0u8);
                proof {
                    assert(v@ =~= self.spec_bytes());
                }
                v
            },
            MatchEncoder::Byte => {
                let mut v: Vec<u8> = Vec::new();
                v.push(('b' as u8));
                v.push(('y' as u8));
                v.push(('t' as u8));
                v.push(('e' as u8));
                v.push(0u8);
                proof {
                    assert(v@ =~= self.spec_bytes());
                }
                v
            },
            MatchEncoder::Color => {
                let mut v: Vec<u8> = Vec::new();
                v.push(('c' as u8));
                v.push(('o' as u8));
                v.push(('l' as u8));
                v.push(('o' as u8));
                v.push(('r' as u8));
                v.push(0u8);
                proof {
                    assert(v@ =~= self.spec_bytes());
                }
                v
            },
            MatchEncoder::JSON => {
                let mut v: Vec<u8> = Vec::new();
                v.push(('j' as u8));
                v.push(('s' as u8));
                v.push(('o' as u8));
                v.push(('n' as u8));
                v.push(0u8);
                proof {
                    assert(v@ =~= self.spec_bytes());
                }
                v
            },
            MatchEncoder::JSONPretty => {
                let mut v: Vec<u8> = Vec::new();
                v.push(('j' as u8));
                v.push(('s' as u8));
                v.push(('o' as u8));
                v.push(('n' as u8));
                v.push(('p' as u8));
                v.push(('p' as u8));
                v.push(0u8);
                proof {
                    assert(v@ =~= self.spec_bytes());
                }
                v
            },
            MatchEncoder::Line => {
                let mut v: Vec<u8> = Vec::new();
                v.push(('l' as u8));
                v.push(('i' as u8));
                v.push(('n' as u8));
                v.push(('e' as u8));
                v.push(0u8);
                proof {
                    assert(v@ =~= self.spec_bytes());
                }
                v
            },
            MatchEncoder::Matches => {
                let mut v: Vec<u8> = Vec::new();
                v.push(('m' as u8));
                v.push(('a' as u8));
                v.push(('t' as u8));
                v.push(('c' as u8));
                v.push(('h' as u8));
                v.push(('e' as u8));
                v.push(('s' as u8));
                v.push(0u8);
                proof {
                    assert(v@ =~= self.spec_bytes());
                }
                v
            },
            MatchEncoder::Subs => {
                let mut v: Vec<u8> = Vec::new();
                v.push(('s' as u8));
                v.push(('u' as u8));
                v.push(('b' as u8));
                v.push(('s' as u8));
                v.push(0u8);
                proof {
                    assert(v@ =~= self.spec_bytes());
                }
                v
            },
            MatchEncoder::Custom(name) => slice_to_vec(name.as_slice()),
        }
    }
}

/// Whether a byte sequence is a well-formed engine identifier: non-empty,
/// ending in the nul byte, with no nul byte anywhere else.
pub open spec fn nul_terminated(bytes: Seq<u8>) -> bool {
    &&& bytes.len() >= 1
    &&& bytes.last() == 0u8
    &&& forall|i: int| 0 <= i < bytes.len() - 1 ==> bytes[i] != 0u8
}

impl MatchEncoder {
    /// A selector for the user-defined encoder routine of the given
    /// name. The name must hold no nul byte, since the engine reads the
    /// identifier up to the first nul.
    pub fn custom(name: &str) -> (r: Self)
        requires
            forall|i: int|
                0 <= i < name.spec_bytes().len() ==> name.spec_bytes()[i] != 0u8,
        ensures
            r is Custom,
            r.spec_bytes() == name.spec_bytes().push(0u8),
            r.spec_wf(),
    {
        let mut bytes: Vec<u8> = slice_to_vec(name.as_bytes());
        bytes.push(0u8);
        MatchEncoder::Custom(bytes)
    }
}

/// A format for the diagnostic output of a trace operation.
#[derive(Clone, Debug, Hash, Eq, PartialEq)]
pub enum TraceFormat {
    /// The complete trace data, formatted as JSON.
    JSON,
    /// The complete trace data, in a multi-line human-readable format.
    Full,
    /// Redacted trace data, keeping only the parts most useful for
    /// understanding why a pattern failed to match.
    Condensed,
}

/// [`TraceFormat`] methods that produce the identifier bytes handed to
/// the engine.
pub trait LibRosieTraceFormat {
    /// The nul-terminated identifier bytes this selector stands for.
    spec fn spec_bytes(&self) -> Seq<u8>;

    /// The identifier bytes, ready to hand to the engine.
    fn as_bytes(&self) -> (r: Vec<u8>)
        ensures
            r@ == self.spec_bytes(),
    ;
}

impl LibRosieTraceFormat for TraceFormat {
    open spec fn spec_bytes(&self) -> Seq<u8> {
        match self {
            TraceFormat::JSON => seq![('j' as u8), ('s' as u8), ('o' as u8), ('n' as u8), 0u8],
            TraceFormat::Full => seq![('f' as u8), ('u' as u8), ('l' as u8), ('l' as u8), 0u8],
            TraceFormat::Condensed => seq![
                ('c' as u8),
                ('o' as u8),
                ('n' as u8),
                ('d' as u8),
                ('e' as u8),
                ('n' as u8),
                ('s' as u8),
                ('e' as u8),
                ('d' as u8),
                0u8,
            ],
        }
    }

    fn as_bytes(&self) -> (r: Vec<u8>)
        ensures
            r@ == self.spec_bytes(),
    {
        match self {
            TraceFormat::JSON => {
                let mut v: Vec<u8> = Vec::new();
                v.push(('j' as u8));
                v.push(('s' as u8));
                v.push(('o' as u8));
                v.push(('n' as u8));
                v.push(0u8);
                proof {
                    assert(v@ =~= self.spec_bytes());
                }
                v
            },
            TraceFormat::Full => {
                let mut v: Vec<u8> = Vec::new();
                v.push(('f' as u8));
                v.push(('u' as u8));
                v.push(('l' as u8));
                v.push(('l' as u8));
                v.push(0u8);
                proof {
                    assert(v@ =~= self.spec_bytes());
                }
                v
            },
            TraceFormat::Condensed => {
                let mut v: Vec<u8> = Vec::new();
                v.push(('c' as u8));
                v.push(('o' as u8));
                v.push(('n' as u8));
                v.push(('d' as u8));
                v.push(('e' as u8));
                v.push(('n' as u8));
                v.push(('s' as u8));
                v.push(('e' as u8));
                v.push(('d' as u8));
                v.push(0u8);
                proof {
                    assert(v@ =~= self.spec_bytes());
                }
                v
            },
        }
    }
}

} // verus!
