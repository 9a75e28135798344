//! Plain data exchanged with the host: ranges, code labels, commands and
//! the worktree handle.

use vstd::prelude::*;
use vstd::std_specs::convert::FromSpecImpl;
use vstd::std_specs::convert::IntoSpec;

verus! {

/// A half-open range of offsets into a string, `start..end`.
#[derive(Debug, Clone, Copy, PartialEq, Eq, Structural)]
pub struct Range {
    pub start: u32,
    pub end: u32,
}

/// Environment variables as name/value pairs.
pub type EnvVars = Vec<(String, String)>;

/// A command to run: the program, its arguments and its environment.
#[derive(Debug, Clone, PartialEq, Eq)]
pub struct Command {
    pub command: String,
    pub args: Vec<String>,
    pub env: EnvVars,
}

/// The host's handle to a worktree. The library never looks inside it: it
/// reaches the extension exactly as the host gave it.
#[derive(Debug, Clone, Copy, PartialEq, Eq, Structural)]
pub struct Worktree {
    pub handle: u32,
}

/// A literal piece of a code label, with an optional highlight name.
#[derive(Debug, Clone, PartialEq, Eq)]
pub struct CodeLabelSpanLiteral {
    pub text: String,
    pub highlight_name: Option<String>,
}

/// One piece of a code label: a range of the label's code, or literal text.
#[derive(Debug, Clone, PartialEq, Eq)]
pub enum CodeLabelSpan {
    CodeRange(Range),
    Literal(CodeLabelSpanLiteral),
}

/// A label for a completion or a symbol, rendered from `code` by `spans`.
#[derive(Debug, Clone, PartialEq, Eq)]
pub struct CodeLabel {
    pub code: String,
    pub spans: Vec<CodeLabelSpan>,
    pub filter_range: Range,
}

/// The low 32 bits of `n`.
pub open spec fn low_word(n: usize) -> u32 {
    (n as int % 0x1_0000_0000) as u32
}

/// Cuts an offset down to its low 32 bits.
fn truncate_offset(n: usize) -> (word: u32)
    ensures
        word == low_word(n),
{
    assert(n as u32 == n as int % 0x1_0000_0000) by (bit_vector);
    #[verifier::truncate]
    (n as u32)
}

impl From<std::ops::Range<u32>> for Range {
    fn from(value: std::ops::Range<u32>) -> (range: Self) {
        Range { start: value.start, end: value.end }
    }
}

impl FromSpecImpl<std::ops::Range<u32>> for Range {
    open spec fn obeys_from_spec() -> bool {
        true
    }

    open spec fn from_spec(value: std::ops::Range<u32>) -> Self {
        Range { start: value.start, end: value.end }
    }
}

impl From<std::ops::Range<usize>> for Range {
    fn from(value: std::ops::Range<usize>) -> (range: Self) {
        Range { start: truncate_offset(value.start), end: truncate_offset(value.end) }
    }
}

impl FromSpecImpl<std::ops::Range<usize>> for Range {
    open spec fn obeys_from_spec() -> bool {
        true
    }

    open spec fn from_spec(value: std::ops::Range<usize>) -> Self {
        Range { start: low_word(value.start), end: low_word(value.end) }
    }
}

impl CodeLabelSpan {
    /// Returns a [`CodeLabelSpan::CodeRange`] over the range that `range`
    /// converts to.
    pub fn code_range<R: Into<Range>>(range: R) -> (span: Self)
        ensures
            span matches CodeLabelSpan::CodeRange(inner) && call_ensures(
                R::into,
                (range,),
                inner,
            ),
            R::obeys_into_spec() ==> span == CodeLabelSpan::CodeRange(range.into_spec()),
    {
        CodeLabelSpan::CodeRange(range.into())
    }

    /// Returns a [`CodeLabelSpan::Literal`] with the text that `text`
    /// converts to and the given highlight name.
    pub fn literal<T: Into<String>>(text: T, highlight_name: Option<String>) -> (span: Self)
        ensures
            span matches CodeLabelSpan::Literal(lit) && lit.highlight_name == highlight_name
                && call_ensures(T::into, (text,), lit.text),
            T::obeys_into_spec() ==> span == CodeLabelSpan::Literal(
                CodeLabelSpanLiteral { text: text.into_spec(), highlight_name },
            ),
    {
        CodeLabelSpan::Literal(CodeLabelSpanLiteral { text: text.into(), highlight_name })
    }
}

} // verus!
