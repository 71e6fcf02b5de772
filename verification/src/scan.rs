//! The mathematical model of the scanner: its state, one transition step,
//! what each step emits, and the transform over a whole character sequence.

use vstd::prelude::*;

verus! {

/// Scanner state for one left-to-right pass: the character consumed just
/// before the current one (`None` at stream start), whether the scanner is
/// between the delimiters of a backtick code span, and whether it is between
/// the delimiters of a dollar math span.
///
/// Code spans take precedence: while `in_code` holds, `in_math` is neither
/// consulted nor toggled, and every character other than a backtick passes
/// through verbatim.
pub struct ScanState {
    pub prev: Option<char>,
    pub in_code: bool,
    pub in_math: bool,
}

/// The state before any character has been consumed.
pub open spec fn init_state() -> ScanState {
    ScanState { prev: None, in_code: false, in_math: false }
}

/// The characters a Markdown renderer would read as emphasis or escape
/// syntax: inside a math span each gets a backslash inserted before it.
pub open spec fn needs_escape(c: char) -> bool {
    c == '_' || c == '*' || c == '\\'
}

/// Any character the scanner does not pass through blindly: a delimiter or a
/// member of the escape trigger set.
pub open spec fn is_special(c: char) -> bool {
    c == '`' || c == '$' || needs_escape(c)
}

/// The state after consuming `c` in state `st`.
///
/// A backtick flips the code flag unless it extends a run of backticks, so a
/// multi-backtick fence toggles exactly once. Inside a code span nothing
/// else changes state. A dollar sign flips the math flag unless it extends a
/// run of dollar signs. Spans do not nest: a second delimiter closes the
/// span it matches rather than opening an inner one.
pub open spec fn step(st: ScanState, c: char) -> ScanState {
    if c == '`' {
        if st.prev == Some('`') {
            ScanState { prev: Some(c), in_code: st.in_code, in_math: st.in_math }
        } else {
            ScanState { prev: Some(c), in_code: !st.in_code, in_math: st.in_math }
        }
    } else if st.in_code {
        ScanState { prev: Some(c), in_code: st.in_code, in_math: st.in_math }
    } else if c == '$' {
        if st.prev == Some('$') {
            ScanState { prev: Some(c), in_code: st.in_code, in_math: st.in_math }
        } else {
            ScanState { prev: Some(c), in_code: st.in_code, in_math: !st.in_math }
        }
    } else {
        ScanState { prev: Some(c), in_code: st.in_code, in_math: st.in_math }
    }
}

/// What the scanner appends on consuming `c` in state `st`: the character
/// itself, preceded by a backslash exactly when `c` triggers escaping inside
/// an active math span outside any code span. Delimiters are never escaped.
pub open spec fn emit(st: ScanState, c: char) -> Seq<char> {
    if c != '`' && !st.in_code && c != '$' && st.in_math && needs_escape(c) {
        seq!['\\', c]
    } else {
        seq![c]
    }
}

/// The scanner state after the first `i` characters of `input`.
pub open spec fn state_at(input: Seq<char>, i: int) -> ScanState
    decreases i,
{
    if i <= 0 {
        init_state()
    } else {
        step(state_at(input, i - 1), input[i - 1])
    }
}

/// The output produced for the first `i` characters of `input`.
pub open spec fn output_to(input: Seq<char>, i: int) -> Seq<char>
    decreases i,
{
    if i <= 0 {
        Seq::empty()
    } else {
        output_to(input, i - 1) + emit(state_at(input, i - 1), input[i - 1])
    }
}

/// The whole rewrite: every character of `input` scanned in order, with
/// math-gated escaping of the trigger set `_`, `*`, `\`.
pub open spec fn transform(input: Seq<char>) -> Seq<char> {
    output_to(input, input.len() as int)
}

proof fn lemma_plain_prefix(input: Seq<char>, i: int)
    requires
        0 <= i <= input.len(),
        forall|j: int| 0 <= j < input.len() ==> !is_special(#[trigger] input[j]),
    ensures
        !state_at(input, i).in_code,
        !state_at(input, i).in_math,
        output_to(input, i) == input.subrange(0, i),
    decreases i,
{
    if i <= 0 {
        assert(output_to(input, i) =~= input.subrange(0, i));
    } else {
        lemma_plain_prefix(input, i - 1);
        assert(output_to(input, i) =~= input.subrange(0, i));
    }
}

/// Law: text that contains no backtick, no dollar sign and no trigger
/// character passes through the transform unchanged.
pub proof fn lemma_plain_text_identity(input: Seq<char>)
    requires
        forall|j: int| 0 <= j < input.len() ==> !is_special(#[trigger] input[j]),
    ensures
        transform(input) == input,
{
    lemma_plain_prefix(input, input.len() as int);
    assert(input.subrange(0, input.len() as int) =~= input);
}

proof fn lemma_output_to_length(input: Seq<char>, i: int)
    requires
        0 <= i <= input.len(),
    ensures
        output_to(input, i).len() >= i,
    decreases i,
{
    if i > 0 {
        lemma_output_to_length(input, i - 1);
    }
}

/// Law: the transform only ever inserts characters, so its output is never
/// shorter than its input.
pub proof fn lemma_length_monotone(input: Seq<char>)
    ensures
        transform(input).len() >= input.len(),
{
    lemma_output_to_length(input, input.len() as int);
}

} // verus!
