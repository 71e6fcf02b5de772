//! Escapes math notation in Markdown chapter text.
//!
//! Markdown renderers read `_`, `*` and `\` as emphasis or escape syntax.
//! Inside a dollar-delimited math span those characters must instead reach
//! the math typesetter literally, so a backslash is inserted before each of
//! them. Backtick-delimited code spans take precedence: their contents,
//! dollar signs included, pass through verbatim.

use vstd::prelude::*;
use vstd::string::StrSliceExecFns;

pub mod scan;
mod strutil;

verus! {

/// Rewrites chapter text so that dollar-delimited math survives Markdown
/// rendering: a single left-to-right scan escapes `_`, `*` and `\` inside
/// math spans and leaves code spans and plain prose untouched.
pub struct KatexProcessor;

impl KatexProcessor {
    /// The name under which a host build tool addresses this processor.
    pub fn name(&self) -> (r: &'static str)
        ensures
            r@ == "katex"@,
    {
        "katex"
    }

    /// Whether the processor is willing to run for the given output renderer:
    /// exactly for `html` and for its own dedicated renderer.
    pub fn supports_renderer(&self, renderer: &str) -> (r: bool)
        ensures
            r <==> (renderer@ == "html"@ || renderer@ == "katex"@),
    {
        strutil::str_eq(renderer, "html") || strutil::str_eq(renderer, "katex")
    }

    /// Rewrites one chapter's text.
    pub fn process_chapter(&self, raw_content: &str) -> (result: String)
        ensures
            result@ == scan::transform(raw_content@),
    {
        Self::render(raw_content)
    }

    /// One pass over the input: tracks code-span and math-span state and
    /// inserts a backslash before each `_`, `*` or `\` that stands inside an
    /// active math span outside any code span. Everything else, code-span
    /// contents and span delimiters included, is appended unchanged.
    pub fn render(string: &str) -> (result: String)
        ensures
            result@ == scan::transform(string@),
            result@.len() >= string@.len(),
    {
        let n: usize = string.unicode_len();
        let mut result = String::new();
        let mut st = scan::ScanState { prev: None, in_code: false, in_math: false };
        let mut i: usize = 0;
        while i < n
            invariant
                n == string@.len(),
                i <= n,
                st == scan::state_at(string@, i as int),
                result@ == scan::output_to(string@, i as int),
            decreases n - i,
        {
            let c = string.get_char(i);
            if c == '`' {
                let in_run = match st.prev {
                    Some(p) => p == '`',
                    None => false,
                };
                if !in_run {
                    st.in_code = !st.in_code;
                }
                strutil::push_char(&mut result, c);
            } else if st.in_code {
                strutil::push_char(&mut result, c);
            } else if c == '$' {
                let in_run = match st.prev {
                    Some(p) => p == '$',
                    None => false,
                };
                if !in_run {
                    st.in_math = !st.in_math;
                }
                strutil::push_char(&mut result, c);
            } else {
                if st.in_math && (c == '_' || c == '*' || c == '\\') {
                    strutil::push_char(&mut result, '\\');
                }
                strutil::push_char(&mut result, c);
            }
            st.prev = Some(c);
            proof {
                assert(st == scan::state_at(string@, i + 1));
                assert(result@ =~= scan::output_to(string@, i + 1));
            }
            i = i + 1;
        }
        proof {
            scan::lemma_length_monotone(string@);
        }
        result
    }
}

} // verus!
