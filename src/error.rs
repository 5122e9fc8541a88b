//! Diagnostics: why a front-end node and a native node could not be unified,
//! with suggestions from the catalog.

use vstd::prelude::*;

use crate::c::{c_kind_text, CHIR};
use crate::catalog::PatternSuggestion;
use crate::python::{python_kind_text, PythonHIR};
use crate::text::{decimal, push_decimal};

verus! {

/// Why unification failed.
#[derive(Debug, PartialEq)]
pub enum UnificationError {
    /// Both nodes are callable, but no catalog entry matches the name pair.
    NoPatternMatch { python_fn: String, c_fn: String, suggestions: Vec<PatternSuggestion> },
    /// The two nodes are not a front-end call and a native function.
    IncompatibleNodes { python_kind: String, c_kind: String },
    /// A front-end construct that is not modelled yet.
    UnsupportedPython { node_kind: String },
    /// A native construct that is not modelled yet.
    UnsupportedC { node_kind: String },
}

/// Where extension of the catalog is documented.
pub open spec fn docs_pointer() -> Seq<char> {
    "For custom patterns, see:\n   https://github.com/noahgift/spydecy#custom-patterns\n"@
}

/// The numbered suggestion lines for the first `k` suggestions.
pub open spec fn suggestion_lines(s: Seq<PatternSuggestion>, k: nat) -> Seq<char>
    decreases k,
{
    if k == 0 || k > s.len() {
        Seq::empty()
    } else {
        suggestion_lines(s, (k - 1) as nat) + "  "@ + decimal(k) + ". "@ + s[k - 1].python_fn@
            + " + "@ + s[k - 1].c_fn@ + " -> "@ + s[k - 1].rust_output@ + "\n"@
    }
}

/// How many suggestions a message lists: at most five.
pub open spec fn shown_count(n: nat) -> nat {
    if n < 5 {
        n
    } else {
        5
    }
}

/// The message for a name pair that no pattern matches.
pub open spec fn no_match_text(f: Seq<char>, n: Seq<char>, s: Seq<PatternSuggestion>) -> Seq<
    char,
> {
    "Cannot match Python function '"@ + f + "' with C function '"@ + n + "'\n\n"@
        + "Spydecy tried to unify:\n  Python: "@ + f + "()\n  C:      "@ + n + "()\n\n"@
        + "No known pattern matches this combination.\n\n"@ + (if s.len() > 0 {
        "Supported patterns:\n"@ + suggestion_lines(s, shown_count(s.len())) + "\n"@
    } else {
        Seq::empty()
    }) + docs_pointer()
}

/// How an error is shown to a user.
pub open spec fn error_text(e: UnificationError) -> Seq<char> {
    match e {
        UnificationError::NoPatternMatch { python_fn, c_fn, suggestions } => no_match_text(
            python_fn@,
            c_fn@,
            suggestions@,
        ),
        UnificationError::IncompatibleNodes { python_kind, c_kind } =>
            "Cannot unify incompatible node types: Python "@ + python_kind@ + " with C "@ + c_kind@
            + "\n\nBoth nodes must be callable functions.\n   Ensure your Python and C code represent the same operation.\n"@,
        UnificationError::UnsupportedPython { node_kind } => "Unsupported Python HIR node: "@
            + node_kind@
            + "\n\nThis Python construct is not yet supported.\n   Supported: function calls to known operations.\n"@,
        UnificationError::UnsupportedC { node_kind } => "Unsupported C HIR node: "@ + node_kind@
            + "\n\nThis C construct is not yet supported.\n   Supported: function definitions.\n"@,
    }
}

/// Appends the numbered lines of the first `k` suggestions.
fn push_suggestion_lines(out: &mut String, s: &Vec<PatternSuggestion>, k: usize)
    requires
        k <= s@.len(),
    ensures
        final(out)@ == old(out)@ + suggestion_lines(s@, k as nat),
{
    let ghost start = out@;
    let mut i: usize = 0;
    while i < k
        invariant
            i <= k,
            k <= s@.len(),
            out@ == start + suggestion_lines(s@, i as nat),
        decreases k - i,
    {
        let e = s[i];
        out.append("  ");
        push_decimal(out, (i + 1) as u64);
        out.append(". ");
        out.append(e.python_fn);
        out.append(" + ");
        out.append(e.c_fn);
        out.append(" -> ");
        out.append(e.rust_output);
        out.append("\n");
        i += 1;
        assert(out@ =~= start + suggestion_lines(s@, i as nat));
    }
}

impl UnificationError {
    /// The message shown to a user: it names both offending names or kinds,
    /// lists up to five suggestions in the order given, and ends with where
    /// extension of the catalog is documented.
    pub fn to_string(&self) -> (r: String)
        ensures
            r@ == error_text(*self),
    {
        let mut out = String::new();
        match self {
            UnificationError::NoPatternMatch { python_fn, c_fn, suggestions } => {
                out.append("Cannot match Python function '");
                out.append(python_fn.as_str());
                out.append("' with C function '");
                out.append(c_fn.as_str());
                out.append("'\n\n");
                out.append("Spydecy tried to unify:\n  Python: ");
                out.append(python_fn.as_str());
                out.append("()\n  C:      ");
                out.append(c_fn.as_str());
                out.append("()\n\n");
                out.append("No known pattern matches this combination.\n\n");
                if suggestions.len() > 0 {
                    out.append("Supported patterns:\n");
                    let k = if suggestions.len() < 5 {
                        suggestions.len()
                    } else {
                        5
                    };
                    push_suggestion_lines(&mut out, suggestions, k);
                    out.append("\n");
                }
                out.append(
                    "For custom patterns, see:\n   https://github.com/noahgift/spydecy#custom-patterns\n",
                );
            },
            UnificationError::IncompatibleNodes { python_kind, c_kind } => {
                out.append("Cannot unify incompatible node types: Python ");
                out.append(python_kind.as_str());
                out.append(" with C ");
                out.append(c_kind.as_str());
                out.append(
                    "\n\nBoth nodes must be callable functions.\n   Ensure your Python and C code represent the same operation.\n",
                );
            },
            UnificationError::UnsupportedPython { node_kind } => {
                out.append("Unsupported Python HIR node: ");
                out.append(node_kind.as_str());
                out.append(
                    "\n\nThis Python construct is not yet supported.\n   Supported: function calls to known operations.\n",
                );
            },
            UnificationError::UnsupportedC { node_kind } => {
                out.append("Unsupported C HIR node: ");
                out.append(node_kind.as_str());
                out.append(
                    "\n\nThis C construct is not yet supported.\n   Supported: function definitions.\n",
                );
            },
        }
        assert(out@ =~= error_text(*self));
        out
    }
}

/// The front-end name diagnostics use for a node: the callee of a call with
/// a simply named callee, the name of a variable or function; otherwise a
/// placeholder or the node's kind.
pub open spec fn python_fn_label(n: PythonHIR) -> Seq<char> {
    match n {
        PythonHIR::Call { callee, .. } => match *callee {
            PythonHIR::Variable { name, .. } => name@,
            _ => "<complex expression>"@,
        },
        PythonHIR::Variable { name, .. } => name@,
        PythonHIR::Function { name, .. } => name@,
        _ => python_kind_text(n),
    }
}

/// The native name diagnostics use for a node: the name of a function;
/// otherwise the node's kind.
pub open spec fn c_fn_label(n: CHIR) -> Seq<char> {
    match n {
        CHIR::Function { name, .. } => name@,
        _ => c_kind_text(n),
    }
}

/// The front-end name of a node, for diagnostics; never fails.
pub fn extract_python_fn_name(python: &PythonHIR) -> (r: String)
    ensures
        r@ == python_fn_label(*python),
{
    match python {
        PythonHIR::Call { callee, .. } => match &**callee {
            PythonHIR::Variable { name, .. } => name.clone(),
            _ => String::from_str("<complex expression>"),
        },
        PythonHIR::Variable { name, .. } => name.clone(),
        PythonHIR::Function { name, .. } => name.clone(),
        _ => String::from_str(python.kind_name()),
    }
}

/// The native name of a node, for diagnostics; never fails.
pub fn extract_c_fn_name(c: &CHIR) -> (r: String)
    ensures
        r@ == c_fn_label(*c),
{
    match c {
        CHIR::Function { name, .. } => name.clone(),
        _ => String::from_str(c.kind_name()),
    }
}

} // verus!
