//! A minimal three-sided representation that demonstrates the whole path on
//! the length query: a front-end `len` call and the native `list_length`
//! become one call of the emitted language, with no boundary left.

use vstd::prelude::*;

use crate::text::str_eq;

verus! {

/// A node of the minimal representation.
#[derive(Debug, PartialEq, Eq)]
pub enum MiniHIR {
    /// A front-end function.
    PythonFunction { name: String, body: Vec<MiniHIR> },
    /// A front-end call.
    PythonCall { callee: String, args: Vec<MiniHIR> },
    /// A front-end variable.
    PythonVar(String),
    /// A native function.
    CFunction { name: String, body: Vec<MiniHIR> },
    /// A native field access, such as a size read.
    CFieldAccess { object: Box<MiniHIR>, field: String },
    /// A native pointer.
    CPointer(Box<MiniHIR>),
    /// A unified call.
    UnifiedCall { target_language: Language, callee: String, args: Vec<MiniHIR> },
}

/// Languages of the minimal representation.
#[derive(Debug, Clone, Copy, PartialEq, Eq, Structural)]
pub enum Language {
    Python,
    C,
    Rust,
}

/// Two nodes of the same shape holding the same values.
pub open spec fn mini_eq(a: MiniHIR, b: MiniHIR) -> bool
    decreases a,
{
    match a {
        MiniHIR::PythonFunction { name, body } => match b {
            MiniHIR::PythonFunction { name: name2, body: body2 } => name2@ == name@ && body2@.len()
                == body@.len() && forall|i: int|
                0 <= i < body@.len() ==> mini_eq(#[trigger] body@[i], body2@[i]),
            _ => false,
        },
        MiniHIR::PythonCall { callee, args } => match b {
            MiniHIR::PythonCall { callee: callee2, args: args2 } => callee2@ == callee@
                && args2@.len() == args@.len() && forall|i: int|
                0 <= i < args@.len() ==> mini_eq(#[trigger] args@[i], args2@[i]),
            _ => false,
        },
        MiniHIR::PythonVar(n) => match b {
            MiniHIR::PythonVar(m) => m@ == n@,
            _ => false,
        },
        MiniHIR::CFunction { name, body } => match b {
            MiniHIR::CFunction { name: name2, body: body2 } => name2@ == name@ && body2@.len()
                == body@.len() && forall|i: int|
                0 <= i < body@.len() ==> mini_eq(#[trigger] body@[i], body2@[i]),
            _ => false,
        },
        MiniHIR::CFieldAccess { object, field } => match b {
            MiniHIR::CFieldAccess { object: object2, field: field2 } => field2@ == field@
                && mini_eq(*object, *object2),
            _ => false,
        },
        MiniHIR::CPointer(x) => match b {
            MiniHIR::CPointer(y) => mini_eq(*x, *y),
            _ => false,
        },
        MiniHIR::UnifiedCall { target_language, callee, args } => match b {
            MiniHIR::UnifiedCall { target_language: t2, callee: callee2, args: args2 } => t2
                == target_language && callee2@ == callee@ && args2@.len() == args@.len()
                && forall|i: int| 0 <= i < args@.len() ==> mini_eq(#[trigger] args@[i], args2@[i]),
            _ => false,
        },
    }
}

/// Element-wise copies of a list of nodes.
fn copy_all(v: &Vec<MiniHIR>) -> (r: Vec<MiniHIR>)
    ensures
        r@.len() == v@.len(),
        forall|i: int| 0 <= i < v@.len() ==> mini_eq(#[trigger] v@[i], r@[i]),
    decreases v,
{
    let mut r: Vec<MiniHIR> = Vec::new();
    let mut i: usize = 0;
    while i < v.len()
        invariant
            i <= v@.len(),
            r@.len() == i,
            forall|j: int| 0 <= j < i ==> mini_eq(#[trigger] v@[j], r@[j]),
        decreases v@.len() - i,
    {
        assert(decreases_to!(v => v@[i as int]));
        r.push(v[i].copy());
        i += 1;
    }
    r
}

/// The front-end call and native function that the minimal representation
/// recognises: `len` and `list_length`.
pub open spec fn is_len_pair(python_hir: MiniHIR, c_hir: MiniHIR) -> bool {
    match (python_hir, c_hir) {
        (MiniHIR::PythonCall { callee, .. }, MiniHIR::CFunction { name, .. }) => callee@ == "len"@
            && name@ == "list_length"@,
        _ => false,
    }
}

/// A unified call of the emitted language to `Vec::len` with copies of `args`.
pub open spec fn is_vec_len_call(u: MiniHIR, args: Seq<MiniHIR>) -> bool {
    match u {
        MiniHIR::UnifiedCall { target_language, callee, args: uargs } => target_language
            == Language::Rust && callee@ == "Vec::len"@ && uargs@.len() == args.len() && forall|
            i: int,
        | 0 <= i < args.len() ==> mini_eq(#[trigger] args[i], uargs@[i]),
        _ => false,
    }
}

/// How a node is named when code generation does not handle it.
pub open spec fn mini_kind_text(m: MiniHIR) -> Seq<char> {
    match m {
        MiniHIR::PythonFunction { .. } => "PythonFunction"@,
        MiniHIR::PythonCall { .. } => "PythonCall"@,
        MiniHIR::PythonVar(_) => "PythonVar"@,
        MiniHIR::CFunction { .. } => "CFunction"@,
        MiniHIR::CFieldAccess { .. } => "CFieldAccess"@,
        MiniHIR::CPointer(_) => "CPointer"@,
        MiniHIR::UnifiedCall { .. } => "UnifiedCall"@,
    }
}

/// The emitted code of a node.
pub open spec fn codegen_text(m: MiniHIR) -> Seq<char>
    decreases m,
{
    match m {
        MiniHIR::PythonFunction { name, body } => "pub fn "@ + name@ + "<T>(x: &Vec<T>) -> usize {\n    "@
            + body_text(body@) + "\n}"@,
        MiniHIR::UnifiedCall { target_language, callee, .. } => if target_language
            == Language::Rust && callee@ == "Vec::len"@ {
            "x.len()"@
        } else {
            "/* Not implemented: "@ + mini_kind_text(m) + " */"@
        },
        MiniHIR::PythonVar(name) => name@,
        _ => "/* Not implemented: "@ + mini_kind_text(m) + " */"@,
    }
}

/// The emitted code of a function body, one statement per line.
pub open spec fn body_text(s: Seq<MiniHIR>) -> Seq<char>
    decreases s,
{
    if s.len() == 0 {
        Seq::empty()
    } else if s.len() == 1 {
        codegen_text(s[0])
    } else {
        body_text(s.subrange(0, s.len() - 1)) + "\n    "@ + codegen_text(s[s.len() - 1])
    }
}

impl MiniHIR {
    /// A copy of the node.
    pub fn copy(&self) -> (r: Self)
        ensures
            mini_eq(*self, r),
        decreases self,
    {
        match self {
            MiniHIR::PythonFunction { name, body } => MiniHIR::PythonFunction {
                name: name.clone(),
                body: copy_all(body),
            },
            MiniHIR::PythonCall { callee, args } => MiniHIR::PythonCall {
                callee: callee.clone(),
                args: copy_all(args),
            },
            MiniHIR::PythonVar(n) => MiniHIR::PythonVar(n.clone()),
            MiniHIR::CFunction { name, body } => MiniHIR::CFunction {
                name: name.clone(),
                body: copy_all(body),
            },
            MiniHIR::CFieldAccess { object, field } => MiniHIR::CFieldAccess {
                object: Box::new((**object).copy()),
                field: field.clone(),
            },
            MiniHIR::CPointer(x) => MiniHIR::CPointer(Box::new((**x).copy())),
            MiniHIR::UnifiedCall { target_language, callee, args } => MiniHIR::UnifiedCall {
                target_language: *target_language,
                callee: callee.clone(),
                args: copy_all(args),
            },
        }
    }

    /// Unifies a front-end `len` call with the native `list_length`: the
    /// result is a call of the emitted language to `Vec::len` with the call's
    /// arguments. Any other pair is an error.
    pub fn unify(python_hir: &MiniHIR, c_hir: &MiniHIR) -> (r: Result<MiniHIR, String>)
        ensures
            is_len_pair(*python_hir, *c_hir) <==> r is Ok,
            r matches Ok(u) ==> match *python_hir {
                MiniHIR::PythonCall { args, .. } => is_vec_len_call(u, args@),
                _ => false,
            },
    {
        if let (MiniHIR::PythonCall { callee, args }, MiniHIR::CFunction { name, .. }) = (
            python_hir,
            c_hir,
        ) {
            if str_eq(callee.as_str(), "len") && str_eq(name.as_str(), "list_length") {
                return Ok(
                    MiniHIR::UnifiedCall {
                        target_language: Language::Rust,
                        callee: String::from_str("Vec::len"),
                        args: copy_all(args),
                    },
                );
            }
        }
        let mut msg = String::from_str("Cannot unify Python HIR ");
        msg.append(python_hir.kind_name());
        msg.append(" with C HIR ");
        msg.append(c_hir.kind_name());
        Err(msg)
    }

    /// Eliminates the boundary: a front-end-targeted unified `len` call
    /// becomes a call of the emitted language to `Vec::len` with the same
    /// arguments; any other node is returned as it is.
    pub fn eliminate_boundary(self) -> (r: MiniHIR)
        ensures
            match self {
                MiniHIR::UnifiedCall { target_language: Language::Python, callee, args } => if callee@
                    == "len"@ {
                    match r {
                        MiniHIR::UnifiedCall { target_language: t2, callee: c2, args: a2 } => t2
                            == Language::Rust && c2@ == "Vec::len"@ && a2 == args,
                        _ => false,
                    }
                } else {
                    r == self
                },
                _ => r == self,
            },
    {
        match self {
            MiniHIR::UnifiedCall { target_language: Language::Python, callee, args } => {
                if str_eq(callee.as_str(), "len") {
                    MiniHIR::UnifiedCall {
                        target_language: Language::Rust,
                        callee: String::from_str("Vec::len"),
                        args,
                    }
                } else {
                    MiniHIR::UnifiedCall { target_language: Language::Python, callee, args }
                }
            },
            other => other,
        }
    }

    /// The name of the node's kind.
    pub fn kind_name(&self) -> (r: &'static str)
        ensures
            r@ == mini_kind_text(*self),
    {
        match self {
            MiniHIR::PythonFunction { .. } => "PythonFunction",
            MiniHIR::PythonCall { .. } => "PythonCall",
            MiniHIR::PythonVar(_) => "PythonVar",
            MiniHIR::CFunction { .. } => "CFunction",
            MiniHIR::CFieldAccess { .. } => "CFieldAccess",
            MiniHIR::CPointer(_) => "CPointer",
            MiniHIR::UnifiedCall { .. } => "UnifiedCall",
        }
    }

    /// The emitted code of the node: a function over a vector for a
    /// front-end function, `x.len()` for the unified length call, the name
    /// for a variable, and a marker comment for anything else.
    pub fn codegen(&self) -> (r: String)
        ensures
            r@ == codegen_text(*self),
    {
        let mut out = String::new();
        push_code(&mut out, self);
        assert(out@ =~= codegen_text(*self));
        out
    }
}

/// Appends the emitted code of a node.
fn push_code(out: &mut String, m: &MiniHIR)
    ensures
        final(out)@ == old(out)@ + codegen_text(*m),
    decreases m,
{
    match m {
        MiniHIR::PythonFunction { name, body } => {
            out.append("pub fn ");
            out.append(name.as_str());
            out.append("<T>(x: &Vec<T>) -> usize {\n    ");
            push_body(out, body);
            out.append("\n}");
        },
        MiniHIR::UnifiedCall { target_language, callee, .. } => {
            if *target_language == Language::Rust && str_eq(callee.as_str(), "Vec::len") {
                out.append("x.len()");
            } else {
                out.append("/* Not implemented: ");
                out.append(m.kind_name());
                out.append(" */");
            }
        },
        MiniHIR::PythonVar(name) => out.append(name.as_str()),
        _ => {
            out.append("/* Not implemented: ");
            out.append(m.kind_name());
            out.append(" */");
        },
    }
    assert(final(out)@ =~= old(out)@ + codegen_text(*m));
}

/// Appends the emitted code of a function body, one statement per line.
fn push_body(out: &mut String, body: &Vec<MiniHIR>)
    ensures
        final(out)@ == old(out)@ + body_text(body@),
    decreases body,
{
    let ghost start = out@;
    let mut i: usize = 0;
    while i < body.len()
        invariant
            i <= body@.len(),
            out@ == start + body_text(body@.subrange(0, i as int)),
        decreases body@.len() - i,
    {
        assert(decreases_to!(body => body@[i as int]));
        if i > 0 {
            out.append("\n    ");
        }
        push_code(out, &body[i]);
        proof {
            let s = body@.subrange(0, i + 1);
            assert(s.subrange(0, s.len() - 1) =~= body@.subrange(0, i as int));
            assert(s[s.len() - 1] == body@[i as int]);
            if i == 0 {
                assert(body_text(body@.subrange(0, 0)) =~= Seq::<char>::empty());
            }
            assert(out@ =~= start + body_text(s));
        }
        i += 1;
    }
    assert(body@.subrange(0, body@.len() as int) =~= body@);
}

} // verus!
