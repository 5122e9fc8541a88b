//! The unifier: recognises a front-end call and a native function as the
//! same operation and emits one unified call in their place.

use vstd::prelude::*;

use crate::c::{c_kind_text, CHIR};
use crate::catalog::{
    any_related, find_similar_patterns, front_callee, in_catalog, is_suggestion_list,
    lemma_catalog_entries_recognised, lemma_lookup_found, lookup, lookup_pattern, native_callee,
    related, suggested, target_callee, target_callee_name, PatternSuggestion,
};
use crate::error::UnificationError;
use crate::metadata::{is_empty_metadata, metadata_eq, Metadata};
use crate::python::{self, python_kind_text, PythonHIR};
use crate::types::{copy_type, type_eq, IntSize, PythonType, RustType, Type};
use crate::unified::{self, CrossMapping, LiteralValue, UnificationPattern, UnifiedHIR};
use crate::{Language, NodeId};

verus! {

/// `t` is the lowering of an optional front-end type: a copy, or `Unknown`.
pub open spec fn lowered_type(o: Option<Type>, t: Type) -> bool {
    match o {
        Some(x) => type_eq(t, x),
        None => t is Unknown,
    }
}

/// The unified operator of a front-end operator; floor division and power
/// have none.
pub open spec fn lowered_op(op: python::BinOp) -> Option<unified::BinOp> {
    match op {
        python::BinOp::Add => Some(unified::BinOp::Add),
        python::BinOp::Sub => Some(unified::BinOp::Sub),
        python::BinOp::Mul => Some(unified::BinOp::Mul),
        python::BinOp::Div => Some(unified::BinOp::Div),
        python::BinOp::Mod => Some(unified::BinOp::Mod),
        python::BinOp::Eq => Some(unified::BinOp::Eq),
        python::BinOp::NotEq => Some(unified::BinOp::Ne),
        python::BinOp::Lt => Some(unified::BinOp::Lt),
        python::BinOp::Le => Some(unified::BinOp::Le),
        python::BinOp::Gt => Some(unified::BinOp::Gt),
        python::BinOp::Ge => Some(unified::BinOp::Ge),
        python::BinOp::And => Some(unified::BinOp::And),
        python::BinOp::Or => Some(unified::BinOp::Or),
        python::BinOp::FloorDiv => None,
        python::BinOp::Pow => None,
    }
}

/// The unified value of a front-end literal.
pub open spec fn lowered_literal(v: python::Literal) -> LiteralValue {
    match v {
        python::Literal::Int(i) => LiteralValue::Int(i),
        python::Literal::Float(b) => LiteralValue::Float(b),
        python::Literal::Str(s) => LiteralValue::Str(s),
        python::Literal::Bool(b) => LiteralValue::Bool(b),
        python::Literal::NoneValue => LiteralValue::NoneValue,
    }
}

/// The front-end type of a literal.
pub open spec fn literal_type(v: python::Literal) -> Type {
    match v {
        python::Literal::Int(_) => Type::Python(PythonType::Int),
        python::Literal::Float(_) => Type::Python(PythonType::Float),
        python::Literal::Str(_) => Type::Python(PythonType::Str),
        python::Literal::Bool(_) => Type::Python(PythonType::Bool),
        python::Literal::NoneValue => Type::Python(PythonType::NoneType),
    }
}

/// A front-end expression that can stand as an argument of a unified call:
/// variables, literals, calls of simply named callees without keyword
/// arguments, and binary operations with a unified operator, nested freely.
pub open spec fn lowerable(f: PythonHIR) -> bool
    decreases f,
{
    match f {
        PythonHIR::Variable { .. } => true,
        PythonHIR::Literal { .. } => true,
        PythonHIR::Call { callee, args, kwargs, .. } => *callee is Variable && kwargs@.len() == 0
            && forall|i: int| 0 <= i < args@.len() ==> lowerable(#[trigger] args@[i]),
        PythonHIR::BinOp { op, left, right, .. } => lowered_op(op) is Some && lowerable(*left)
            && lowerable(*right),
        _ => false,
    }
}

/// The kind named when `f` cannot be lowered: the first construct met, in
/// left-to-right order, that has no unified counterpart.
pub open spec fn unsupported_kind(f: PythonHIR) -> Seq<char>
    decreases f,
{
    match f {
        PythonHIR::Call { callee, args, kwargs, .. } => if !(*callee is Variable) {
            python_kind_text(*callee)
        } else if kwargs@.len() > 0 {
            "Call"@
        } else {
            first_unsupported(args@)
        },
        PythonHIR::BinOp { op, left, right, .. } => if lowered_op(op) is None {
            "BinOp"@
        } else if !lowerable(*left) {
            unsupported_kind(*left)
        } else {
            unsupported_kind(*right)
        },
        _ => python_kind_text(f),
    }
}

/// The kind named for the first expression of `s` that cannot be lowered.
pub open spec fn first_unsupported(s: Seq<PythonHIR>) -> Seq<char>
    decreases s,
{
    if s.len() == 0 {
        Seq::empty()
    } else if !lowerable(s[0]) {
        unsupported_kind(s[0])
    } else {
        first_unsupported(s.subrange(1, s.len() as int))
    }
}

/// `u` is the unified form of the front-end expression `f`: the same shape,
/// handle, names, values, operator and metadata, with its own language as
/// the front-end's and no cross mapping.
pub open spec fn lowers(f: PythonHIR, u: UnifiedHIR) -> bool
    decreases f,
{
    match f {
        PythonHIR::Variable { id, name, inferred_type, meta } => match u {
            UnifiedHIR::Variable {
                id: uid,
                name: uname,
                var_type,
                source_language,
                meta: umeta,
            } => uid == id && uname == name && lowered_type(inferred_type, var_type)
                && source_language == Language::Python && metadata_eq(umeta, meta),
            _ => false,
        },
        PythonHIR::Literal { id, value, meta } => match u {
            UnifiedHIR::Literal { id: uid, value: uvalue, lit_type, meta: umeta } => uid == id
                && uvalue == lowered_literal(value) && lit_type == literal_type(value)
                && metadata_eq(umeta, meta),
            _ => false,
        },
        PythonHIR::Call { id, callee, args, inferred_type, meta, .. } => match u {
            UnifiedHIR::Call {
                id: uid,
                target_language,
                callee: ucallee,
                args: uargs,
                inferred_type: utype,
                source_language,
                cross_mapping,
                meta: umeta,
            } => uid == id && (match *callee {
                PythonHIR::Variable { name, .. } => ucallee == name,
                _ => false,
            }) && target_language == Language::Python && source_language == Language::Python
                && cross_mapping is None && lowered_type(inferred_type, utype) && metadata_eq(
                umeta,
                meta,
            ) && uargs@.len() == args@.len() && forall|i: int|
                0 <= i < args@.len() ==> lowers(#[trigger] args@[i], uargs@[i]),
            _ => false,
        },
        PythonHIR::BinOp { id, op, left, right, inferred_type, meta } => match u {
            UnifiedHIR::BinOp {
                id: uid,
                op: uop,
                left: uleft,
                right: uright,
                result_type,
                source_language,
                meta: umeta,
            } => uid == id && lowered_op(op) == Some(uop) && lowers(*left, *uleft) && lowers(
                *right,
                *uright,
            ) && lowered_type(inferred_type, result_type) && source_language == Language::Python
                && metadata_eq(umeta, meta),
            _ => false,
        },
        _ => false,
    }
}

/// The first expression that cannot be lowered decides the kind named.
proof fn lemma_first_unsupported_at(s: Seq<PythonHIR>, i: int)
    requires
        0 <= i < s.len(),
        forall|j: int| 0 <= j < i ==> lowerable(#[trigger] s[j]),
        !lowerable(s[i]),
    ensures
        first_unsupported(s) == unsupported_kind(s[i]),
    decreases i,
{
    if i > 0 {
        let t = s.subrange(1, s.len() as int);
        assert forall|j: int| 0 <= j < i - 1 implies lowerable(#[trigger] t[j]) by {
            assert(t[j] == s[j + 1]);
        }
        assert(t[i - 1] == s[i]);
        lemma_first_unsupported_at(t, i - 1);
    }
}

/// A copy of an optional front-end type, or `Unknown`.
fn lower_type(o: &Option<Type>) -> (r: Type)
    ensures
        lowered_type(*o, r),
{
    match o {
        Some(t) => copy_type(t),
        None => Type::Unknown,
    }
}

fn lower_op(op: python::BinOp) -> (r: Option<unified::BinOp>)
    ensures
        r == lowered_op(op),
{
    match op {
        python::BinOp::Add => Some(unified::BinOp::Add),
        python::BinOp::Sub => Some(unified::BinOp::Sub),
        python::BinOp::Mul => Some(unified::BinOp::Mul),
        python::BinOp::Div => Some(unified::BinOp::Div),
        python::BinOp::Mod => Some(unified::BinOp::Mod),
        python::BinOp::Eq => Some(unified::BinOp::Eq),
        python::BinOp::NotEq => Some(unified::BinOp::Ne),
        python::BinOp::Lt => Some(unified::BinOp::Lt),
        python::BinOp::Le => Some(unified::BinOp::Le),
        python::BinOp::Gt => Some(unified::BinOp::Gt),
        python::BinOp::Ge => Some(unified::BinOp::Ge),
        python::BinOp::And => Some(unified::BinOp::And),
        python::BinOp::Or => Some(unified::BinOp::Or),
        python::BinOp::FloorDiv => None,
        python::BinOp::Pow => None,
    }
}

/// The error naming an unsupported front-end kind.
pub open spec fn is_unsupported_error(e: UnificationError, kind: Seq<char>) -> bool {
    match e {
        UnificationError::UnsupportedPython { node_kind } => node_kind@ == kind,
        _ => false,
    }
}

fn unsupported(kind: &str) -> (e: UnificationError)
    ensures
        is_unsupported_error(e, kind@),
{
    UnificationError::UnsupportedPython { node_kind: String::from_str(kind) }
}

/// The unified form of a front-end expression, or the error naming the first
/// construct in it that has no unified counterpart.
pub fn lower_expr(f: &PythonHIR) -> (r: Result<UnifiedHIR, UnificationError>)
    ensures
        match r {
            Ok(u) => lowerable(*f) && lowers(*f, u),
            Err(e) => !lowerable(*f) && is_unsupported_error(e, unsupported_kind(*f)),
        },
    decreases f,
{
    match f {
        PythonHIR::Variable { id, name, inferred_type, meta } => Ok(
            UnifiedHIR::Variable {
                id: *id,
                name: name.clone(),
                var_type: lower_type(inferred_type),
                source_language: Language::Python,
                meta: meta.copy(),
            },
        ),
        PythonHIR::Literal { id, value, meta } => {
            let (v, t) = match value {
                python::Literal::Int(i) => (LiteralValue::Int(*i), Type::Python(PythonType::Int)),
                python::Literal::Float(b) => (
                    LiteralValue::Float(*b),
                    Type::Python(PythonType::Float),
                ),
                python::Literal::Str(s) => (
                    LiteralValue::Str(s.clone()),
                    Type::Python(PythonType::Str),
                ),
                python::Literal::Bool(b) => (
                    LiteralValue::Bool(*b),
                    Type::Python(PythonType::Bool),
                ),
                python::Literal::NoneValue => (
                    LiteralValue::NoneValue,
                    Type::Python(PythonType::NoneType),
                ),
            };
            Ok(UnifiedHIR::Literal { id: *id, value: v, lit_type: t, meta: meta.copy() })
        },
        PythonHIR::Call { id, callee, args, kwargs, inferred_type, meta } => {
            let name = match &**callee {
                PythonHIR::Variable { name, .. } => name.clone(),
                other => {
                    return Err(unsupported(other.kind_name()));
                },
            };
            if kwargs.len() > 0 {
                return Err(unsupported("Call"));
            }
            match lower_all(args) {
                Ok(uargs) => Ok(
                    UnifiedHIR::Call {
                        id: *id,
                        target_language: Language::Python,
                        callee: name,
                        args: uargs,
                        inferred_type: lower_type(inferred_type),
                        source_language: Language::Python,
                        cross_mapping: None,
                        meta: meta.copy(),
                    },
                ),
                Err(e) => Err(e),
            }
        },
        PythonHIR::BinOp { id, op, left, right, inferred_type, meta } => {
            let uop = match lower_op(*op) {
                Some(o) => o,
                None => {
                    return Err(unsupported("BinOp"));
                },
            };
            let l = match lower_expr(left) {
                Ok(u) => u,
                Err(e) => {
                    return Err(e);
                },
            };
            let r = match lower_expr(right) {
                Ok(u) => u,
                Err(e) => {
                    return Err(e);
                },
            };
            Ok(
                UnifiedHIR::BinOp {
                    id: *id,
                    op: uop,
                    left: Box::new(l),
                    right: Box::new(r),
                    result_type: lower_type(inferred_type),
                    source_language: Language::Python,
                    meta: meta.copy(),
                },
            )
        },
        _ => Err(unsupported(f.kind_name())),
    }
}

/// The unified forms of a list of front-end expressions, in order, or the
/// error naming the first construct that has no unified counterpart.
pub fn lower_all(args: &Vec<PythonHIR>) -> (r: Result<Vec<UnifiedHIR>, UnificationError>)
    ensures
        match r {
            Ok(v) => (forall|i: int| 0 <= i < args@.len() ==> lowerable(#[trigger] args@[i]))
                && v@.len() == args@.len() && forall|i: int|
                0 <= i < args@.len() ==> lowers(#[trigger] args@[i], v@[i]),
            Err(e) => !(forall|i: int| 0 <= i < args@.len() ==> lowerable(#[trigger] args@[i]))
                && is_unsupported_error(e, first_unsupported(args@)),
        },
    decreases args,
{
    let mut out: Vec<UnifiedHIR> = Vec::new();
    let mut i: usize = 0;
    while i < args.len()
        invariant
            i <= args@.len(),
            out@.len() == i,
            forall|j: int| 0 <= j < i ==> lowerable(#[trigger] args@[j]),
            forall|j: int| 0 <= j < i ==> lowers(#[trigger] args@[j], out@[j]),
        decreases args@.len() - i,
    {
        assert(decreases_to!(args => args@[i as int]));
        match lower_expr(&args[i]) {
            Ok(u) => {
                out.push(u);
            },
            Err(e) => {
                proof {
                    lemma_first_unsupported_at(args@, i as int);
                }
                return Err(e);
            },
        }
        i += 1;
    }
    Ok(out)
}

/// The inferred type the unified call of a pattern carries: an unsigned
/// pointer-sized integer for the length query, unit for the mutating list
/// and map operations, an optional of unknown for lookups and removals, and
/// a named iterator type for key enumeration.
pub open spec fn pattern_result_type(p: UnificationPattern, t: Type) -> bool {
    match p {
        UnificationPattern::LenPattern => t == Type::Rust(
            RustType::Int { bits: IntSize::ISize, signed: false },
        ),
        UnificationPattern::AppendPattern => t == Type::Rust(RustType::Unit),
        UnificationPattern::ReversePattern => t == Type::Rust(RustType::Unit),
        UnificationPattern::ClearPattern => t == Type::Rust(RustType::Unit),
        UnificationPattern::InsertPattern => t == Type::Rust(RustType::Unit),
        UnificationPattern::ExtendPattern => t == Type::Rust(RustType::Unit),
        UnificationPattern::DictClearPattern => t == Type::Rust(RustType::Unit),
        UnificationPattern::DictGetPattern => is_optional_unknown(t),
        UnificationPattern::PopPattern => is_optional_unknown(t),
        UnificationPattern::DictPopPattern => is_optional_unknown(t),
        UnificationPattern::DictKeysPattern => match t {
            Type::Rust(RustType::Custom(n)) => n@ == "Keys"@,
            _ => false,
        },
        UnificationPattern::Custom => t is Unknown,
    }
}

/// `t` is an optional of `Unknown`.
pub open spec fn is_optional_unknown(t: Type) -> bool {
    match t {
        Type::Rust(RustType::Option(inner)) => *inner is Unknown,
        _ => false,
    }
}

/// `u` is the unified call for pattern `p` with handle `id`, made from a
/// front-end call with handle `front_id` and arguments `args` and a native
/// function with handle `native_id`.
pub open spec fn is_unified_call(
    u: UnifiedHIR,
    p: UnificationPattern,
    args: Seq<PythonHIR>,
    front_id: NodeId,
    native_id: NodeId,
    id: NodeId,
) -> bool {
    match u {
        UnifiedHIR::Call {
            id: uid,
            target_language,
            callee,
            args: uargs,
            inferred_type,
            source_language,
            cross_mapping,
            meta,
        } => uid == id && target_language == Language::Rust && callee@ == target_callee(p)
            && uargs@.len() == args.len() && (forall|i: int|
            0 <= i < args.len() ==> lowers(#[trigger] args[i], uargs@[i])) && pattern_result_type(
            p,
            inferred_type,
        ) && source_language == Language::Python && cross_mapping == Some(
            CrossMapping {
                python_node: Some(front_id),
                c_node: Some(native_id),
                pattern: p,
                boundary_eliminated: false,
            },
        ) && is_empty_metadata(meta),
        _ => false,
    }
}

/// The error for a name pair that no pattern matches, with the suggestions
/// for that pair.
pub open spec fn is_no_match_error(e: UnificationError, f: Seq<char>, n: Seq<char>) -> bool {
    match e {
        UnificationError::NoPatternMatch { python_fn, c_fn, suggestions } => python_fn@ == f
            && c_fn@ == n && is_suggestion_list(suggestions@, f, n),
        _ => false,
    }
}

/// The error for a pair of nodes that are not a call and a function.
pub open spec fn is_incompatible_error(e: UnificationError, front: PythonHIR, native: CHIR) -> bool {
    match e {
        UnificationError::IncompatibleNodes { python_kind, c_kind } => python_kind@
            == python_kind_text(front) && c_kind@ == c_kind_text(native),
        _ => false,
    }
}

/// What unifying `front` with `native` gives when the next free handle is
/// `next`: the result `r`, and `next2`, the next free handle afterwards.
pub open spec fn unify_outcome(
    front: PythonHIR,
    native: CHIR,
    next: u64,
    r: Result<UnifiedHIR, UnificationError>,
    next2: u64,
) -> bool {
    match (front, native) {
        (
            PythonHIR::Call { id: front_id, callee, args, kwargs, .. },
            CHIR::Function { id: native_id, name: native_name, .. },
        ) => match *callee {
            PythonHIR::Variable { name: front_name, .. } => match lookup(
                front_name@,
                native_name@,
            ) {
                None => next2 == next && match r {
                    Err(e) => is_no_match_error(e, front_name@, native_name@),
                    Ok(_) => false,
                },
                Some(p) => if kwargs@.len() > 0 {
                    next2 == next && match r {
                        Err(e) => is_unsupported_error(e, "Call"@),
                        Ok(_) => false,
                    }
                } else if !(forall|i: int| 0 <= i < args@.len() ==> lowerable(#[trigger] args@[i])) {
                    next2 == next && match r {
                        Err(e) => is_unsupported_error(e, first_unsupported(args@)),
                        Ok(_) => false,
                    }
                } else {
                    next2 == next + 1 && match r {
                        Ok(u) => is_unified_call(u, p, args@, front_id, native_id, NodeId(next)),
                        Err(_) => false,
                    }
                },
            },
            _ => next2 == next && match r {
                Err(e) => is_unsupported_error(e, python_kind_text(*callee)),
                Ok(_) => false,
            },
        },
        _ => next2 == next && match r {
            Err(e) => is_incompatible_error(e, front, native),
            Ok(_) => false,
        },
    }
}

/// Unifies front-end calls with native functions, handing out fresh node
/// handles from its own counter.
pub struct Unifier {
    next_id: u64,
}

impl Unifier {
    /// The next handle this unifier hands out.
    pub closed spec fn next_handle(&self) -> u64 {
        self.next_id
    }

    /// A unifier whose first handle is 1.
    pub fn new() -> (r: Self)
        ensures
            r.next_handle() == 1,
    {
        Unifier { next_id: 1 }
    }

    /// Hands out a fresh handle.
    fn next_node_id(&mut self) -> (r: NodeId)
        requires
            old(self).next_handle() < u64::MAX,
        ensures
            r == NodeId(old(self).next_handle()),
            final(self).next_handle() == old(self).next_handle() + 1,
    {
        let id = NodeId::new(self.next_id);
        self.next_id = self.next_id + 1;
        id
    }

    /// Unifies a front-end call with a native function. Only a call whose
    /// callee is a simple name, paired with a function, is eligible; the two
    /// names must be a catalog pair exactly. The result is one call of the
    /// emitted language with the catalog's callee, the call's arguments in
    /// order, the pattern's result type and a cross mapping whose boundary is
    /// not yet eliminated; it takes one fresh handle. Every failure is an
    /// error that names what was wrong, and takes no handle.
    pub fn unify(&mut self, python: &PythonHIR, c: &CHIR) -> (r: Result<
        UnifiedHIR,
        UnificationError,
    >)
        requires
            old(self).next_handle() < u64::MAX,
        ensures
            unify_outcome(*python, *c, old(self).next_handle(), r, final(self).next_handle()),
    {
        let (front_id, callee, args, kwargs, native_id, native_name) = match (python, c) {
            (
                PythonHIR::Call { id, callee, args, kwargs, .. },
                CHIR::Function { id: nid, name, .. },
            ) => (*id, callee, args, kwargs, *nid, name),
            _ => {
                return Err(
                    UnificationError::IncompatibleNodes {
                        python_kind: String::from_str(python.kind_name()),
                        c_kind: String::from_str(c.kind_name()),
                    },
                );
            },
        };
        let front_name = match &**callee {
            PythonHIR::Variable { name, .. } => name,
            other => {
                return Err(unsupported(other.kind_name()));
            },
        };
        let p = match lookup_pattern(front_name.as_str(), native_name.as_str()) {
            Some(p) => p,
            None => {
                return Err(
                    UnificationError::NoPatternMatch {
                        python_fn: front_name.clone(),
                        c_fn: native_name.clone(),
                        suggestions: find_similar_patterns(
                            front_name.as_str(),
                            native_name.as_str(),
                        ),
                    },
                );
            },
        };
        if kwargs.len() > 0 {
            return Err(unsupported("Call"));
        }
        let uargs = match lower_all(args) {
            Ok(v) => v,
            Err(e) => {
                return Err(e);
            },
        };
        proof {
            lemma_lookup_found(front_name@, native_name@);
        }
        let id = self.next_node_id();
        Ok(
            UnifiedHIR::Call {
                id,
                target_language: Language::Rust,
                callee: String::from_str(target_callee_name(p)),
                args: uargs,
                inferred_type: pattern_type(p),
                source_language: Language::Python,
                cross_mapping: Some(
                    CrossMapping {
                        python_node: Some(front_id),
                        c_node: Some(native_id),
                        pattern: p,
                        boundary_eliminated: false,
                    },
                ),
                meta: Metadata::new(),
            },
        )
    }
}

/// The inferred type of the unified call of a catalog pattern.
fn pattern_type(p: UnificationPattern) -> (t: Type)
    ensures
        pattern_result_type(p, t),
{
    match p {
        UnificationPattern::LenPattern => Type::Rust(
            RustType::Int { bits: IntSize::ISize, signed: false },
        ),
        UnificationPattern::DictGetPattern | UnificationPattern::PopPattern
        | UnificationPattern::DictPopPattern => Type::Rust(
            RustType::Option(Box::new(Type::Unknown)),
        ),
        UnificationPattern::DictKeysPattern => Type::Rust(
            RustType::Custom(String::from_str("Keys")),
        ),
        UnificationPattern::Custom => Type::Unknown,
        _ => Type::Rust(RustType::Unit),
    }
}

/// A call whose callee is the simple name `f`.
pub open spec fn is_call_named(front: PythonHIR, f: Seq<char>) -> bool {
    match front {
        PythonHIR::Call { callee, .. } => match *callee {
            PythonHIR::Variable { name, .. } => name@ == f,
            _ => false,
        },
        _ => false,
    }
}

/// A call of the simple name `f` without arguments.
pub open spec fn is_bare_call(front: PythonHIR, f: Seq<char>) -> bool {
    is_call_named(front, f) && match front {
        PythonHIR::Call { args, kwargs, .. } => args@.len() == 0 && kwargs@.len() == 0,
        _ => false,
    }
}

/// A native function named `n`.
pub open spec fn is_function_named(native: CHIR, n: Seq<char>) -> bool {
    match native {
        CHIR::Function { name, .. } => name@ == n,
        _ => false,
    }
}

/// For every catalog entry, a bare call of its front-end name unified with a
/// function of its native name gives a call of the emitted language to the
/// entry's emitted callee, mapped to the entry's pattern.
pub proof fn lemma_exact_match_sound(
    p: UnificationPattern,
    front: PythonHIR,
    native: CHIR,
    next: u64,
    r: Result<UnifiedHIR, UnificationError>,
    next2: u64,
)
    requires
        in_catalog(p),
        is_bare_call(front, front_callee(p)),
        is_function_named(native, native_callee(p)),
        unify_outcome(front, native, next, r, next2),
    ensures
        match r {
            Ok(UnifiedHIR::Call { callee, target_language, cross_mapping, .. }) => callee@
                == target_callee(p) && target_language == Language::Rust && (match cross_mapping {
                Some(m) => m.pattern == p,
                None => false,
            }),
            _ => false,
        },
{
    lemma_catalog_entries_recognised(p);
}

/// A list of suggestions for a pair of names is never empty.
pub proof fn lemma_suggestions_nonempty(s: Seq<PatternSuggestion>, f: Seq<char>, n: Seq<char>)
    requires
        is_suggestion_list(s, f, n),
    ensures
        s.len() > 0,
{
    reveal(suggested);
    if any_related(f, n) {
        let p = choose|p: UnificationPattern| in_catalog(p) && #[trigger] related(p, f, n);
        assert(suggested(p, f, n));
    } else {
        assert(suggested(UnificationPattern::LenPattern, f, n));
    }
}

/// A call and a function whose names appear in no catalog entry never
/// unify: the error is the missing pattern, with at least one suggestion.
pub proof fn lemma_unknown_names_fail(
    front: PythonHIR,
    native: CHIR,
    f: Seq<char>,
    n: Seq<char>,
    next: u64,
    r: Result<UnifiedHIR, UnificationError>,
    next2: u64,
)
    requires
        is_call_named(front, f),
        is_function_named(native, n),
        forall|p: UnificationPattern|
            in_catalog(p) ==> #[trigger] front_callee(p) != f && native_callee(p) != n,
        unify_outcome(front, native, next, r, next2),
    ensures
        match r {
            Err(UnificationError::NoPatternMatch { suggestions, .. }) => suggestions@.len() > 0,
            _ => false,
        },
        next2 == next,
{
    lemma_lookup_found(f, n);
    match r {
        Err(UnificationError::NoPatternMatch { suggestions, .. }) => {
            lemma_suggestions_nonempty(suggestions@, f, n);
        },
        _ => {},
    }
}

/// A length-query call with one variable argument keeps that argument: the
/// unified call's only argument is a variable of exactly the same name.
pub proof fn lemma_argument_preserved(
    front: PythonHIR,
    native: CHIR,
    arg_name: Seq<char>,
    next: u64,
    r: Result<UnifiedHIR, UnificationError>,
    next2: u64,
)
    requires
        is_call_named(front, front_callee(UnificationPattern::LenPattern)),
        match front {
            PythonHIR::Call { args, kwargs, .. } => kwargs@.len() == 0 && args@.len() == 1
                && match args@[0] {
                PythonHIR::Variable { name, .. } => name@ == arg_name,
                _ => false,
            },
            _ => false,
        },
        is_function_named(native, native_callee(UnificationPattern::LenPattern)),
        unify_outcome(front, native, next, r, next2),
    ensures
        match r {
            Ok(UnifiedHIR::Call { args, .. }) => args@.len() == 1 && match args@[0] {
                UnifiedHIR::Variable { name, .. } => name@ == arg_name,
                _ => false,
            },
            _ => false,
        },
{
    lemma_catalog_entries_recognised(UnificationPattern::LenPattern);
    match front {
        PythonHIR::Call { args, .. } => {
            assert(lowerable(args@[0]));
        },
        _ => {},
    }
}

/// A literal never unifies with a function: the error is always the
/// incompatible node kinds, whatever the literal holds.
pub proof fn lemma_literal_incompatible(
    front: PythonHIR,
    native: CHIR,
    next: u64,
    r: Result<UnifiedHIR, UnificationError>,
    next2: u64,
)
    requires
        front is Literal,
        native is Function,
        unify_outcome(front, native, next, r, next2),
    ensures
        r matches Err(UnificationError::IncompatibleNodes { .. }),
        next2 == next,
{
}

} // verus!
