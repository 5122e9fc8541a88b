//! The unified representation, where a recognised front-end call and its
//! native implementation become one node of the emitted language, and the
//! boundary-elimination rewrite over it.

use vstd::prelude::*;

use crate::metadata::Metadata;
use crate::types::Type;
use crate::{Language, NodeId};

verus! {

/// A node of the unified representation.
#[derive(Debug, PartialEq)]
pub enum UnifiedHIR {
    Module {
        name: String,
        source_language: Language,
        declarations: Vec<UnifiedHIR>,
        meta: Metadata,
    },
    Function {
        id: NodeId,
        name: String,
        params: Vec<UnifiedParameter>,
        return_type: Type,
        body: Vec<UnifiedHIR>,
        source_language: Language,
        cross_mapping: Option<CrossMapping>,
        meta: Metadata,
    },
    /// A call, possibly across the language boundary.
    Call {
        id: NodeId,
        target_language: Language,
        callee: String,
        args: Vec<UnifiedHIR>,
        inferred_type: Type,
        source_language: Language,
        cross_mapping: Option<CrossMapping>,
        meta: Metadata,
    },
    Variable { id: NodeId, name: String, var_type: Type, source_language: Language, meta: Metadata },
    Assign {
        id: NodeId,
        target: String,
        value: Box<UnifiedHIR>,
        var_type: Type,
        source_language: Language,
        meta: Metadata,
    },
    Return {
        id: NodeId,
        value: Option<Box<UnifiedHIR>>,
        source_language: Language,
        meta: Metadata,
    },
    If {
        id: NodeId,
        condition: Box<UnifiedHIR>,
        then_branch: Vec<UnifiedHIR>,
        else_branch: Vec<UnifiedHIR>,
        source_language: Language,
        meta: Metadata,
    },
    Loop {
        id: NodeId,
        kind: LoopKind,
        body: Vec<UnifiedHIR>,
        source_language: Language,
        meta: Metadata,
    },
    BinOp {
        id: NodeId,
        op: BinOp,
        left: Box<UnifiedHIR>,
        right: Box<UnifiedHIR>,
        result_type: Type,
        source_language: Language,
        meta: Metadata,
    },
    Literal { id: NodeId, value: LiteralValue, lit_type: Type, meta: Metadata },
}

/// A parameter of a unified function.
#[derive(Debug, PartialEq, Eq)]
pub struct UnifiedParameter {
    pub name: String,
    pub param_type: Type,
    pub source_language: Language,
}

/// The record linking a unified node to the pair it came from.
#[derive(Debug, Clone, Copy, PartialEq, Eq, Structural)]
pub struct CrossMapping {
    /// The front-end node of the pair.
    pub python_node: Option<NodeId>,
    /// The native node of the pair.
    pub c_node: Option<NodeId>,
    /// The recognised archetype.
    pub pattern: UnificationPattern,
    /// Whether the boundary has been erased.
    pub boundary_eliminated: bool,
}

/// The recognised archetypes of call pairs.
#[derive(Debug, Clone, Copy, PartialEq, Eq, Structural)]
pub enum UnificationPattern {
    LenPattern,
    AppendPattern,
    DictGetPattern,
    ReversePattern,
    ClearPattern,
    PopPattern,
    InsertPattern,
    ExtendPattern,
    DictPopPattern,
    DictClearPattern,
    DictKeysPattern,
    /// An extension of the catalog.
    Custom,
}

/// The two shapes of loop.
#[derive(Debug, PartialEq)]
pub enum LoopKind {
    For { target: String, iter: Box<UnifiedHIR> },
    While { condition: Box<UnifiedHIR> },
}

/// Binary operators of the unified representation.
#[derive(Debug, Clone, Copy, PartialEq, Eq, Structural)]
pub enum BinOp {
    Add,
    Sub,
    Mul,
    Div,
    Mod,
    Eq,
    Ne,
    Lt,
    Le,
    Gt,
    Ge,
    And,
    Or,
}

/// Literal values of the unified representation. A float is held as the bit
/// pattern of its IEEE 754 double.
#[derive(Debug, Clone, PartialEq, Eq)]
pub enum LiteralValue {
    Int(i64),
    Float(u64),
    Str(String),
    Bool(bool),
    NoneValue,
}

/// The handle of a node; a module has none.
pub open spec fn unified_node_id(n: UnifiedHIR) -> Option<NodeId> {
    match n {
        UnifiedHIR::Module { .. } => None,
        UnifiedHIR::Function { id, .. } => Some(id),
        UnifiedHIR::Call { id, .. } => Some(id),
        UnifiedHIR::Variable { id, .. } => Some(id),
        UnifiedHIR::Assign { id, .. } => Some(id),
        UnifiedHIR::Return { id, .. } => Some(id),
        UnifiedHIR::If { id, .. } => Some(id),
        UnifiedHIR::Loop { id, .. } => Some(id),
        UnifiedHIR::BinOp { id, .. } => Some(id),
        UnifiedHIR::Literal { id, .. } => Some(id),
    }
}

/// The target language of a call after boundary elimination: kept when it is
/// the call's own language, the emitted language otherwise.
pub open spec fn eliminated_target(source: Language, target: Language) -> Language {
    if source == target {
        target
    } else {
        Language::Rust
    }
}

/// The cross mapping of a call after boundary elimination.
pub open spec fn eliminated_mapping(m: Option<CrossMapping>) -> Option<CrossMapping> {
    match m {
        Some(c) => Some(CrossMapping { boundary_eliminated: true, ..c }),
        None => None,
    }
}

/// `r` is `t` with the boundary eliminated: every call, at any depth, has its
/// cross mapping (if any) marked as eliminated and its target language moved
/// to the emitted language when it differs from the call's own; nothing else
/// changes.
pub open spec fn eliminates(t: UnifiedHIR, r: UnifiedHIR) -> bool
    decreases t,
{
    match t {
        UnifiedHIR::Module { name, source_language, declarations, meta } => match r {
            UnifiedHIR::Module {
                name: name2,
                source_language: source_language2,
                declarations: declarations2,
                meta: meta2,
            } => name2 == name && source_language2 == source_language && meta2 == meta
                && declarations2@.len() == declarations@.len() && forall|i: int|
                0 <= i < declarations@.len() ==> eliminates(
                    #[trigger] declarations@[i],
                    declarations2@[i],
                ),
            _ => false,
        },
        UnifiedHIR::Function {
            id,
            name,
            params,
            return_type,
            body,
            source_language,
            cross_mapping,
            meta,
        } => match r {
            UnifiedHIR::Function {
                id: id2,
                name: name2,
                params: params2,
                return_type: return_type2,
                body: body2,
                source_language: source_language2,
                cross_mapping: cross_mapping2,
                meta: meta2,
            } => id2 == id && name2 == name && params2 == params && return_type2 == return_type
                && source_language2 == source_language && cross_mapping2 == cross_mapping && meta2
                == meta && body2@.len() == body@.len() && forall|i: int|
                0 <= i < body@.len() ==> eliminates(#[trigger] body@[i], body2@[i]),
            _ => false,
        },
        UnifiedHIR::Call {
            id,
            target_language,
            callee,
            args,
            inferred_type,
            source_language,
            cross_mapping,
            meta,
        } => match r {
            UnifiedHIR::Call {
                id: id2,
                target_language: target_language2,
                callee: callee2,
                args: args2,
                inferred_type: inferred_type2,
                source_language: source_language2,
                cross_mapping: cross_mapping2,
                meta: meta2,
            } => id2 == id && target_language2 == eliminated_target(
                source_language,
                target_language,
            ) && callee2 == callee && inferred_type2 == inferred_type && source_language2
                == source_language && cross_mapping2 == eliminated_mapping(cross_mapping) && meta2
                == meta && args2@.len() == args@.len() && forall|i: int|
                0 <= i < args@.len() ==> eliminates(#[trigger] args@[i], args2@[i]),
            _ => false,
        },
        UnifiedHIR::Assign { id, target, value, var_type, source_language, meta } => match r {
            UnifiedHIR::Assign {
                id: id2,
                target: target2,
                value: value2,
                var_type: var_type2,
                source_language: source_language2,
                meta: meta2,
            } => id2 == id && target2 == target && var_type2 == var_type && source_language2
                == source_language && meta2 == meta && eliminates(*value, *value2),
            _ => false,
        },
        UnifiedHIR::Return { id, value, source_language, meta } => match r {
            UnifiedHIR::Return {
                id: id2,
                value: value2,
                source_language: source_language2,
                meta: meta2,
            } => id2 == id && source_language2 == source_language && meta2 == meta && match value {
                Some(v) => match value2 {
                    Some(v2) => eliminates(*v, *v2),
                    None => false,
                },
                None => value2 is None,
            },
            _ => false,
        },
        UnifiedHIR::If { id, condition, then_branch, else_branch, source_language, meta } => match r {
            UnifiedHIR::If {
                id: id2,
                condition: condition2,
                then_branch: then_branch2,
                else_branch: else_branch2,
                source_language: source_language2,
                meta: meta2,
            } => id2 == id && source_language2 == source_language && meta2 == meta && eliminates(
                *condition,
                *condition2,
            ) && then_branch2@.len() == then_branch@.len() && (forall|i: int|
                0 <= i < then_branch@.len() ==> eliminates(
                    #[trigger] then_branch@[i],
                    then_branch2@[i],
                )) && else_branch2@.len() == else_branch@.len() && (forall|i: int|
                0 <= i < else_branch@.len() ==> eliminates(
                    #[trigger] else_branch@[i],
                    else_branch2@[i],
                )),
            _ => false,
        },
        UnifiedHIR::Loop { id, kind, body, source_language, meta } => match r {
            UnifiedHIR::Loop {
                id: id2,
                kind: kind2,
                body: body2,
                source_language: source_language2,
                meta: meta2,
            } => id2 == id && source_language2 == source_language && meta2 == meta && match kind {
                LoopKind::For { target, iter } => match kind2 {
                    LoopKind::For { target: target2, iter: iter2 } => target2 == target
                        && eliminates(*iter, *iter2),
                    _ => false,
                },
                LoopKind::While { condition } => match kind2 {
                    LoopKind::While { condition: condition2 } => eliminates(
                        *condition,
                        *condition2,
                    ),
                    _ => false,
                },
            } && body2@.len() == body@.len() && forall|i: int|
                0 <= i < body@.len() ==> eliminates(#[trigger] body@[i], body2@[i]),
            _ => false,
        },
        UnifiedHIR::BinOp { id, op, left, right, result_type, source_language, meta } => match r {
            UnifiedHIR::BinOp {
                id: id2,
                op: op2,
                left: left2,
                right: right2,
                result_type: result_type2,
                source_language: source_language2,
                meta: meta2,
            } => id2 == id && op2 == op && result_type2 == result_type && source_language2
                == source_language && meta2 == meta && eliminates(*left, *left2) && eliminates(
                *right,
                *right2,
            ),
            _ => false,
        },
        UnifiedHIR::Variable { .. } => r == t,
        UnifiedHIR::Literal { .. } => r == t,
    }
}

/// Two trees of the same shape whose nodes hold equal values; lists of
/// children are compared element by element.
pub open spec fn same_tree(a: UnifiedHIR, b: UnifiedHIR) -> bool
    decreases a,
{
    match a {
        UnifiedHIR::Module { name, source_language, declarations, meta } => match b {
            UnifiedHIR::Module {
                name: name2,
                source_language: source_language2,
                declarations: declarations2,
                meta: meta2,
            } => name2 == name && source_language2 == source_language && meta2 == meta
                && declarations2@.len() == declarations@.len() && forall|i: int|
                0 <= i < declarations@.len() ==> same_tree(
                    #[trigger] declarations@[i],
                    declarations2@[i],
                ),
            _ => false,
        },
        UnifiedHIR::Function {
            id,
            name,
            params,
            return_type,
            body,
            source_language,
            cross_mapping,
            meta,
        } => match b {
            UnifiedHIR::Function {
                id: id2,
                name: name2,
                params: params2,
                return_type: return_type2,
                body: body2,
                source_language: source_language2,
                cross_mapping: cross_mapping2,
                meta: meta2,
            } => id2 == id && name2 == name && params2 == params && return_type2 == return_type
                && source_language2 == source_language && cross_mapping2 == cross_mapping && meta2
                == meta && body2@.len() == body@.len() && forall|i: int|
                0 <= i < body@.len() ==> same_tree(#[trigger] body@[i], body2@[i]),
            _ => false,
        },
        UnifiedHIR::Call {
            id,
            target_language,
            callee,
            args,
            inferred_type,
            source_language,
            cross_mapping,
            meta,
        } => match b {
            UnifiedHIR::Call {
                id: id2,
                target_language: target_language2,
                callee: callee2,
                args: args2,
                inferred_type: inferred_type2,
                source_language: source_language2,
                cross_mapping: cross_mapping2,
                meta: meta2,
            } => id2 == id && target_language2 == target_language && callee2 == callee
                && inferred_type2 == inferred_type && source_language2 == source_language
                && cross_mapping2 == cross_mapping && meta2 == meta && args2@.len() == args@.len()
                && forall|i: int| 0 <= i < args@.len() ==> same_tree(#[trigger] args@[i], args2@[i]),
            _ => false,
        },
        UnifiedHIR::Assign { id, target, value, var_type, source_language, meta } => match b {
            UnifiedHIR::Assign {
                id: id2,
                target: target2,
                value: value2,
                var_type: var_type2,
                source_language: source_language2,
                meta: meta2,
            } => id2 == id && target2 == target && var_type2 == var_type && source_language2
                == source_language && meta2 == meta && same_tree(*value, *value2),
            _ => false,
        },
        UnifiedHIR::Return { id, value, source_language, meta } => match b {
            UnifiedHIR::Return {
                id: id2,
                value: value2,
                source_language: source_language2,
                meta: meta2,
            } => id2 == id && source_language2 == source_language && meta2 == meta && match value {
                Some(v) => match value2 {
                    Some(v2) => same_tree(*v, *v2),
                    None => false,
                },
                None => value2 is None,
            },
            _ => false,
        },
        UnifiedHIR::If { id, condition, then_branch, else_branch, source_language, meta } => match b {
            UnifiedHIR::If {
                id: id2,
                condition: condition2,
                then_branch: then_branch2,
                else_branch: else_branch2,
                source_language: source_language2,
                meta: meta2,
            } => id2 == id && source_language2 == source_language && meta2 == meta && same_tree(
                *condition,
                *condition2,
            ) && then_branch2@.len() == then_branch@.len() && (forall|i: int|
                0 <= i < then_branch@.len() ==> same_tree(
                    #[trigger] then_branch@[i],
                    then_branch2@[i],
                )) && else_branch2@.len() == else_branch@.len() && (forall|i: int|
                0 <= i < else_branch@.len() ==> same_tree(
                    #[trigger] else_branch@[i],
                    else_branch2@[i],
                )),
            _ => false,
        },
        UnifiedHIR::Loop { id, kind, body, source_language, meta } => match b {
            UnifiedHIR::Loop {
                id: id2,
                kind: kind2,
                body: body2,
                source_language: source_language2,
                meta: meta2,
            } => id2 == id && source_language2 == source_language && meta2 == meta && match kind {
                LoopKind::For { target, iter } => match kind2 {
                    LoopKind::For { target: target2, iter: iter2 } => target2 == target
                        && same_tree(*iter, *iter2),
                    _ => false,
                },
                LoopKind::While { condition } => match kind2 {
                    LoopKind::While { condition: condition2 } => same_tree(*condition, *condition2),
                    _ => false,
                },
            } && body2@.len() == body@.len() && forall|i: int|
                0 <= i < body@.len() ==> same_tree(#[trigger] body@[i], body2@[i]),
            _ => false,
        },
        UnifiedHIR::BinOp { id, op, left, right, result_type, source_language, meta } => match b {
            UnifiedHIR::BinOp {
                id: id2,
                op: op2,
                left: left2,
                right: right2,
                result_type: result_type2,
                source_language: source_language2,
                meta: meta2,
            } => id2 == id && op2 == op && result_type2 == result_type && source_language2
                == source_language && meta2 == meta && same_tree(*left, *left2) && same_tree(
                *right,
                *right2,
            ),
            _ => false,
        },
        UnifiedHIR::Variable { .. } => b == a,
        UnifiedHIR::Literal { .. } => b == a,
    }
}

/// Eliminating the boundary of a tree whose boundary was already eliminated
/// changes nothing: running the rewrite twice gives the tree that running it
/// once gave.
pub proof fn lemma_eliminate_idempotent(t: UnifiedHIR, r1: UnifiedHIR, r2: UnifiedHIR)
    requires
        eliminates(t, r1),
        eliminates(r1, r2),
    ensures
        same_tree(r1, r2),
    decreases t,
{
    match t {
        UnifiedHIR::Module { declarations, .. } => {
            let (d1, d2) = match (r1, r2) {
                (
                    UnifiedHIR::Module { declarations: d1, .. },
                    UnifiedHIR::Module { declarations: d2, .. },
                ) => (d1, d2),
                _ => { proof_from_false() },
            };
            assert forall|i: int| 0 <= i < d1@.len() implies same_tree(
                #[trigger] d1@[i],
                d2@[i],
            ) by {
                lemma_eliminate_idempotent(declarations@[i], d1@[i], d2@[i]);
            }
        },
        UnifiedHIR::Function { body, .. } => {
            let (b1, b2) = match (r1, r2) {
                (UnifiedHIR::Function { body: b1, .. }, UnifiedHIR::Function { body: b2, .. }) => (
                    b1,
                    b2,
                ),
                _ => { proof_from_false() },
            };
            assert forall|i: int| 0 <= i < b1@.len() implies same_tree(#[trigger] b1@[i], b2@[i]) by {
                lemma_eliminate_idempotent(body@[i], b1@[i], b2@[i]);
            }
        },
        UnifiedHIR::Call { args, .. } => {
            let (a1, a2) = match (r1, r2) {
                (UnifiedHIR::Call { args: a1, .. }, UnifiedHIR::Call { args: a2, .. }) => (a1, a2),
                _ => { proof_from_false() },
            };
            assert forall|i: int| 0 <= i < a1@.len() implies same_tree(#[trigger] a1@[i], a2@[i]) by {
                lemma_eliminate_idempotent(args@[i], a1@[i], a2@[i]);
            }
        },
        UnifiedHIR::Assign { value, .. } => {
            match (r1, r2) {
                (UnifiedHIR::Assign { value: v1, .. }, UnifiedHIR::Assign { value: v2, .. }) => {
                    lemma_eliminate_idempotent(*value, *v1, *v2);
                },
                _ => {},
            }
        },
        UnifiedHIR::Return { value, .. } => {
            match (value, r1, r2) {
                (
                    Some(v),
                    UnifiedHIR::Return { value: Some(v1), .. },
                    UnifiedHIR::Return { value: Some(v2), .. },
                ) => {
                    lemma_eliminate_idempotent(*v, *v1, *v2);
                },
                _ => {},
            }
        },
        UnifiedHIR::If { condition, then_branch, else_branch, .. } => {
            match (r1, r2) {
                (
                    UnifiedHIR::If { condition: c1, then_branch: t1, else_branch: e1, .. },
                    UnifiedHIR::If { condition: c2, then_branch: t2, else_branch: e2, .. },
                ) => {
                    lemma_eliminate_idempotent(*condition, *c1, *c2);
                    assert forall|i: int| 0 <= i < t1@.len() implies same_tree(
                        #[trigger] t1@[i],
                        t2@[i],
                    ) by {
                        lemma_eliminate_idempotent(then_branch@[i], t1@[i], t2@[i]);
                    }
                    assert forall|i: int| 0 <= i < e1@.len() implies same_tree(
                        #[trigger] e1@[i],
                        e2@[i],
                    ) by {
                        lemma_eliminate_idempotent(else_branch@[i], e1@[i], e2@[i]);
                    }
                },
                _ => {},
            }
        },
        UnifiedHIR::Loop { kind, body, .. } => {
            match (r1, r2) {
                (
                    UnifiedHIR::Loop { kind: k1, body: b1, .. },
                    UnifiedHIR::Loop { kind: k2, body: b2, .. },
                ) => {
                    match (kind, k1, k2) {
                        (
                            LoopKind::For { iter, .. },
                            LoopKind::For { iter: i1, .. },
                            LoopKind::For { iter: i2, .. },
                        ) => {
                            lemma_eliminate_idempotent(*iter, *i1, *i2);
                        },
                        (
                            LoopKind::While { condition },
                            LoopKind::While { condition: c1 },
                            LoopKind::While { condition: c2 },
                        ) => {
                            lemma_eliminate_idempotent(*condition, *c1, *c2);
                        },
                        _ => {},
                    }
                    assert forall|i: int| 0 <= i < b1@.len() implies same_tree(
                        #[trigger] b1@[i],
                        b2@[i],
                    ) by {
                        lemma_eliminate_idempotent(body@[i], b1@[i], b2@[i]);
                    }
                },
                _ => {},
            }
        },
        UnifiedHIR::BinOp { left, right, .. } => {
            match (r1, r2) {
                (
                    UnifiedHIR::BinOp { left: l1, right: q1, .. },
                    UnifiedHIR::BinOp { left: l2, right: q2, .. },
                ) => {
                    lemma_eliminate_idempotent(*left, *l1, *l2);
                    lemma_eliminate_idempotent(*right, *q1, *q2);
                },
                _ => {},
            }
        },
        _ => {},
    }
}

/// Eliminating the boundary twice in a row is one elimination.
pub proof fn lemma_eliminate_compose(t: UnifiedHIR, r1: UnifiedHIR, r2: UnifiedHIR)
    requires
        eliminates(t, r1),
        eliminates(r1, r2),
    ensures
        eliminates(t, r2),
    decreases t,
{
    match t {
        UnifiedHIR::Module { declarations, .. } => {
            let (d1, d2) = match (r1, r2) {
                (
                    UnifiedHIR::Module { declarations: d1, .. },
                    UnifiedHIR::Module { declarations: d2, .. },
                ) => (d1, d2),
                _ => { proof_from_false() },
            };
            assert forall|i: int| 0 <= i < d1@.len() implies eliminates(
                #[trigger] declarations@[i],
                d2@[i],
            ) by {
                lemma_eliminate_compose(declarations@[i], d1@[i], d2@[i]);
            }
        },
        UnifiedHIR::Function { body, .. } => {
            let (b1, b2) = match (r1, r2) {
                (UnifiedHIR::Function { body: b1, .. }, UnifiedHIR::Function { body: b2, .. }) => (
                    b1,
                    b2,
                ),
                _ => { proof_from_false() },
            };
            assert forall|i: int| 0 <= i < b1@.len() implies eliminates(#[trigger] body@[i], b2@[i]) by {
                lemma_eliminate_compose(body@[i], b1@[i], b2@[i]);
            }
        },
        UnifiedHIR::Call { args, .. } => {
            let (a1, a2) = match (r1, r2) {
                (UnifiedHIR::Call { args: a1, .. }, UnifiedHIR::Call { args: a2, .. }) => (a1, a2),
                _ => { proof_from_false() },
            };
            assert forall|i: int| 0 <= i < a1@.len() implies eliminates(#[trigger] args@[i], a2@[i]) by {
                lemma_eliminate_compose(args@[i], a1@[i], a2@[i]);
            }
        },
        UnifiedHIR::Assign { value, .. } => {
            match (r1, r2) {
                (UnifiedHIR::Assign { value: v1, .. }, UnifiedHIR::Assign { value: v2, .. }) => {
                    lemma_eliminate_compose(*value, *v1, *v2);
                },
                _ => {},
            }
        },
        UnifiedHIR::Return { value, .. } => {
            match (value, r1, r2) {
                (
                    Some(v),
                    UnifiedHIR::Return { value: Some(v1), .. },
                    UnifiedHIR::Return { value: Some(v2), .. },
                ) => {
                    lemma_eliminate_compose(*v, *v1, *v2);
                },
                _ => {},
            }
        },
        UnifiedHIR::If { condition, then_branch, else_branch, .. } => {
            match (r1, r2) {
                (
                    UnifiedHIR::If { condition: c1, then_branch: t1, else_branch: e1, .. },
                    UnifiedHIR::If { condition: c2, then_branch: t2, else_branch: e2, .. },
                ) => {
                    lemma_eliminate_compose(*condition, *c1, *c2);
                    assert forall|i: int| 0 <= i < t1@.len() implies eliminates(
                        #[trigger] then_branch@[i],
                        t2@[i],
                    ) by {
                        lemma_eliminate_compose(then_branch@[i], t1@[i], t2@[i]);
                    }
                    assert forall|i: int| 0 <= i < e1@.len() implies eliminates(
                        #[trigger] else_branch@[i],
                        e2@[i],
                    ) by {
                        lemma_eliminate_compose(else_branch@[i], e1@[i], e2@[i]);
                    }
                },
                _ => {},
            }
        },
        UnifiedHIR::Loop { kind, body, .. } => {
            match (r1, r2) {
                (
                    UnifiedHIR::Loop { kind: k1, body: b1, .. },
                    UnifiedHIR::Loop { kind: k2, body: b2, .. },
                ) => {
                    match (kind, k1, k2) {
                        (
                            LoopKind::For { iter, .. },
                            LoopKind::For { iter: i1, .. },
                            LoopKind::For { iter: i2, .. },
                        ) => {
                            lemma_eliminate_compose(*iter, *i1, *i2);
                        },
                        (
                            LoopKind::While { condition },
                            LoopKind::While { condition: c1 },
                            LoopKind::While { condition: c2 },
                        ) => {
                            lemma_eliminate_compose(*condition, *c1, *c2);
                        },
                        _ => {},
                    }
                    assert forall|i: int| 0 <= i < b1@.len() implies eliminates(
                        #[trigger] body@[i],
                        b2@[i],
                    ) by {
                        lemma_eliminate_compose(body@[i], b1@[i], b2@[i]);
                    }
                },
                _ => {},
            }
        },
        UnifiedHIR::BinOp { left, right, .. } => {
            match (r1, r2) {
                (
                    UnifiedHIR::BinOp { left: l1, right: q1, .. },
                    UnifiedHIR::BinOp { left: l2, right: q2, .. },
                ) => {
                    lemma_eliminate_compose(*left, *l1, *l2);
                    lemma_eliminate_compose(*right, *q1, *q2);
                },
                _ => {},
            }
        },
        _ => {},
    }
}

/// Every tree has the same shape and values as itself.
pub proof fn lemma_same_tree_refl(t: UnifiedHIR)
    ensures
        same_tree(t, t),
    decreases t,
{
    match t {
        UnifiedHIR::Module { declarations, .. } => {
            assert forall|i: int| 0 <= i < declarations@.len() implies same_tree(
                #[trigger] declarations@[i],
                declarations@[i],
            ) by {
                lemma_same_tree_refl(declarations@[i]);
            }
        },
        UnifiedHIR::Function { body, .. } => {
            assert forall|i: int| 0 <= i < body@.len() implies same_tree(
                #[trigger] body@[i],
                body@[i],
            ) by {
                lemma_same_tree_refl(body@[i]);
            }
        },
        UnifiedHIR::Call { args, .. } => {
            assert forall|i: int| 0 <= i < args@.len() implies same_tree(
                #[trigger] args@[i],
                args@[i],
            ) by {
                lemma_same_tree_refl(args@[i]);
            }
        },
        UnifiedHIR::Assign { value, .. } => lemma_same_tree_refl(*value),
        UnifiedHIR::Return { value, .. } => {
            if let Some(v) = value {
                lemma_same_tree_refl(*v);
            }
        },
        UnifiedHIR::If { condition, then_branch, else_branch, .. } => {
            lemma_same_tree_refl(*condition);
            assert forall|i: int| 0 <= i < then_branch@.len() implies same_tree(
                #[trigger] then_branch@[i],
                then_branch@[i],
            ) by {
                lemma_same_tree_refl(then_branch@[i]);
            }
            assert forall|i: int| 0 <= i < else_branch@.len() implies same_tree(
                #[trigger] else_branch@[i],
                else_branch@[i],
            ) by {
                lemma_same_tree_refl(else_branch@[i]);
            }
        },
        UnifiedHIR::Loop { kind, body, .. } => {
            match kind {
                LoopKind::For { iter, .. } => lemma_same_tree_refl(*iter),
                LoopKind::While { condition } => lemma_same_tree_refl(*condition),
            }
            assert forall|i: int| 0 <= i < body@.len() implies same_tree(
                #[trigger] body@[i],
                body@[i],
            ) by {
                lemma_same_tree_refl(body@[i]);
            }
        },
        UnifiedHIR::BinOp { left, right, .. } => {
            lemma_same_tree_refl(*left);
            lemma_same_tree_refl(*right);
        },
        _ => {},
    }
}

/// Eliminates the boundary in every tree of a list.
#[verifier::loop_isolation(false)]
fn eliminate_all(v: Vec<UnifiedHIR>) -> (r: Vec<UnifiedHIR>)
    ensures
        r@.len() == v@.len(),
        forall|i: int| 0 <= i < v@.len() ==> eliminates(#[trigger] v@[i], r@[i]),
    decreases v,
{
    let ghost orig = v;
    let n = v.len();
    let mut rest = v;
    let mut out: Vec<UnifiedHIR> = Vec::new();
    let mut k: usize = 0;
    while rest.len() > 0
        invariant
            n == orig@.len(),
            k <= orig@.len(),
            rest@ == orig@.subrange(k as int, orig@.len() as int),
            out@.len() == k,
            forall|i: int| 0 <= i < k ==> eliminates(#[trigger] orig@[i], out@[i]),
        decreases rest@.len(),
    {
        let x = rest.remove(0);
        assert(x == orig@[k as int]);
        assert(decreases_to!(orig => x));
        out.push(x.eliminate_boundary());
        k += 1;
        assert(rest@ =~= orig@.subrange(k as int, orig@.len() as int));
    }
    out
}

impl UnifiedHIR {
    /// The tree with its boundary eliminated: every call, at any depth, has
    /// its cross mapping marked as eliminated and its target language moved
    /// to the emitted language when it differs from the call's own.
    pub fn eliminate_boundary(self) -> (r: Self)
        ensures
            eliminates(self, r),
        decreases self,
    {
        match self {
            UnifiedHIR::Module { name, source_language, declarations, meta } => UnifiedHIR::Module {
                name,
                source_language,
                declarations: eliminate_all(declarations),
                meta,
            },
            UnifiedHIR::Function {
                id,
                name,
                params,
                return_type,
                body,
                source_language,
                cross_mapping,
                meta,
            } => UnifiedHIR::Function {
                id,
                name,
                params,
                return_type,
                body: eliminate_all(body),
                source_language,
                cross_mapping,
                meta,
            },
            UnifiedHIR::Call {
                id,
                target_language,
                callee,
                args,
                inferred_type,
                source_language,
                cross_mapping,
                meta,
            } => {
                let new_mapping = match cross_mapping {
                    Some(m) => Some(CrossMapping { boundary_eliminated: true, ..m }),
                    None => None,
                };
                let new_target = if source_language == target_language {
                    target_language
                } else {
                    Language::Rust
                };
                UnifiedHIR::Call {
                    id,
                    target_language: new_target,
                    callee,
                    args: eliminate_all(args),
                    inferred_type,
                    source_language,
                    cross_mapping: new_mapping,
                    meta,
                }
            },
            UnifiedHIR::Assign { id, target, value, var_type, source_language, meta } => {
                UnifiedHIR::Assign {
                    id,
                    target,
                    value: Box::new((*value).eliminate_boundary()),
                    var_type,
                    source_language,
                    meta,
                }
            },
            UnifiedHIR::Return { id, value, source_language, meta } => {
                let new_value = match value {
                    Some(v) => Some(Box::new((*v).eliminate_boundary())),
                    None => None,
                };
                UnifiedHIR::Return { id, value: new_value, source_language, meta }
            },
            UnifiedHIR::If { id, condition, then_branch, else_branch, source_language, meta } => {
                UnifiedHIR::If {
                    id,
                    condition: Box::new((*condition).eliminate_boundary()),
                    then_branch: eliminate_all(then_branch),
                    else_branch: eliminate_all(else_branch),
                    source_language,
                    meta,
                }
            },
            UnifiedHIR::Loop { id, kind, body, source_language, meta } => {
                let new_kind = match kind {
                    LoopKind::For { target, iter } => LoopKind::For {
                        target,
                        iter: Box::new((*iter).eliminate_boundary()),
                    },
                    LoopKind::While { condition } => LoopKind::While {
                        condition: Box::new((*condition).eliminate_boundary()),
                    },
                };
                UnifiedHIR::Loop {
                    id,
                    kind: new_kind,
                    body: eliminate_all(body),
                    source_language,
                    meta,
                }
            },
            UnifiedHIR::BinOp { id, op, left, right, result_type, source_language, meta } => {
                UnifiedHIR::BinOp {
                    id,
                    op,
                    left: Box::new((*left).eliminate_boundary()),
                    right: Box::new((*right).eliminate_boundary()),
                    result_type,
                    source_language,
                    meta,
                }
            },
            other => other,
        }
    }

    /// The handle of the node; a module has none.
    pub fn id(&self) -> (r: Option<NodeId>)
        ensures
            r == unified_node_id(*self),
    {
        match self {
            UnifiedHIR::Module { .. } => None,
            UnifiedHIR::Function { id, .. } => Some(*id),
            UnifiedHIR::Call { id, .. } => Some(*id),
            UnifiedHIR::Variable { id, .. } => Some(*id),
            UnifiedHIR::Assign { id, .. } => Some(*id),
            UnifiedHIR::Return { id, .. } => Some(*id),
            UnifiedHIR::If { id, .. } => Some(*id),
            UnifiedHIR::Loop { id, .. } => Some(*id),
            UnifiedHIR::BinOp { id, .. } => Some(*id),
            UnifiedHIR::Literal { id, .. } => Some(*id),
        }
    }
}

} // verus!
