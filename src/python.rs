//! Nodes of the front-end representation: calls and definitions of the
//! dynamic language, as its parser adapter hands them over.

use vstd::prelude::*;

use crate::metadata::Metadata;
use crate::types::Type;
use crate::{NodeId, Visibility};

verus! {

/// A node of the front-end representation.
#[derive(Debug, PartialEq)]
pub enum PythonHIR {
    Module { name: String, body: Vec<PythonHIR>, meta: Metadata },
    Function {
        id: NodeId,
        name: String,
        params: Vec<Parameter>,
        return_type: Option<Type>,
        body: Vec<PythonHIR>,
        decorators: Vec<String>,
        visibility: Visibility,
        meta: Metadata,
    },
    Class {
        id: NodeId,
        name: String,
        bases: Vec<String>,
        body: Vec<PythonHIR>,
        decorators: Vec<String>,
        meta: Metadata,
    },
    Call {
        id: NodeId,
        callee: Box<PythonHIR>,
        args: Vec<PythonHIR>,
        kwargs: Vec<(String, PythonHIR)>,
        inferred_type: Option<Type>,
        meta: Metadata,
    },
    Variable { id: NodeId, name: String, inferred_type: Option<Type>, meta: Metadata },
    Assign {
        id: NodeId,
        target: String,
        value: Box<PythonHIR>,
        type_annotation: Option<Type>,
        meta: Metadata,
    },
    Return { id: NodeId, value: Option<Box<PythonHIR>>, meta: Metadata },
    If {
        id: NodeId,
        condition: Box<PythonHIR>,
        then_branch: Vec<PythonHIR>,
        else_branch: Vec<PythonHIR>,
        meta: Metadata,
    },
    For {
        id: NodeId,
        target: String,
        iter: Box<PythonHIR>,
        body: Vec<PythonHIR>,
        orelse: Vec<PythonHIR>,
        meta: Metadata,
    },
    While {
        id: NodeId,
        condition: Box<PythonHIR>,
        body: Vec<PythonHIR>,
        orelse: Vec<PythonHIR>,
        meta: Metadata,
    },
    BinOp {
        id: NodeId,
        op: BinOp,
        left: Box<PythonHIR>,
        right: Box<PythonHIR>,
        inferred_type: Option<Type>,
        meta: Metadata,
    },
    UnaryOp {
        id: NodeId,
        op: UnaryOp,
        operand: Box<PythonHIR>,
        inferred_type: Option<Type>,
        meta: Metadata,
    },
    Literal { id: NodeId, value: Literal, meta: Metadata },
    ListComp {
        id: NodeId,
        element: Box<PythonHIR>,
        generators: Vec<Comprehension>,
        meta: Metadata,
    },
    Attribute {
        id: NodeId,
        object: Box<PythonHIR>,
        attr: String,
        inferred_type: Option<Type>,
        meta: Metadata,
    },
    Subscript {
        id: NodeId,
        object: Box<PythonHIR>,
        index: Box<PythonHIR>,
        inferred_type: Option<Type>,
        meta: Metadata,
    },
}

/// A parameter of a front-end function.
#[derive(Debug, PartialEq, Eq)]
pub struct Parameter {
    pub name: String,
    pub type_annotation: Option<Type>,
    /// Source text of the default value.
    pub default: Option<String>,
}

/// Binary operators of the front-end language.
#[derive(Debug, Clone, Copy, PartialEq, Eq, Structural)]
pub enum BinOp {
    Add,
    Sub,
    Mul,
    Div,
    FloorDiv,
    Mod,
    Pow,
    Eq,
    NotEq,
    Lt,
    Le,
    Gt,
    Ge,
    And,
    Or,
}

/// Unary operators of the front-end language.
#[derive(Debug, Clone, Copy, PartialEq, Eq, Structural)]
pub enum UnaryOp {
    Not,
    Neg,
    Pos,
}

/// Literal values of the front-end language. A float is held as the bit
/// pattern of its IEEE 754 double.
#[derive(Debug, Clone, PartialEq, Eq)]
pub enum Literal {
    Int(i64),
    Float(u64),
    Str(String),
    Bool(bool),
    NoneValue,
}

/// One `for ... in ... if ...` clause of a list comprehension.
#[derive(Debug, PartialEq)]
pub struct Comprehension {
    pub target: String,
    pub iter: Box<PythonHIR>,
    pub ifs: Vec<PythonHIR>,
}

/// The handle of a node; a module has none.
pub open spec fn python_node_id(n: PythonHIR) -> Option<NodeId> {
    match n {
        PythonHIR::Module { .. } => None,
        PythonHIR::Function { id, .. } => Some(id),
        PythonHIR::Class { id, .. } => Some(id),
        PythonHIR::Call { id, .. } => Some(id),
        PythonHIR::Variable { id, .. } => Some(id),
        PythonHIR::Assign { id, .. } => Some(id),
        PythonHIR::Return { id, .. } => Some(id),
        PythonHIR::If { id, .. } => Some(id),
        PythonHIR::For { id, .. } => Some(id),
        PythonHIR::While { id, .. } => Some(id),
        PythonHIR::BinOp { id, .. } => Some(id),
        PythonHIR::UnaryOp { id, .. } => Some(id),
        PythonHIR::Literal { id, .. } => Some(id),
        PythonHIR::ListComp { id, .. } => Some(id),
        PythonHIR::Attribute { id, .. } => Some(id),
        PythonHIR::Subscript { id, .. } => Some(id),
    }
}

/// The metadata of a node.
pub open spec fn python_node_meta(n: PythonHIR) -> Metadata {
    match n {
        PythonHIR::Module { meta, .. } => meta,
        PythonHIR::Function { meta, .. } => meta,
        PythonHIR::Class { meta, .. } => meta,
        PythonHIR::Call { meta, .. } => meta,
        PythonHIR::Variable { meta, .. } => meta,
        PythonHIR::Assign { meta, .. } => meta,
        PythonHIR::Return { meta, .. } => meta,
        PythonHIR::If { meta, .. } => meta,
        PythonHIR::For { meta, .. } => meta,
        PythonHIR::While { meta, .. } => meta,
        PythonHIR::BinOp { meta, .. } => meta,
        PythonHIR::UnaryOp { meta, .. } => meta,
        PythonHIR::Literal { meta, .. } => meta,
        PythonHIR::ListComp { meta, .. } => meta,
        PythonHIR::Attribute { meta, .. } => meta,
        PythonHIR::Subscript { meta, .. } => meta,
    }
}

/// The name of a node's kind, as diagnostics print it.
pub open spec fn python_kind_text(n: PythonHIR) -> Seq<char> {
    match n {
        PythonHIR::Module { .. } => "Module"@,
        PythonHIR::Function { .. } => "Function"@,
        PythonHIR::Class { .. } => "Class"@,
        PythonHIR::Call { .. } => "Call"@,
        PythonHIR::Variable { .. } => "Variable"@,
        PythonHIR::Assign { .. } => "Assign"@,
        PythonHIR::Return { .. } => "Return"@,
        PythonHIR::If { .. } => "If"@,
        PythonHIR::For { .. } => "For"@,
        PythonHIR::While { .. } => "While"@,
        PythonHIR::BinOp { .. } => "BinOp"@,
        PythonHIR::UnaryOp { .. } => "UnaryOp"@,
        PythonHIR::Literal { .. } => "Literal"@,
        PythonHIR::ListComp { .. } => "ListComp"@,
        PythonHIR::Attribute { .. } => "Attribute"@,
        PythonHIR::Subscript { .. } => "Subscript"@,
    }
}

impl PythonHIR {
    /// The handle of the node; a module has none.
    pub fn id(&self) -> (r: Option<NodeId>)
        ensures
            r == python_node_id(*self),
    {
        match self {
            PythonHIR::Module { .. } => None,
            PythonHIR::Function { id, .. } => Some(*id),
            PythonHIR::Class { id, .. } => Some(*id),
            PythonHIR::Call { id, .. } => Some(*id),
            PythonHIR::Variable { id, .. } => Some(*id),
            PythonHIR::Assign { id, .. } => Some(*id),
            PythonHIR::Return { id, .. } => Some(*id),
            PythonHIR::If { id, .. } => Some(*id),
            PythonHIR::For { id, .. } => Some(*id),
            PythonHIR::While { id, .. } => Some(*id),
            PythonHIR::BinOp { id, .. } => Some(*id),
            PythonHIR::UnaryOp { id, .. } => Some(*id),
            PythonHIR::Literal { id, .. } => Some(*id),
            PythonHIR::ListComp { id, .. } => Some(*id),
            PythonHIR::Attribute { id, .. } => Some(*id),
            PythonHIR::Subscript { id, .. } => Some(*id),
        }
    }

    /// The metadata of the node.
    pub fn metadata(&self) -> (r: &Metadata)
        ensures
            *r == python_node_meta(*self),
    {
        match self {
            PythonHIR::Module { meta, .. } => meta,
            PythonHIR::Function { meta, .. } => meta,
            PythonHIR::Class { meta, .. } => meta,
            PythonHIR::Call { meta, .. } => meta,
            PythonHIR::Variable { meta, .. } => meta,
            PythonHIR::Assign { meta, .. } => meta,
            PythonHIR::Return { meta, .. } => meta,
            PythonHIR::If { meta, .. } => meta,
            PythonHIR::For { meta, .. } => meta,
            PythonHIR::While { meta, .. } => meta,
            PythonHIR::BinOp { meta, .. } => meta,
            PythonHIR::UnaryOp { meta, .. } => meta,
            PythonHIR::Literal { meta, .. } => meta,
            PythonHIR::ListComp { meta, .. } => meta,
            PythonHIR::Attribute { meta, .. } => meta,
            PythonHIR::Subscript { meta, .. } => meta,
        }
    }

    /// The name of the node's kind.
    pub fn kind_name(&self) -> (r: &'static str)
        ensures
            r@ == python_kind_text(*self),
    {
        match self {
            PythonHIR::Module { .. } => "Module",
            PythonHIR::Function { .. } => "Function",
            PythonHIR::Class { .. } => "Class",
            PythonHIR::Call { .. } => "Call",
            PythonHIR::Variable { .. } => "Variable",
            PythonHIR::Assign { .. } => "Assign",
            PythonHIR::Return { .. } => "Return",
            PythonHIR::If { .. } => "If",
            PythonHIR::For { .. } => "For",
            PythonHIR::While { .. } => "While",
            PythonHIR::BinOp { .. } => "BinOp",
            PythonHIR::UnaryOp { .. } => "UnaryOp",
            PythonHIR::Literal { .. } => "Literal",
            PythonHIR::ListComp { .. } => "ListComp",
            PythonHIR::Attribute { .. } => "Attribute",
            PythonHIR::Subscript { .. } => "Subscript",
        }
    }
}

} // verus!
