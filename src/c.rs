//! Nodes of the native representation: the functions of the front-end
//! runtime's implementation, as its parser adapter hands them over.

use vstd::prelude::*;

use crate::metadata::Metadata;
use crate::text::{has_prefix, starts_with};
use crate::types::Type;
use crate::{NodeId, Visibility};

verus! {

/// A node of the native representation.
#[derive(Debug, PartialEq)]
pub enum CHIR {
    TranslationUnit { name: String, declarations: Vec<CHIR>, meta: Metadata },
    Function {
        id: NodeId,
        name: String,
        return_type: Type,
        params: Vec<Parameter>,
        body: Vec<CHIR>,
        storage_class: StorageClass,
        visibility: Visibility,
        meta: Metadata,
    },
    Struct { id: NodeId, name: String, fields: Vec<Field>, meta: Metadata },
    Call {
        id: NodeId,
        callee: Box<CHIR>,
        args: Vec<CHIR>,
        inferred_type: Option<Type>,
        meta: Metadata,
    },
    Variable { id: NodeId, name: String, var_type: Option<Type>, meta: Metadata },
    VarDecl {
        id: NodeId,
        name: String,
        var_type: Type,
        init: Option<Box<CHIR>>,
        storage_class: StorageClass,
        meta: Metadata,
    },
    Assign { id: NodeId, lhs: Box<CHIR>, rhs: Box<CHIR>, meta: Metadata },
    Return { id: NodeId, value: Option<Box<CHIR>>, meta: Metadata },
    If {
        id: NodeId,
        condition: Box<CHIR>,
        then_branch: Vec<CHIR>,
        else_branch: Vec<CHIR>,
        meta: Metadata,
    },
    For {
        id: NodeId,
        init: Option<Box<CHIR>>,
        condition: Option<Box<CHIR>>,
        increment: Option<Box<CHIR>>,
        body: Vec<CHIR>,
        meta: Metadata,
    },
    While { id: NodeId, condition: Box<CHIR>, body: Vec<CHIR>, meta: Metadata },
    BinOp {
        id: NodeId,
        op: BinOp,
        left: Box<CHIR>,
        right: Box<CHIR>,
        inferred_type: Option<Type>,
        meta: Metadata,
    },
    UnaryOp {
        id: NodeId,
        op: UnaryOp,
        operand: Box<CHIR>,
        inferred_type: Option<Type>,
        meta: Metadata,
    },
    Literal { id: NodeId, value: Literal, meta: Metadata },
    /// Member access, through a pointer (`->`) or on a value (`.`).
    FieldAccess {
        id: NodeId,
        object: Box<CHIR>,
        field: String,
        is_pointer: bool,
        inferred_type: Option<Type>,
        meta: Metadata,
    },
    ArraySubscript {
        id: NodeId,
        array: Box<CHIR>,
        index: Box<CHIR>,
        inferred_type: Option<Type>,
        meta: Metadata,
    },
    Cast { id: NodeId, target_type: Type, expr: Box<CHIR>, meta: Metadata },
    Deref { id: NodeId, pointer: Box<CHIR>, inferred_type: Option<Type>, meta: Metadata },
    AddrOf { id: NodeId, var: Box<CHIR>, meta: Metadata },
    /// A macro or intrinsic of the front-end runtime, such as a raw size read.
    CPythonMacro {
        id: NodeId,
        name: String,
        args: Vec<CHIR>,
        inferred_type: Option<Type>,
        meta: Metadata,
    },
}

/// A parameter of a native function.
#[derive(Debug, PartialEq, Eq)]
pub struct Parameter {
    pub name: String,
    pub param_type: Type,
}

/// A field of a native struct.
#[derive(Debug, PartialEq, Eq)]
pub struct Field {
    pub name: String,
    pub field_type: Type,
}

/// Storage classes of native declarations.
#[derive(Debug, Clone, Copy, PartialEq, Eq, Structural)]
pub enum StorageClass {
    Unspecified,
    Static,
    Extern,
    Typedef,
    Auto,
    Register,
}

/// Binary operators of the native language.
#[derive(Debug, Clone, Copy, PartialEq, Eq, Structural)]
pub enum BinOp {
    Add,
    Sub,
    Mul,
    Div,
    Mod,
    Eq,
    Ne,
    Lt,
    Le,
    Gt,
    Ge,
    And,
    Or,
    BitAnd,
    BitOr,
    BitXor,
    Shl,
    Shr,
}

/// Unary operators of the native language.
#[derive(Debug, Clone, Copy, PartialEq, Eq, Structural)]
pub enum UnaryOp {
    Not,
    Neg,
    Pos,
    BitNot,
}

/// Literal values of the native language. A float is held as the bit
/// pattern of its IEEE 754 double.
#[derive(Debug, Clone, PartialEq, Eq)]
pub enum Literal {
    Int(i64),
    UInt(u64),
    Float(u64),
    Str(String),
    Char(char),
    Null,
}

/// The handle of a node; a translation unit has none.
pub open spec fn c_node_id(n: CHIR) -> Option<NodeId> {
    match n {
        CHIR::TranslationUnit { .. } => None,
        CHIR::Function { id, .. } => Some(id),
        CHIR::Struct { id, .. } => Some(id),
        CHIR::Call { id, .. } => Some(id),
        CHIR::Variable { id, .. } => Some(id),
        CHIR::VarDecl { id, .. } => Some(id),
        CHIR::Assign { id, .. } => Some(id),
        CHIR::Return { id, .. } => Some(id),
        CHIR::If { id, .. } => Some(id),
        CHIR::For { id, .. } => Some(id),
        CHIR::While { id, .. } => Some(id),
        CHIR::BinOp { id, .. } => Some(id),
        CHIR::UnaryOp { id, .. } => Some(id),
        CHIR::Literal { id, .. } => Some(id),
        CHIR::FieldAccess { id, .. } => Some(id),
        CHIR::ArraySubscript { id, .. } => Some(id),
        CHIR::Cast { id, .. } => Some(id),
        CHIR::Deref { id, .. } => Some(id),
        CHIR::AddrOf { id, .. } => Some(id),
        CHIR::CPythonMacro { id, .. } => Some(id),
    }
}

/// The metadata of a node.
pub open spec fn c_node_meta(n: CHIR) -> Metadata {
    match n {
        CHIR::TranslationUnit { meta, .. } => meta,
        CHIR::Function { meta, .. } => meta,
        CHIR::Struct { meta, .. } => meta,
        CHIR::Call { meta, .. } => meta,
        CHIR::Variable { meta, .. } => meta,
        CHIR::VarDecl { meta, .. } => meta,
        CHIR::Assign { meta, .. } => meta,
        CHIR::Return { meta, .. } => meta,
        CHIR::If { meta, .. } => meta,
        CHIR::For { meta, .. } => meta,
        CHIR::While { meta, .. } => meta,
        CHIR::BinOp { meta, .. } => meta,
        CHIR::UnaryOp { meta, .. } => meta,
        CHIR::Literal { meta, .. } => meta,
        CHIR::FieldAccess { meta, .. } => meta,
        CHIR::ArraySubscript { meta, .. } => meta,
        CHIR::Cast { meta, .. } => meta,
        CHIR::Deref { meta, .. } => meta,
        CHIR::AddrOf { meta, .. } => meta,
        CHIR::CPythonMacro { meta, .. } => meta,
    }
}

/// The name of a node's kind, as diagnostics print it.
pub open spec fn c_kind_text(n: CHIR) -> Seq<char> {
    match n {
        CHIR::TranslationUnit { .. } => "TranslationUnit"@,
        CHIR::Function { .. } => "Function"@,
        CHIR::Struct { .. } => "Struct"@,
        CHIR::Call { .. } => "Call"@,
        CHIR::Variable { .. } => "Variable"@,
        CHIR::VarDecl { .. } => "VarDecl"@,
        CHIR::Assign { .. } => "Assign"@,
        CHIR::Return { .. } => "Return"@,
        CHIR::If { .. } => "If"@,
        CHIR::For { .. } => "For"@,
        CHIR::While { .. } => "While"@,
        CHIR::BinOp { .. } => "BinOp"@,
        CHIR::UnaryOp { .. } => "UnaryOp"@,
        CHIR::Literal { .. } => "Literal"@,
        CHIR::FieldAccess { .. } => "FieldAccess"@,
        CHIR::ArraySubscript { .. } => "ArraySubscript"@,
        CHIR::Cast { .. } => "Cast"@,
        CHIR::Deref { .. } => "Deref"@,
        CHIR::AddrOf { .. } => "AddrOf"@,
        CHIR::CPythonMacro { .. } => "CPythonMacro"@,
    }
}

/// A callee name that follows the front-end runtime's naming convention.
pub open spec fn is_runtime_api_name(name: Seq<char>) -> bool {
    has_prefix(name, "Py"@) || has_prefix(name, "_Py"@)
}

/// A node that reaches the front-end runtime's own interface: a call of a
/// simply named function that follows its naming convention, or one of its
/// macros.
pub open spec fn is_runtime_api(n: CHIR) -> bool {
    match n {
        CHIR::Call { callee, .. } => match *callee {
            CHIR::Variable { name, .. } => is_runtime_api_name(name@),
            _ => false,
        },
        CHIR::CPythonMacro { .. } => true,
        _ => false,
    }
}

impl CHIR {
    /// The handle of the node; a translation unit has none.
    pub fn id(&self) -> (r: Option<NodeId>)
        ensures
            r == c_node_id(*self),
    {
        match self {
            CHIR::TranslationUnit { .. } => None,
            CHIR::Function { id, .. } => Some(*id),
            CHIR::Struct { id, .. } => Some(*id),
            CHIR::Call { id, .. } => Some(*id),
            CHIR::Variable { id, .. } => Some(*id),
            CHIR::VarDecl { id, .. } => Some(*id),
            CHIR::Assign { id, .. } => Some(*id),
            CHIR::Return { id, .. } => Some(*id),
            CHIR::If { id, .. } => Some(*id),
            CHIR::For { id, .. } => Some(*id),
            CHIR::While { id, .. } => Some(*id),
            CHIR::BinOp { id, .. } => Some(*id),
            CHIR::UnaryOp { id, .. } => Some(*id),
            CHIR::Literal { id, .. } => Some(*id),
            CHIR::FieldAccess { id, .. } => Some(*id),
            CHIR::ArraySubscript { id, .. } => Some(*id),
            CHIR::Cast { id, .. } => Some(*id),
            CHIR::Deref { id, .. } => Some(*id),
            CHIR::AddrOf { id, .. } => Some(*id),
            CHIR::CPythonMacro { id, .. } => Some(*id),
        }
    }

    /// The metadata of the node.
    pub fn metadata(&self) -> (r: &Metadata)
        ensures
            *r == c_node_meta(*self),
    {
        match self {
            CHIR::TranslationUnit { meta, .. } => meta,
            CHIR::Function { meta, .. } => meta,
            CHIR::Struct { meta, .. } => meta,
            CHIR::Call { meta, .. } => meta,
            CHIR::Variable { meta, .. } => meta,
            CHIR::VarDecl { meta, .. } => meta,
            CHIR::Assign { meta, .. } => meta,
            CHIR::Return { meta, .. } => meta,
            CHIR::If { meta, .. } => meta,
            CHIR::For { meta, .. } => meta,
            CHIR::While { meta, .. } => meta,
            CHIR::BinOp { meta, .. } => meta,
            CHIR::UnaryOp { meta, .. } => meta,
            CHIR::Literal { meta, .. } => meta,
            CHIR::FieldAccess { meta, .. } => meta,
            CHIR::ArraySubscript { meta, .. } => meta,
            CHIR::Cast { meta, .. } => meta,
            CHIR::Deref { meta, .. } => meta,
            CHIR::AddrOf { meta, .. } => meta,
            CHIR::CPythonMacro { meta, .. } => meta,
        }
    }

    /// The name of the node's kind.
    pub fn kind_name(&self) -> (r: &'static str)
        ensures
            r@ == c_kind_text(*self),
    {
        match self {
            CHIR::TranslationUnit { .. } => "TranslationUnit",
            CHIR::Function { .. } => "Function",
            CHIR::Struct { .. } => "Struct",
            CHIR::Call { .. } => "Call",
            CHIR::Variable { .. } => "Variable",
            CHIR::VarDecl { .. } => "VarDecl",
            CHIR::Assign { .. } => "Assign",
            CHIR::Return { .. } => "Return",
            CHIR::If { .. } => "If",
            CHIR::For { .. } => "For",
            CHIR::While { .. } => "While",
            CHIR::BinOp { .. } => "BinOp",
            CHIR::UnaryOp { .. } => "UnaryOp",
            CHIR::Literal { .. } => "Literal",
            CHIR::FieldAccess { .. } => "FieldAccess",
            CHIR::ArraySubscript { .. } => "ArraySubscript",
            CHIR::Cast { .. } => "Cast",
            CHIR::Deref { .. } => "Deref",
            CHIR::AddrOf { .. } => "AddrOf",
            CHIR::CPythonMacro { .. } => "CPythonMacro",
        }
    }

    /// Whether the node reaches the front-end runtime's own interface.
    pub fn is_cpython_api(&self) -> (r: bool)
        ensures
            r == is_runtime_api(*self),
    {
        match self {
            CHIR::Call { callee, .. } => match &**callee {
                CHIR::Variable { name, .. } => starts_with(name.as_str(), "Py") || starts_with(
                    name.as_str(),
                    "_Py",
                ),
                _ => false,
            },
            CHIR::CPythonMacro { .. } => true,
            _ => false,
        }
    }
}

} // verus!
