//! The type bridge: one type algebra spanning the front-end's dynamic types,
//! the runtime's native types and the emitted systems-language types, with the
//! compatibility relation used during unification.

use vstd::prelude::*;

use crate::text::{decimal, push_decimal};

verus! {

/// A type in any of the three universes.
#[derive(Debug, PartialEq, Eq, Hash)]
pub enum Type {
    /// A front-end (dynamic) type.
    Python(PythonType),
    /// A native type.
    C(CType),
    /// An emitted systems-language type.
    Rust(RustType),
    /// A generic parameter with its bounds.
    Generic { name: String, bounds: Vec<String> },
    /// A function type.
    Function { params: Vec<Type>, return_type: Box<Type> },
    /// Not known: compatible with every type.
    Unknown,
}

/// Front-end built-in types.
#[derive(Debug, PartialEq, Eq, Hash)]
pub enum PythonType {
    Int,
    Float,
    Str,
    Bool,
    List(Box<Type>),
    Dict { key: Box<Type>, value: Box<Type> },
    Tuple(Vec<Type>),
    SetOf(Box<Type>),
    NoneType,
    Any,
    Class(String),
}

/// Native static types.
#[derive(Debug, PartialEq, Eq, Hash)]
pub enum CType {
    Void,
    Char,
    Int,
    Long,
    SizeT,
    Float,
    Double,
    Pointer(Box<CType>),
    Array { element: Box<CType>, size: Option<usize> },
    Struct(String),
    Union(String),
    Typedef(String),
    CPython(CPythonType),
}

/// Native types that stand for the front-end runtime's own objects.
#[derive(Debug, Clone, Copy, PartialEq, Eq, Hash, Structural)]
pub enum CPythonType {
    PyObject,
    PyListObject,
    PyDictObject,
    PyTupleObject,
    PyTypeObject,
    PySsizeT,
}

/// Emitted systems-language types.
#[derive(Debug, PartialEq, Eq, Hash)]
pub enum RustType {
    Int { bits: IntSize, signed: bool },
    Float { bits: u8 },
    Bool,
    String,
    Str,
    Vec(Box<Type>),
    HashMap { key: Box<Type>, value: Box<Type> },
    Tuple(Vec<Type>),
    Option(Box<Type>),
    Result { ok: Box<Type>, err: Box<Type> },
    Reference { mutable: bool, inner: Box<Type> },
    Custom(String),
    Unit,
}

/// Width of an integer type.
#[derive(Debug, Clone, Copy, PartialEq, Eq, Hash, Structural)]
pub enum IntSize {
    I8,
    I16,
    I32,
    I64,
    I128,
    ISize,
}

/// Structural equality of two types: same shape, same names, same parts.
pub open spec fn type_eq(a: Type, b: Type) -> bool
    decreases a,
{
    match a {
        Type::Python(x) => match b {
            Type::Python(y) => python_type_eq(x, y),
            _ => false,
        },
        Type::C(x) => match b {
            Type::C(y) => ctype_eq(x, y),
            _ => false,
        },
        Type::Rust(x) => match b {
            Type::Rust(y) => rust_type_eq(x, y),
            _ => false,
        },
        Type::Generic { name, bounds } => match b {
            Type::Generic { name: name2, bounds: bounds2 } => name@ == name2@ && bounds@.len()
                == bounds2@.len() && forall|i: int|
                0 <= i < bounds@.len() ==> #[trigger] bounds@[i]@ == bounds2@[i]@,
            _ => false,
        },
        Type::Function { params, return_type } => match b {
            Type::Function { params: params2, return_type: return_type2 } => params@.len()
                == params2@.len() && (forall|i: int|
                0 <= i < params@.len() ==> type_eq(#[trigger] params@[i], params2@[i]))
                && type_eq(*return_type, *return_type2),
            _ => false,
        },
        Type::Unknown => b is Unknown,
    }
}

/// Structural equality of two native types.
pub open spec fn ctype_eq(a: CType, b: CType) -> bool
    decreases a,
{
    match a {
        CType::Pointer(x) => match b {
            CType::Pointer(y) => ctype_eq(*x, *y),
            _ => false,
        },
        CType::Array { element, size } => match b {
            CType::Array { element: element2, size: size2 } => ctype_eq(*element, *element2)
                && size == size2,
            _ => false,
        },
        CType::Struct(n) => match b {
            CType::Struct(m) => n@ == m@,
            _ => false,
        },
        CType::Union(n) => match b {
            CType::Union(m) => n@ == m@,
            _ => false,
        },
        CType::Typedef(n) => match b {
            CType::Typedef(m) => n@ == m@,
            _ => false,
        },
        CType::CPython(x) => match b {
            CType::CPython(y) => x == y,
            _ => false,
        },
        CType::Void => b is Void,
        CType::Char => b is Char,
        CType::Int => b is Int,
        CType::Long => b is Long,
        CType::SizeT => b is SizeT,
        CType::Float => b is Float,
        CType::Double => b is Double,
    }
}

/// Structural equality of two front-end types.
pub open spec fn python_type_eq(a: PythonType, b: PythonType) -> bool
    decreases a,
{
    match a {
        PythonType::List(x) => match b {
            PythonType::List(y) => type_eq(*x, *y),
            _ => false,
        },
        PythonType::Dict { key, value } => match b {
            PythonType::Dict { key: key2, value: value2 } => type_eq(*key, *key2) && type_eq(
                *value,
                *value2,
            ),
            _ => false,
        },
        PythonType::Tuple(xs) => match b {
            PythonType::Tuple(ys) => xs@.len() == ys@.len() && forall|i: int|
                0 <= i < xs@.len() ==> type_eq(#[trigger] xs@[i], ys@[i]),
            _ => false,
        },
        PythonType::SetOf(x) => match b {
            PythonType::SetOf(y) => type_eq(*x, *y),
            _ => false,
        },
        PythonType::Class(n) => match b {
            PythonType::Class(m) => n@ == m@,
            _ => false,
        },
        PythonType::Int => b is Int,
        PythonType::Float => b is Float,
        PythonType::Str => b is Str,
        PythonType::Bool => b is Bool,
        PythonType::NoneType => b is NoneType,
        PythonType::Any => b is Any,
    }
}

/// Structural equality of two emitted types.
pub open spec fn rust_type_eq(a: RustType, b: RustType) -> bool
    decreases a,
{
    match a {
        RustType::Vec(x) => match b {
            RustType::Vec(y) => type_eq(*x, *y),
            _ => false,
        },
        RustType::HashMap { key, value } => match b {
            RustType::HashMap { key: key2, value: value2 } => type_eq(*key, *key2) && type_eq(
                *value,
                *value2,
            ),
            _ => false,
        },
        RustType::Tuple(xs) => match b {
            RustType::Tuple(ys) => xs@.len() == ys@.len() && forall|i: int|
                0 <= i < xs@.len() ==> type_eq(#[trigger] xs@[i], ys@[i]),
            _ => false,
        },
        RustType::Option(x) => match b {
            RustType::Option(y) => type_eq(*x, *y),
            _ => false,
        },
        RustType::Result { ok, err } => match b {
            RustType::Result { ok: ok2, err: err2 } => type_eq(*ok, *ok2) && type_eq(*err, *err2),
            _ => false,
        },
        RustType::Reference { mutable, inner } => match b {
            RustType::Reference { mutable: mutable2, inner: inner2 } => mutable == mutable2
                && type_eq(*inner, *inner2),
            _ => false,
        },
        RustType::Custom(n) => match b {
            RustType::Custom(m) => n@ == m@,
            _ => false,
        },
        RustType::Int { bits, signed } => match b {
            RustType::Int { bits: bits2, signed: signed2 } => bits == bits2 && signed == signed2,
            _ => false,
        },
        RustType::Float { bits } => match b {
            RustType::Float { bits: bits2 } => bits == bits2,
            _ => false,
        },
        RustType::Bool => b is Bool,
        RustType::String => b is String,
        RustType::Str => b is Str,
        RustType::Unit => b is Unit,
    }
}

/// The compatibility relation of the type bridge, in both orders: `Unknown`
/// on either side, identical types, or one of the enumerated cross-universe
/// pairs. Element types are not inspected.
pub open spec fn compatible(a: Type, b: Type) -> bool {
    a is Unknown || b is Unknown || type_eq(a, b) || bridged(a, b) || bridged(b, a)
}

/// The enumerated cross-universe pairs, front-end or native side first.
pub open spec fn bridged(a: Type, b: Type) -> bool {
    match (a, b) {
        (Type::Python(PythonType::List(_)), Type::Rust(RustType::Vec(_))) => true,
        (Type::Python(PythonType::Dict { .. }), Type::Rust(RustType::HashMap { .. })) => true,
        (Type::C(CType::CPython(CPythonType::PyListObject)), Type::Rust(RustType::Vec(_))) => true,
        _ => false,
    }
}

/// Every native type is structurally equal to itself.
pub proof fn lemma_ctype_eq_refl(t: CType)
    ensures
        ctype_eq(t, t),
    decreases t,
{
    match t {
        CType::Pointer(x) => lemma_ctype_eq_refl(*x),
        CType::Array { element, .. } => lemma_ctype_eq_refl(*element),
        _ => {},
    }
}

/// Every type is structurally equal to itself.
pub proof fn lemma_type_eq_refl(t: Type)
    ensures
        type_eq(t, t),
    decreases t,
{
    match t {
        Type::Python(x) => lemma_python_type_eq_refl(x),
        Type::C(x) => lemma_ctype_eq_refl(x),
        Type::Rust(x) => lemma_rust_type_eq_refl(x),
        Type::Function { params, return_type } => {
            assert forall|i: int| 0 <= i < params@.len() implies type_eq(
                #[trigger] params@[i],
                params@[i],
            ) by {
                lemma_type_eq_refl(params@[i]);
            }
            lemma_type_eq_refl(*return_type);
        },
        _ => {},
    }
}

/// Every front-end type is structurally equal to itself.
pub proof fn lemma_python_type_eq_refl(t: PythonType)
    ensures
        python_type_eq(t, t),
    decreases t,
{
    match t {
        PythonType::List(x) => lemma_type_eq_refl(*x),
        PythonType::SetOf(x) => lemma_type_eq_refl(*x),
        PythonType::Dict { key, value } => {
            lemma_type_eq_refl(*key);
            lemma_type_eq_refl(*value);
        },
        PythonType::Tuple(xs) => {
            assert forall|i: int| 0 <= i < xs@.len() implies type_eq(
                #[trigger] xs@[i],
                xs@[i],
            ) by {
                lemma_type_eq_refl(xs@[i]);
            }
        },
        _ => {},
    }
}

/// Every emitted type is structurally equal to itself.
pub proof fn lemma_rust_type_eq_refl(t: RustType)
    ensures
        rust_type_eq(t, t),
    decreases t,
{
    match t {
        RustType::Vec(x) => lemma_type_eq_refl(*x),
        RustType::Option(x) => lemma_type_eq_refl(*x),
        RustType::Reference { inner, .. } => lemma_type_eq_refl(*inner),
        RustType::HashMap { key, value } => {
            lemma_type_eq_refl(*key);
            lemma_type_eq_refl(*value);
        },
        RustType::Result { ok, err } => {
            lemma_type_eq_refl(*ok);
            lemma_type_eq_refl(*err);
        },
        RustType::Tuple(xs) => {
            assert forall|i: int| 0 <= i < xs@.len() implies type_eq(
                #[trigger] xs@[i],
                xs@[i],
            ) by {
                lemma_type_eq_refl(xs@[i]);
            }
        },
        _ => {},
    }
}

/// Compatibility is reflexive, and `Unknown` is compatible with every type
/// on either side.
pub proof fn lemma_compatible_reflexive_and_bottom(x: Type)
    ensures
        compatible(x, x),
        compatible(Type::Unknown, x),
        compatible(x, Type::Unknown),
{
    lemma_type_eq_refl(x);
}

/// Compatibility does not depend on the order of its arguments.
pub proof fn lemma_compatible_symmetric(a: Type, b: Type)
    ensures
        compatible(a, b) == compatible(b, a),
{
    if type_eq(a, b) {
        lemma_type_eq_symm(a, b);
    }
    if type_eq(b, a) {
        lemma_type_eq_symm(b, a);
    }
}

/// Structural equality of native types is symmetric.
pub proof fn lemma_ctype_eq_symm(a: CType, b: CType)
    requires
        ctype_eq(a, b),
    ensures
        ctype_eq(b, a),
    decreases a,
{
    match a {
        CType::Pointer(x) => match b {
            CType::Pointer(y) => lemma_ctype_eq_symm(*x, *y),
            _ => {},
        },
        CType::Array { element, .. } => match b {
            CType::Array { element: element2, .. } => lemma_ctype_eq_symm(*element, *element2),
            _ => {},
        },
        _ => {},
    }
}

/// Structural equality of types is symmetric.
pub proof fn lemma_type_eq_symm(a: Type, b: Type)
    requires
        type_eq(a, b),
    ensures
        type_eq(b, a),
    decreases a,
{
    match a {
        Type::Python(x) => match b {
            Type::Python(y) => lemma_python_type_eq_symm(x, y),
            _ => {},
        },
        Type::C(x) => match b {
            Type::C(y) => lemma_ctype_eq_symm(x, y),
            _ => {},
        },
        Type::Rust(x) => match b {
            Type::Rust(y) => lemma_rust_type_eq_symm(x, y),
            _ => {},
        },
        Type::Function { params, return_type } => match b {
            Type::Function { params: params2, return_type: return_type2 } => {
                assert forall|i: int| 0 <= i < params2@.len() implies type_eq(
                    #[trigger] params2@[i],
                    params@[i],
                ) by {
                    lemma_type_eq_symm(params@[i], params2@[i]);
                }
                lemma_type_eq_symm(*return_type, *return_type2);
            },
            _ => {},
        },
        _ => {},
    }
}

/// Structural equality of front-end types is symmetric.
pub proof fn lemma_python_type_eq_symm(a: PythonType, b: PythonType)
    requires
        python_type_eq(a, b),
    ensures
        python_type_eq(b, a),
    decreases a,
{
    match a {
        PythonType::List(x) => match b {
            PythonType::List(y) => lemma_type_eq_symm(*x, *y),
            _ => {},
        },
        PythonType::SetOf(x) => match b {
            PythonType::SetOf(y) => lemma_type_eq_symm(*x, *y),
            _ => {},
        },
        PythonType::Dict { key, value } => match b {
            PythonType::Dict { key: key2, value: value2 } => {
                lemma_type_eq_symm(*key, *key2);
                lemma_type_eq_symm(*value, *value2);
            },
            _ => {},
        },
        PythonType::Tuple(xs) => match b {
            PythonType::Tuple(ys) => {
                assert forall|i: int| 0 <= i < ys@.len() implies type_eq(
                    #[trigger] ys@[i],
                    xs@[i],
                ) by {
                    lemma_type_eq_symm(xs@[i], ys@[i]);
                }
            },
            _ => {},
        },
        _ => {},
    }
}

/// Structural equality of emitted types is symmetric.
pub proof fn lemma_rust_type_eq_symm(a: RustType, b: RustType)
    requires
        rust_type_eq(a, b),
    ensures
        rust_type_eq(b, a),
    decreases a,
{
    match a {
        RustType::Vec(x) => match b {
            RustType::Vec(y) => lemma_type_eq_symm(*x, *y),
            _ => {},
        },
        RustType::Option(x) => match b {
            RustType::Option(y) => lemma_type_eq_symm(*x, *y),
            _ => {},
        },
        RustType::Reference { inner, .. } => match b {
            RustType::Reference { inner: inner2, .. } => lemma_type_eq_symm(*inner, *inner2),
            _ => {},
        },
        RustType::HashMap { key, value } => match b {
            RustType::HashMap { key: key2, value: value2 } => {
                lemma_type_eq_symm(*key, *key2);
                lemma_type_eq_symm(*value, *value2);
            },
            _ => {},
        },
        RustType::Result { ok, err } => match b {
            RustType::Result { ok: ok2, err: err2 } => {
                lemma_type_eq_symm(*ok, *ok2);
                lemma_type_eq_symm(*err, *err2);
            },
            _ => {},
        },
        RustType::Tuple(xs) => match b {
            RustType::Tuple(ys) => {
                assert forall|i: int| 0 <= i < ys@.len() implies type_eq(
                    #[trigger] ys@[i],
                    xs@[i],
                ) by {
                    lemma_type_eq_symm(xs@[i], ys@[i]);
                }
            },
            _ => {},
        },
        _ => {},
    }
}

/// Whether two strings hold the same characters.
fn same_string(a: &String, b: &String) -> (r: bool)
    ensures
        r == (a@ == b@),
{
    crate::text::str_eq(a.as_str(), b.as_str())
}

/// Structural equality of two native types.
pub fn ctype_equal(a: &CType, b: &CType) -> (r: bool)
    ensures
        r == ctype_eq(*a, *b),
    decreases a,
{
    match (a, b) {
        (CType::Pointer(x), CType::Pointer(y)) => ctype_equal(x, y),
        (CType::Array { element, size }, CType::Array { element: element2, size: size2 }) => {
            let same_size = match (size, size2) {
                (Some(m), Some(n)) => *m == *n,
                (None, None) => true,
                _ => false,
            };
            same_size && ctype_equal(element, element2)
        },
        (CType::Struct(n), CType::Struct(m)) => same_string(n, m),
        (CType::Union(n), CType::Union(m)) => same_string(n, m),
        (CType::Typedef(n), CType::Typedef(m)) => same_string(n, m),
        (CType::CPython(x), CType::CPython(y)) => *x == *y,
        (CType::Void, CType::Void) => true,
        (CType::Char, CType::Char) => true,
        (CType::Int, CType::Int) => true,
        (CType::Long, CType::Long) => true,
        (CType::SizeT, CType::SizeT) => true,
        (CType::Float, CType::Float) => true,
        (CType::Double, CType::Double) => true,
        _ => false,
    }
}

/// Element-wise equality of two string lists.
fn string_list_equal(xs: &Vec<String>, ys: &Vec<String>) -> (r: bool)
    ensures
        r == (xs@.len() == ys@.len() && forall|i: int|
            0 <= i < xs@.len() ==> #[trigger] xs@[i]@ == ys@[i]@),
{
    if xs.len() != ys.len() {
        return false;
    }
    let mut i: usize = 0;
    while i < xs.len()
        invariant
            xs@.len() == ys@.len(),
            i <= xs@.len(),
            forall|j: int| 0 <= j < i ==> #[trigger] xs@[j]@ == ys@[j]@,
        decreases xs@.len() - i,
    {
        if !same_string(&xs[i], &ys[i]) {
            return false;
        }
        i += 1;
    }
    true
}

/// Element-wise structural equality of two type lists.
fn type_list_equal(xs: &Vec<Type>, ys: &Vec<Type>) -> (r: bool)
    ensures
        r == (xs@.len() == ys@.len() && forall|i: int|
            0 <= i < xs@.len() ==> type_eq(#[trigger] xs@[i], ys@[i])),
    decreases xs,
{
    if xs.len() != ys.len() {
        return false;
    }
    let mut i: usize = 0;
    while i < xs.len()
        invariant
            xs@.len() == ys@.len(),
            i <= xs@.len(),
            forall|j: int| 0 <= j < i ==> type_eq(#[trigger] xs@[j], ys@[j]),
        decreases xs@.len() - i,
    {
        assert(decreases_to!(xs => xs@[i as int]));
        if !type_equal(&xs[i], &ys[i]) {
            return false;
        }
        i += 1;
    }
    true
}

/// Structural equality of two types.
pub fn type_equal(a: &Type, b: &Type) -> (r: bool)
    ensures
        r == type_eq(*a, *b),
    decreases a,
{
    match (a, b) {
        (Type::Python(x), Type::Python(y)) => python_type_equal(x, y),
        (Type::C(x), Type::C(y)) => ctype_equal(x, y),
        (Type::Rust(x), Type::Rust(y)) => rust_type_equal(x, y),
        (Type::Generic { name, bounds }, Type::Generic { name: name2, bounds: bounds2 }) => {
            same_string(name, name2) && string_list_equal(bounds, bounds2)
        },
        (
            Type::Function { params, return_type },
            Type::Function { params: params2, return_type: return_type2 },
        ) => type_list_equal(params, params2) && type_equal(return_type, return_type2),
        (Type::Unknown, Type::Unknown) => true,
        _ => false,
    }
}

/// Structural equality of two front-end types.
pub fn python_type_equal(a: &PythonType, b: &PythonType) -> (r: bool)
    ensures
        r == python_type_eq(*a, *b),
    decreases a,
{
    match (a, b) {
        (PythonType::List(x), PythonType::List(y)) => type_equal(x, y),
        (PythonType::SetOf(x), PythonType::SetOf(y)) => type_equal(x, y),
        (PythonType::Dict { key, value }, PythonType::Dict { key: key2, value: value2 }) => {
            type_equal(key, key2) && type_equal(value, value2)
        },
        (PythonType::Tuple(xs), PythonType::Tuple(ys)) => type_list_equal(xs, ys),
        (PythonType::Class(n), PythonType::Class(m)) => same_string(n, m),
        (PythonType::Int, PythonType::Int) => true,
        (PythonType::Float, PythonType::Float) => true,
        (PythonType::Str, PythonType::Str) => true,
        (PythonType::Bool, PythonType::Bool) => true,
        (PythonType::NoneType, PythonType::NoneType) => true,
        (PythonType::Any, PythonType::Any) => true,
        _ => false,
    }
}

/// Structural equality of two emitted types.
pub fn rust_type_equal(a: &RustType, b: &RustType) -> (r: bool)
    ensures
        r == rust_type_eq(*a, *b),
    decreases a,
{
    match (a, b) {
        (RustType::Vec(x), RustType::Vec(y)) => type_equal(x, y),
        (RustType::Option(x), RustType::Option(y)) => type_equal(x, y),
        (RustType::HashMap { key, value }, RustType::HashMap { key: key2, value: value2 }) => {
            type_equal(key, key2) && type_equal(value, value2)
        },
        (RustType::Result { ok, err }, RustType::Result { ok: ok2, err: err2 }) => {
            type_equal(ok, ok2) && type_equal(err, err2)
        },
        (
            RustType::Reference { mutable, inner },
            RustType::Reference { mutable: mutable2, inner: inner2 },
        ) => *mutable == *mutable2 && type_equal(inner, inner2),
        (RustType::Tuple(xs), RustType::Tuple(ys)) => type_list_equal(xs, ys),
        (RustType::Custom(n), RustType::Custom(m)) => same_string(n, m),
        (RustType::Int { bits, signed }, RustType::Int { bits: bits2, signed: signed2 }) => {
            *bits == *bits2 && *signed == *signed2
        },
        (RustType::Float { bits }, RustType::Float { bits: bits2 }) => *bits == *bits2,
        (RustType::Bool, RustType::Bool) => true,
        (RustType::String, RustType::String) => true,
        (RustType::Str, RustType::Str) => true,
        (RustType::Unit, RustType::Unit) => true,
        _ => false,
    }
}

/// Whether `a` is one of the enumerated cross-universe pairs with `b`.
fn is_bridged(a: &Type, b: &Type) -> (r: bool)
    ensures
        r == bridged(*a, *b),
{
    match (a, b) {
        (Type::Python(PythonType::List(_)), Type::Rust(RustType::Vec(_))) => true,
        (Type::Python(PythonType::Dict { .. }), Type::Rust(RustType::HashMap { .. })) => true,
        (Type::C(CType::CPython(CPythonType::PyListObject)), Type::Rust(RustType::Vec(_))) => true,
        _ => false,
    }
}

impl Type {
    /// Whether the two types may be unified: `Unknown` on either side,
    /// structurally identical types, or an enumerated cross-universe pair in
    /// either order.
    pub fn is_compatible(&self, other: &Self) -> (r: bool)
        ensures
            r == compatible(*self, *other),
    {
        if let Type::Unknown = self {
            return true;
        }
        if let Type::Unknown = other {
            return true;
        }
        type_equal(self, other) || is_bridged(self, other) || is_bridged(other, self)
    }
}

/// How a type is written.
pub open spec fn type_text(t: Type) -> Seq<char>
    decreases t,
{
    match t {
        Type::Python(p) => python_type_text(p),
        Type::C(c) => ctype_text(c),
        Type::Rust(r) => rust_type_text(r),
        Type::Generic { name, .. } => name@,
        Type::Function { params, return_type } => "fn("@ + type_list_text(params@) + ") -> "@
            + type_text(*return_type),
        Type::Unknown => "?"@,
    }
}

/// A list of types written one after the other, separated by `", "`.
pub open spec fn type_list_text(s: Seq<Type>) -> Seq<char>
    decreases s,
{
    if s.len() == 0 {
        Seq::empty()
    } else if s.len() == 1 {
        type_text(s[0])
    } else {
        type_list_text(s.subrange(0, s.len() - 1)) + ", "@ + type_text(s[s.len() - 1])
    }
}

/// How a front-end type is written.
pub open spec fn python_type_text(t: PythonType) -> Seq<char>
    decreases t,
{
    match t {
        PythonType::Int => "int"@,
        PythonType::Float => "float"@,
        PythonType::Str => "str"@,
        PythonType::Bool => "bool"@,
        PythonType::List(x) => "list["@ + type_text(*x) + "]"@,
        PythonType::Dict { key, value } => "dict["@ + type_text(*key) + ", "@ + type_text(*value)
            + "]"@,
        PythonType::Tuple(xs) => "tuple["@ + type_list_text(xs@) + "]"@,
        PythonType::SetOf(x) => "set["@ + type_text(*x) + "]"@,
        PythonType::NoneType => "None"@,
        PythonType::Any => "Any"@,
        PythonType::Class(n) => n@,
    }
}

/// How a native type is written.
pub open spec fn ctype_text(t: CType) -> Seq<char>
    decreases t,
{
    match t {
        CType::Void => "void"@,
        CType::Char => "char"@,
        CType::Int => "int"@,
        CType::Long => "long"@,
        CType::SizeT => "size_t"@,
        CType::Float => "float"@,
        CType::Double => "double"@,
        CType::Pointer(x) => ctype_text(*x) + "*"@,
        CType::Array { element, size } => match size {
            Some(n) => ctype_text(*element) + "["@ + decimal(n as nat) + "]"@,
            None => ctype_text(*element) + "[]"@,
        },
        CType::Struct(n) => "struct "@ + n@,
        CType::Union(n) => "union "@ + n@,
        CType::Typedef(n) => n@,
        CType::CPython(c) => cpython_type_text(c),
    }
}

/// How a runtime-internal native type is written.
pub open spec fn cpython_type_text(t: CPythonType) -> Seq<char> {
    match t {
        CPythonType::PyObject => "PyObject*"@,
        CPythonType::PyListObject => "PyListObject*"@,
        CPythonType::PyDictObject => "PyDictObject*"@,
        CPythonType::PyTupleObject => "PyTupleObject*"@,
        CPythonType::PyTypeObject => "PyTypeObject*"@,
        CPythonType::PySsizeT => "Py_ssize_t"@,
    }
}

/// How the width of an integer type is written.
pub open spec fn int_size_text(s: IntSize) -> Seq<char> {
    match s {
        IntSize::I8 => "8"@,
        IntSize::I16 => "16"@,
        IntSize::I32 => "32"@,
        IntSize::I64 => "64"@,
        IntSize::I128 => "128"@,
        IntSize::ISize => "size"@,
    }
}

/// How an emitted type is written.
pub open spec fn rust_type_text(t: RustType) -> Seq<char>
    decreases t,
{
    match t {
        RustType::Int { bits, signed } => (if signed {
            "i"@
        } else {
            "u"@
        }) + int_size_text(bits),
        RustType::Float { bits } => "f"@ + decimal(bits as nat),
        RustType::Bool => "bool"@,
        RustType::String => "String"@,
        RustType::Str => "&str"@,
        RustType::Vec(x) => "Vec<"@ + type_text(*x) + ">"@,
        RustType::HashMap { key, value } => "HashMap<"@ + type_text(*key) + ", "@ + type_text(
            *value,
        ) + ">"@,
        RustType::Tuple(xs) => "("@ + type_list_text(xs@) + ")"@,
        RustType::Option(x) => "Option<"@ + type_text(*x) + ">"@,
        RustType::Result { ok, err } => "Result<"@ + type_text(*ok) + ", "@ + type_text(*err)
            + ">"@,
        RustType::Reference { mutable, inner } => (if mutable {
            "&mut "@
        } else {
            "&"@
        }) + type_text(*inner),
        RustType::Custom(n) => n@,
        RustType::Unit => "()"@,
    }
}

/// Appends how `t` is written to `out`.
pub fn push_type(out: &mut String, t: &Type)
    ensures
        final(out)@ == old(out)@ + type_text(*t),
    decreases t,
{
    match t {
        Type::Python(p) => push_python_type(out, p),
        Type::C(c) => push_ctype(out, c),
        Type::Rust(r) => push_rust_type(out, r),
        Type::Generic { name, .. } => out.append(name.as_str()),
        Type::Function { params, return_type } => {
            out.append("fn(");
            push_type_list(out, params);
            out.append(") -> ");
            push_type(out, return_type);
        },
        Type::Unknown => out.append("?"),
    }
    assert(final(out)@ =~= old(out)@ + type_text(*t));
}

/// Appends a list of types, separated by `", "`, to `out`.
fn push_type_list(out: &mut String, xs: &Vec<Type>)
    ensures
        final(out)@ == old(out)@ + type_list_text(xs@),
    decreases xs,
{
    let ghost start = out@;
    let mut i: usize = 0;
    while i < xs.len()
        invariant
            i <= xs@.len(),
            out@ == start + type_list_text(xs@.subrange(0, i as int)),
        decreases xs@.len() - i,
    {
        assert(decreases_to!(xs => xs@[i as int]));
        let ghost before = out@;
        if i > 0 {
            out.append(", ");
        }
        push_type(out, &xs[i]);
        proof {
            let s = xs@.subrange(0, i + 1);
            assert(s.subrange(0, s.len() - 1) =~= xs@.subrange(0, i as int));
            assert(s[s.len() - 1] == xs@[i as int]);
            if i == 0 {
                assert(type_list_text(xs@.subrange(0, 0)) =~= Seq::<char>::empty());
            }
            assert(out@ =~= start + type_list_text(s));
        }
        i += 1;
    }
    assert(xs@.subrange(0, xs@.len() as int) =~= xs@);
}

/// Appends how a front-end type is written to `out`.
fn push_python_type(out: &mut String, t: &PythonType)
    ensures
        final(out)@ == old(out)@ + python_type_text(*t),
    decreases t,
{
    match t {
        PythonType::Int => out.append("int"),
        PythonType::Float => out.append("float"),
        PythonType::Str => out.append("str"),
        PythonType::Bool => out.append("bool"),
        PythonType::List(x) => {
            out.append("list[");
            push_type(out, x);
            out.append("]");
        },
        PythonType::Dict { key, value } => {
            out.append("dict[");
            push_type(out, key);
            out.append(", ");
            push_type(out, value);
            out.append("]");
        },
        PythonType::Tuple(xs) => {
            out.append("tuple[");
            push_type_list(out, xs);
            out.append("]");
        },
        PythonType::SetOf(x) => {
            out.append("set[");
            push_type(out, x);
            out.append("]");
        },
        PythonType::NoneType => out.append("None"),
        PythonType::Any => out.append("Any"),
        PythonType::Class(n) => out.append(n.as_str()),
    }
    assert(final(out)@ =~= old(out)@ + python_type_text(*t));
}

/// Appends how a native type is written to `out`.
fn push_ctype(out: &mut String, t: &CType)
    ensures
        final(out)@ == old(out)@ + ctype_text(*t),
    decreases t,
{
    match t {
        CType::Void => out.append("void"),
        CType::Char => out.append("char"),
        CType::Int => out.append("int"),
        CType::Long => out.append("long"),
        CType::SizeT => out.append("size_t"),
        CType::Float => out.append("float"),
        CType::Double => out.append("double"),
        CType::Pointer(x) => {
            push_ctype(out, x);
            out.append("*");
        },
        CType::Array { element, size } => {
            push_ctype(out, element);
            match size {
                Some(n) => {
                    out.append("[");
                    push_decimal(out, *n as u64);
                    out.append("]");
                },
                None => out.append("[]"),
            }
        },
        CType::Struct(n) => {
            out.append("struct ");
            out.append(n.as_str());
        },
        CType::Union(n) => {
            out.append("union ");
            out.append(n.as_str());
        },
        CType::Typedef(n) => out.append(n.as_str()),
        CType::CPython(c) => out.append(cpython_type_str(*c)),
    }
    assert(final(out)@ =~= old(out)@ + ctype_text(*t));
}

fn cpython_type_str(t: CPythonType) -> (r: &'static str)
    ensures
        r@ == cpython_type_text(t),
{
    match t {
        CPythonType::PyObject => "PyObject*",
        CPythonType::PyListObject => "PyListObject*",
        CPythonType::PyDictObject => "PyDictObject*",
        CPythonType::PyTupleObject => "PyTupleObject*",
        CPythonType::PyTypeObject => "PyTypeObject*",
        CPythonType::PySsizeT => "Py_ssize_t",
    }
}

fn int_size_str(s: IntSize) -> (r: &'static str)
    ensures
        r@ == int_size_text(s),
{
    match s {
        IntSize::I8 => "8",
        IntSize::I16 => "16",
        IntSize::I32 => "32",
        IntSize::I64 => "64",
        IntSize::I128 => "128",
        IntSize::ISize => "size",
    }
}

/// Appends how an emitted type is written to `out`.
fn push_rust_type(out: &mut String, t: &RustType)
    ensures
        final(out)@ == old(out)@ + rust_type_text(*t),
    decreases t,
{
    match t {
        RustType::Int { bits, signed } => {
            if *signed {
                out.append("i");
            } else {
                out.append("u");
            }
            out.append(int_size_str(*bits));
        },
        RustType::Float { bits } => {
            out.append("f");
            push_decimal(out, *bits as u64);
        },
        RustType::Bool => out.append("bool"),
        RustType::String => out.append("String"),
        RustType::Str => out.append("&str"),
        RustType::Vec(x) => {
            out.append("Vec<");
            push_type(out, x);
            out.append(">");
        },
        RustType::HashMap { key, value } => {
            out.append("HashMap<");
            push_type(out, key);
            out.append(", ");
            push_type(out, value);
            out.append(">");
        },
        RustType::Tuple(xs) => {
            out.append("(");
            push_type_list(out, xs);
            out.append(")");
        },
        RustType::Option(x) => {
            out.append("Option<");
            push_type(out, x);
            out.append(">");
        },
        RustType::Result { ok, err } => {
            out.append("Result<");
            push_type(out, ok);
            out.append(", ");
            push_type(out, err);
            out.append(">");
        },
        RustType::Reference { mutable, inner } => {
            if *mutable {
                out.append("&mut ");
            } else {
                out.append("&");
            }
            push_type(out, inner);
        },
        RustType::Custom(n) => out.append(n.as_str()),
        RustType::Unit => out.append("()"),
    }
    assert(final(out)@ =~= old(out)@ + rust_type_text(*t));
}

impl Type {
    /// How the type is written.
    pub fn to_string(&self) -> (r: String)
        ensures
            r@ == type_text(*self),
    {
        let mut out = String::new();
        push_type(&mut out, self);
        assert(out@ =~= type_text(*self));
        out
    }
}

impl PythonType {
    /// How the front-end type is written.
    pub fn to_string(&self) -> (r: String)
        ensures
            r@ == python_type_text(*self),
    {
        let mut out = String::new();
        push_python_type(&mut out, self);
        assert(out@ =~= python_type_text(*self));
        out
    }
}

impl CType {
    /// How the native type is written.
    pub fn to_string(&self) -> (r: String)
        ensures
            r@ == ctype_text(*self),
    {
        let mut out = String::new();
        push_ctype(&mut out, self);
        assert(out@ =~= ctype_text(*self));
        out
    }
}

impl CPythonType {
    /// How the runtime-internal native type is written.
    pub fn to_string(&self) -> (r: String)
        ensures
            r@ == cpython_type_text(*self),
    {
        String::from_str(cpython_type_str(*self))
    }
}

impl RustType {
    /// How the emitted type is written.
    pub fn to_string(&self) -> (r: String)
        ensures
            r@ == rust_type_text(*self),
    {
        let mut out = String::new();
        push_rust_type(&mut out, self);
        assert(out@ =~= rust_type_text(*self));
        out
    }
}

/// A copy of a native type.
fn copy_ctype(t: &CType) -> (r: CType)
    ensures
        r == *t,
    decreases t,
{
    match t {
        CType::Void => CType::Void,
        CType::Char => CType::Char,
        CType::Int => CType::Int,
        CType::Long => CType::Long,
        CType::SizeT => CType::SizeT,
        CType::Float => CType::Float,
        CType::Double => CType::Double,
        CType::Pointer(x) => CType::Pointer(Box::new(copy_ctype(x))),
        CType::Array { element, size } => CType::Array {
            element: Box::new(copy_ctype(element)),
            size: *size,
        },
        CType::Struct(n) => CType::Struct(n.clone()),
        CType::Union(n) => CType::Union(n.clone()),
        CType::Typedef(n) => CType::Typedef(n.clone()),
        CType::CPython(c) => CType::CPython(*c),
    }
}

/// A copy of a list of types.
fn copy_type_list(xs: &Vec<Type>) -> (r: Vec<Type>)
    ensures
        r@.len() == xs@.len(),
        forall|i: int| 0 <= i < xs@.len() ==> type_eq(#[trigger] r@[i], xs@[i]),
    decreases xs,
{
    let mut r: Vec<Type> = Vec::new();
    let mut i: usize = 0;
    while i < xs.len()
        invariant
            i <= xs@.len(),
            r@.len() == i,
            forall|j: int| 0 <= j < i ==> type_eq(#[trigger] r@[j], xs@[j]),
        decreases xs@.len() - i,
    {
        assert(decreases_to!(xs => xs@[i as int]));
        r.push(copy_type(&xs[i]));
        i += 1;
    }
    r
}

/// A copy of a list of strings.
fn copy_string_list(xs: &Vec<String>) -> (r: Vec<String>)
    ensures
        r@ == xs@,
{
    let mut r: Vec<String> = Vec::new();
    let mut i: usize = 0;
    while i < xs.len()
        invariant
            i <= xs@.len(),
            r@ == xs@.subrange(0, i as int),
        decreases xs@.len() - i,
    {
        r.push(xs[i].clone());
        i += 1;
        assert(r@ =~= xs@.subrange(0, i as int));
    }
    assert(xs@.subrange(0, xs@.len() as int) =~= xs@);
    r
}

/// A structurally equal copy of a type.
pub fn copy_type(t: &Type) -> (r: Type)
    ensures
        type_eq(r, *t),
    decreases t,
{
    match t {
        Type::Python(p) => Type::Python(copy_python_type(p)),
        Type::C(c) => {
            let r = copy_ctype(c);
            proof {
                lemma_ctype_eq_refl(*c);
            }
            Type::C(r)
        },
        Type::Rust(x) => Type::Rust(copy_rust_type(x)),
        Type::Generic { name, bounds } => Type::Generic {
            name: name.clone(),
            bounds: copy_string_list(bounds),
        },
        Type::Function { params, return_type } => Type::Function {
            params: copy_type_list(params),
            return_type: Box::new(copy_type(return_type)),
        },
        Type::Unknown => Type::Unknown,
    }
}

/// A structurally equal copy of a front-end type.
fn copy_python_type(t: &PythonType) -> (r: PythonType)
    ensures
        python_type_eq(r, *t),
    decreases t,
{
    match t {
        PythonType::Int => PythonType::Int,
        PythonType::Float => PythonType::Float,
        PythonType::Str => PythonType::Str,
        PythonType::Bool => PythonType::Bool,
        PythonType::List(x) => PythonType::List(Box::new(copy_type(x))),
        PythonType::Dict { key, value } => PythonType::Dict {
            key: Box::new(copy_type(key)),
            value: Box::new(copy_type(value)),
        },
        PythonType::Tuple(xs) => PythonType::Tuple(copy_type_list(xs)),
        PythonType::SetOf(x) => PythonType::SetOf(Box::new(copy_type(x))),
        PythonType::NoneType => PythonType::NoneType,
        PythonType::Any => PythonType::Any,
        PythonType::Class(n) => PythonType::Class(n.clone()),
    }
}

/// A structurally equal copy of an emitted type.
fn copy_rust_type(t: &RustType) -> (r: RustType)
    ensures
        rust_type_eq(r, *t),
    decreases t,
{
    match t {
        RustType::Int { bits, signed } => RustType::Int { bits: *bits, signed: *signed },
        RustType::Float { bits } => RustType::Float { bits: *bits },
        RustType::Bool => RustType::Bool,
        RustType::String => RustType::String,
        RustType::Str => RustType::Str,
        RustType::Vec(x) => RustType::Vec(Box::new(copy_type(x))),
        RustType::HashMap { key, value } => RustType::HashMap {
            key: Box::new(copy_type(key)),
            value: Box::new(copy_type(value)),
        },
        RustType::Tuple(xs) => RustType::Tuple(copy_type_list(xs)),
        RustType::Option(x) => RustType::Option(Box::new(copy_type(x))),
        RustType::Result { ok, err } => RustType::Result {
            ok: Box::new(copy_type(ok)),
            err: Box::new(copy_type(err)),
        },
        RustType::Reference { mutable, inner } => RustType::Reference {
            mutable: *mutable,
            inner: Box::new(copy_type(inner)),
        },
        RustType::Custom(n) => RustType::Custom(n.clone()),
        RustType::Unit => RustType::Unit,
    }
}

impl Clone for Type {
    fn clone(&self) -> (r: Self)
        ensures
            type_eq(r, *self),
    {
        copy_type(self)
    }
}

impl Clone for PythonType {
    fn clone(&self) -> (r: Self)
        ensures
            python_type_eq(r, *self),
    {
        copy_python_type(self)
    }
}

impl Clone for CType {
    fn clone(&self) -> (r: Self)
        ensures
            r == *self,
    {
        copy_ctype(self)
    }
}

impl Clone for RustType {
    fn clone(&self) -> (r: Self)
        ensures
            rust_type_eq(r, *self),
    {
        copy_rust_type(self)
    }
}

} // verus!
