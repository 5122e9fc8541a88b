//! The native parser adapter's side of the library: the raw syntax nodes it
//! hands over, how their type spellings are read, and which runtime
//! operations they name.

use vstd::prelude::*;

use crate::c::{Parameter, StorageClass, CHIR};
use crate::metadata::{is_empty_metadata, Metadata};
use crate::text::{contains, has_prefix, occurs_in, starts_with, str_eq};
use crate::types::{CPythonType, CType, Type};
use crate::{NodeId, Visibility};

verus! {

/// A raw native syntax node, as the parser adapter produces it.
#[derive(Debug)]
pub struct CAST {
    /// Kind of the node, such as `FunctionDecl` or `CallExpr`.
    pub node_type: String,
    /// Name of a function or variable.
    pub name: Option<String>,
    /// Spelling of a function's return type.
    pub return_type: Option<String>,
    /// Parameters of a function.
    pub params: Vec<CParam>,
    /// Child nodes.
    pub children: Vec<CAST>,
    /// Further attributes, by name.
    pub attributes: Vec<(String, String)>,
    /// Whether the node reaches the front-end runtime's interface.
    pub is_cpython_api: bool,
}

/// A parameter of a raw native function.
#[derive(Debug, Clone)]
pub struct CParam {
    /// Its name.
    pub name: String,
    /// Spelling of its type.
    pub param_type: String,
}

impl CAST {
    /// A node of the given kind with nothing else set.
    pub fn new(node_type: String) -> (r: Self)
        ensures
            r.node_type == node_type,
            r.name is None,
            r.return_type is None,
            r.params@.len() == 0,
            r.children@.len() == 0,
            r.attributes@.len() == 0,
            !r.is_cpython_api,
    {
        CAST {
            node_type,
            name: None,
            return_type: None,
            params: Vec::new(),
            children: Vec::new(),
            attributes: Vec::new(),
            is_cpython_api: false,
        }
    }
}

/// The type a native type spelling stands for: the primitive spellings the
/// adapter knows, the runtime's list and object handles wherever their names
/// occur in it, and `Unknown` for anything else or no spelling.
pub open spec fn native_type(s: Option<Seq<char>>) -> Type {
    match s {
        Some(t) => if t == "int"@ {
            Type::C(CType::Int)
        } else if t == "void"@ {
            Type::C(CType::Void)
        } else if t == "size_t"@ {
            Type::C(CType::SizeT)
        } else if t == "Py_ssize_t"@ {
            Type::C(CType::CPython(CPythonType::PySsizeT))
        } else if occurs_in("PyListObject"@, t) {
            Type::C(CType::CPython(CPythonType::PyListObject))
        } else if occurs_in("PyObject"@, t) {
            Type::C(CType::CPython(CPythonType::PyObject))
        } else {
            Type::Unknown
        },
        None => Type::Unknown,
    }
}

/// The characters of an optional string.
pub open spec fn opt_view(s: Option<String>) -> Option<Seq<char>> {
    match s {
        Some(t) => Some(t@),
        None => None,
    }
}

/// Reads a native type spelling.
pub fn parse_type(type_str: &Option<String>) -> (r: Type)
    ensures
        r == native_type(opt_view(*type_str)),
{
    match type_str {
        Some(s) => {
            let t = s.as_str();
            if str_eq(t, "int") {
                Type::C(CType::Int)
            } else if str_eq(t, "void") {
                Type::C(CType::Void)
            } else if str_eq(t, "size_t") {
                Type::C(CType::SizeT)
            } else if str_eq(t, "Py_ssize_t") {
                Type::C(CType::CPython(CPythonType::PySsizeT))
            } else if contains(t, "PyListObject") {
                Type::C(CType::CPython(CPythonType::PyListObject))
            } else if contains(t, "PyObject") {
                Type::C(CType::CPython(CPythonType::PyObject))
            } else {
                Type::Unknown
            }
        },
        None => Type::Unknown,
    }
}

/// Runtime operations recognised in raw native nodes.
#[derive(Debug, Clone, Copy, PartialEq, Eq, Structural)]
pub enum CPythonPattern {
    /// The list length query.
    ListLength,
    /// The list append.
    ListAppend,
    /// The map lookup.
    DictGet,
    /// The raw object size read.
    ObjectSize,
}

/// The runtime operation a node's name stands for.
pub open spec fn pattern_of_name(name: Option<Seq<char>>) -> Option<CPythonPattern> {
    match name {
        Some(n) => if n == "list_length"@ || n == "PyList_Size"@ {
            Some(CPythonPattern::ListLength)
        } else if n == "PyList_Append"@ {
            Some(CPythonPattern::ListAppend)
        } else if n == "PyDict_GetItem"@ {
            Some(CPythonPattern::DictGet)
        } else if n == "Py_SIZE"@ {
            Some(CPythonPattern::ObjectSize)
        } else {
            None
        },
        None => None,
    }
}

/// Whether a raw node reaches the front-end runtime's interface.
pub fn is_cpython_api(ast: &CAST) -> (r: bool)
    ensures
        r == ast.is_cpython_api,
{
    ast.is_cpython_api
}

/// The runtime operation a raw node names, if any.
pub fn identify_pattern(ast: &CAST) -> (r: Option<CPythonPattern>)
    ensures
        r == pattern_of_name(opt_view(ast.name)),
{
    match &ast.name {
        Some(n) => {
            let t = n.as_str();
            if str_eq(t, "list_length") || str_eq(t, "PyList_Size") {
                Some(CPythonPattern::ListLength)
            } else if str_eq(t, "PyList_Append") {
                Some(CPythonPattern::ListAppend)
            } else if str_eq(t, "PyDict_GetItem") {
                Some(CPythonPattern::DictGet)
            } else if str_eq(t, "Py_SIZE") {
                Some(CPythonPattern::ObjectSize)
            } else {
                None
            }
        },
        None => None,
    }
}

/// Number of nodes in a raw native tree.
pub open spec fn native_nodes(a: CAST) -> nat
    decreases a,
{
    1 + native_nodes_all(a.children@)
}

/// Number of nodes in a list of raw native trees.
pub open spec fn native_nodes_all(s: Seq<CAST>) -> nat
    decreases s,
{
    if s.len() == 0 {
        0
    } else {
        native_nodes_all(s.subrange(0, s.len() - 1)) + native_nodes(s[s.len() - 1])
    }
}

/// Whether a child is converted in a list of kind `sel`: every child (0),
/// function declarations (1), or statements (2).
pub open spec fn picked(sel: int, a: CAST) -> bool {
    if sel == 1 {
        a.node_type@ == "FunctionDecl"@
    } else if sel == 2 {
        occurs_in("Stmt"@, a.node_type@) || a.node_type@ == "ReturnStmt"@
    } else {
        true
    }
}

/// A raw native tree that converts: its kind is known and, for a return
/// with a value or a call, the first child converts too; a call needs one.
pub open spec fn native_ok(a: CAST) -> bool
    decreases a,
{
    let t = a.node_type@;
    let kids = a.children@;
    if t == "TranslationUnit"@ {
        true
    } else if t == "FunctionDecl"@ {
        true
    } else if t == "ReturnStmt"@ {
        kids.len() == 0 || native_ok(kids[0])
    } else if t == "CallExpr"@ {
        kids.len() > 0 && native_ok(kids[0])
    } else {
        t == "DeclRefExpr"@
    }
}

/// How many handles converting a raw native tree uses, whether it succeeds
/// or not: children converted before a failure keep theirs.
pub open spec fn native_used(a: CAST) -> nat
    decreases a,
{
    let t = a.node_type@;
    let kids = a.children@;
    if t == "TranslationUnit"@ {
        native_used_each(kids, 1)
    } else if t == "FunctionDecl"@ {
        native_used_each(kids, 2) + 1
    } else if t == "ReturnStmt"@ {
        if kids.len() == 0 {
            1
        } else if native_ok(kids[0]) {
            native_used(kids[0]) + 1
        } else {
            native_used(kids[0])
        }
    } else if t == "CallExpr"@ {
        if kids.len() == 0 {
            0
        } else if !native_ok(kids[0]) {
            native_used(kids[0])
        } else {
            native_used(kids[0]) + native_used_each(kids.subrange(1, kids.len() as int), 0) + 1
        }
    } else if t == "DeclRefExpr"@ {
        1
    } else {
        0
    }
}

/// How many handles converting the picked children of a list uses.
pub open spec fn native_used_each(s: Seq<CAST>, sel: int) -> nat
    decreases s,
{
    if s.len() == 0 {
        0
    } else {
        native_used_each(s.subrange(0, s.len() - 1), sel) + if picked(sel, s[s.len() - 1]) {
            native_used(s[s.len() - 1])
        } else {
            0
        }
    }
}

/// The name of a raw node, or `unknown`.
pub open spec fn name_or_unknown(n: Option<String>) -> Seq<char> {
    match n {
        Some(s) => s@,
        None => "unknown"@,
    }
}

/// `h` is what converting the raw native tree `a` gives when its first
/// handle is `start`.
#[verifier::opaque]
pub open spec fn native_converts(a: CAST, start: int, h: CHIR) -> bool
    decreases a,
{
    let t = a.node_type@;
    let kids = a.children@;
    if t == "TranslationUnit"@ {
        match h {
            CHIR::TranslationUnit { name, declarations, meta } => name@ == "main"@
                && is_empty_metadata(meta) && native_list(kids, 1, start, declarations@),
            _ => false,
        }
    } else if t == "FunctionDecl"@ {
        match h {
            CHIR::Function {
                id,
                name,
                return_type,
                params,
                body,
                storage_class,
                visibility,
                meta,
            } => id.0 == start + native_used_each(kids, 2) && name@ == name_or_unknown(a.name)
                && return_type == native_type(opt_view(a.return_type)) && params@.len()
                == a.params@.len() && (forall|i: int|
                0 <= i < params@.len() ==> (#[trigger] params@[i]).name == a.params@[i].name
                    && params@[i].param_type == native_type(Some(a.params@[i].param_type@)))
                && storage_class == StorageClass::Static && visibility == Visibility::Private
                && is_empty_metadata(meta) && native_list(kids, 2, start, body@),
            _ => false,
        }
    } else if t == "ReturnStmt"@ {
        match h {
            CHIR::Return { id, value, meta } => is_empty_metadata(meta) && if kids.len() == 0 {
                id.0 == start && value is None
            } else {
                id.0 == start + native_used(kids[0]) && match value {
                    Some(v) => native_converts(kids[0], start, *v),
                    None => false,
                }
            },
            _ => false,
        }
    } else if t == "CallExpr"@ {
        match h {
            CHIR::Call { id, callee, args, inferred_type, meta } => kids.len() > 0 && id.0 == start
                + native_used(kids[0]) + native_used_each(kids.subrange(1, kids.len() as int), 0)
                && native_converts(kids[0], start, *callee) && native_list(
                kids.subrange(1, kids.len() as int),
                0,
                start + native_used(kids[0]),
                args@,
            ) && inferred_type is None && is_empty_metadata(meta),
            _ => false,
        }
    } else if t == "DeclRefExpr"@ {
        let n = name_or_unknown(a.name);
        if has_prefix(n, "Py_"@) || has_prefix(n, "_Py"@) {
            match h {
                CHIR::CPythonMacro { id, name, args, inferred_type, meta } => id.0 == start
                    && name@ == n && args@.len() == 0 && inferred_type is None
                    && is_empty_metadata(meta),
                _ => false,
            }
        } else {
            match h {
                CHIR::Variable { id, name, var_type, meta } => id.0 == start && name@ == n
                    && var_type is None && is_empty_metadata(meta),
                _ => false,
            }
        }
    } else {
        false
    }
}

/// `hs` is what converting the picked children of `s` that convert gives,
/// in order, when the first handle is `start`; children that fail are left
/// out but keep the handles they used.
pub open spec fn native_list(s: Seq<CAST>, sel: int, start: int, hs: Seq<CHIR>) -> bool
    decreases s,
{
    if s.len() == 0 {
        hs.len() == 0
    } else {
        let p = s.subrange(0, s.len() - 1);
        let x = s[s.len() - 1];
        if picked(sel, x) && native_ok(x) {
            hs.len() > 0 && native_list(p, sel, start, hs.subrange(0, hs.len() - 1))
                && native_converts(x, start + native_used_each(p, sel), hs[hs.len() - 1])
        } else {
            native_list(p, sel, start, hs)
        }
    }
}

/// The message of a raw native tree that does not convert.
pub open spec fn native_error(a: CAST) -> Seq<char>
    decreases a,
{
    let t = a.node_type@;
    let kids = a.children@;
    if t == "TranslationUnit"@ || t == "FunctionDecl"@ {
        Seq::empty()
    } else if t == "ReturnStmt"@ {
        if kids.len() > 0 {
            native_error(kids[0])
        } else {
            Seq::empty()
        }
    } else if t == "CallExpr"@ {
        if kids.len() == 0 {
            "CallExpr must have at least one child (callee)"@
        } else {
            native_error(kids[0])
        }
    } else if t == "DeclRefExpr"@ {
        Seq::empty()
    } else {
        "Unsupported C AST node type: "@ + t
    }
}

/// Converting a raw native tree uses no more handles than it has nodes.
proof fn lemma_native_used_within(a: CAST)
    ensures
        native_used(a) <= native_nodes(a),
    decreases a,
{
    let kids = a.children@;
    lemma_native_used_each_within(kids, 0);
    lemma_native_used_each_within(kids, 1);
    lemma_native_used_each_within(kids, 2);
    if kids.len() > 0 {
        lemma_native_used_within(kids[0]);
        lemma_native_nodes_split(kids);
        lemma_native_used_each_within(kids.subrange(1, kids.len() as int), 0);
    }
}

/// Converting the picked children of a list uses no more handles than the
/// list has nodes.
proof fn lemma_native_used_each_within(s: Seq<CAST>, sel: int)
    ensures
        native_used_each(s, sel) <= native_nodes_all(s),
    decreases s,
{
    if s.len() > 0 {
        lemma_native_used_each_within(s.subrange(0, s.len() - 1), sel);
        lemma_native_used_within(s[s.len() - 1]);
    }
}

/// The nodes of a non-empty list are those of its first tree and the rest.
proof fn lemma_native_nodes_split(s: Seq<CAST>)
    requires
        s.len() > 0,
    ensures
        native_nodes_all(s) == native_nodes(s[0]) + native_nodes_all(s.subrange(1, s.len() as int)),
    decreases s.len(),
{
    if s.len() == 1 {
        assert(s.subrange(0, 0) =~= Seq::<CAST>::empty());
        assert(s.subrange(1, 1) =~= Seq::<CAST>::empty());
    } else {
        let p = s.subrange(0, s.len() - 1);
        lemma_native_nodes_split(p);
        assert(p[0] == s[0]);
        let r = s.subrange(1, s.len() as int);
        assert(r.subrange(0, r.len() - 1) =~= p.subrange(1, p.len() as int));
        assert(r[r.len() - 1] == s[s.len() - 1]);
    }
}

/// The first `i + 1` trees of a list, split at the last one.
pub proof fn lemma_native_prefix(s: Seq<CAST>, from: int, i: int, sel: int)
    requires
        0 <= from <= i < s.len(),
    ensures
        s.subrange(from, i + 1).subrange(0, i - from) == s.subrange(from, i),
        s.subrange(from, i + 1)[i - from] == s[i],
        native_nodes_all(s.subrange(from, i + 1)) == native_nodes_all(s.subrange(from, i))
            + native_nodes(s[i]),
        native_used_each(s.subrange(from, i + 1), sel) == native_used_each(s.subrange(from, i), sel)
            + if picked(sel, s[i]) {
            native_used(s[i])
        } else {
            0
        },
        native_nodes_all(s.subrange(from, i + 1)) <= native_nodes_all(
            s.subrange(from, s.len() as int),
        ),
    decreases s.len() - i,
{
    let q = s.subrange(from, i + 1);
    assert(q.subrange(0, q.len() - 1) =~= s.subrange(from, i));
    if i + 1 < s.len() {
        lemma_native_prefix(s, from, i + 1, sel);
    }
}

/// A converted child extends the converted list by one.
proof fn lemma_native_list_extend(s: Seq<CAST>, sel: int, start: int, hs: Seq<CHIR>, h: CHIR)
    requires
        s.len() > 0,
        picked(sel, s[s.len() - 1]),
        native_ok(s[s.len() - 1]),
        native_list(s.subrange(0, s.len() - 1), sel, start, hs),
        native_converts(
            s[s.len() - 1],
            start + native_used_each(s.subrange(0, s.len() - 1), sel),
            h,
        ),
    ensures
        native_list(s, sel, start, hs.push(h)),
{
    reveal(native_converts);
    assert(hs.push(h).subrange(0, hs.len() as int) =~= hs);
    assert(hs.push(h)[hs.len() as int] == h);
}

fn is_picked(sel: u8, a: &CAST) -> (r: bool)
    ensures
        r == picked(sel as int, *a),
{
    let t = a.node_type.as_str();
    if sel == 1 {
        str_eq(t, "FunctionDecl")
    } else if sel == 2 {
        contains(t, "Stmt") || str_eq(t, "ReturnStmt")
    } else {
        true
    }
}

/// Hands out the next handle.
fn take_id(counter: &mut u64) -> (r: NodeId)
    requires
        *old(counter) < u64::MAX,
    ensures
        r.0 == *old(counter),
        *final(counter) == *old(counter) + 1,
{
    let id = NodeId::new(*counter);
    *counter = *counter + 1;
    id
}

/// Converts the picked children of `kids` from position `from` on, leaving
/// out those that fail.
#[verifier::rlimit(60)]
fn convert_children(kids: &Vec<CAST>, from: usize, sel: u8, counter: &mut u64) -> (r: Vec<CHIR>)
    requires
        from <= kids@.len(),
        *old(counter) + native_nodes_all(kids@.subrange(from as int, kids@.len() as int))
            <= u64::MAX,
    ensures
        native_list(
            kids@.subrange(from as int, kids@.len() as int),
            sel as int,
            *old(counter) as int,
            r@,
        ),
        *final(counter) == *old(counter) + native_used_each(
            kids@.subrange(from as int, kids@.len() as int),
            sel as int,
        ),
    decreases kids,
{
    let ghost start = *counter as int;
    let ghost all = kids@.subrange(from as int, kids@.len() as int);
    let mut out: Vec<CHIR> = Vec::new();
    let mut i: usize = from;
    assert(kids@.subrange(from as int, from as int) =~= Seq::<CAST>::empty());
    while i < kids.len()
        invariant
            from <= i <= kids@.len(),
            start == *old(counter),
            all == kids@.subrange(from as int, kids@.len() as int),
            start + native_nodes_all(all) <= u64::MAX,
            *counter == start + native_used_each(kids@.subrange(from as int, i as int), sel as int),
            native_used_each(kids@.subrange(from as int, i as int), sel as int) <= native_nodes_all(
                kids@.subrange(from as int, i as int),
            ),
            native_list(kids@.subrange(from as int, i as int), sel as int, start, out@),
        decreases kids@.len() - i,
    {
        proof {
            lemma_native_prefix(kids@, from as int, i as int, sel as int);
            lemma_native_used_within(kids@[i as int]);
            lemma_native_used_each_within(kids@.subrange(from as int, i + 1), sel as int);
        }
        let ghost before = out@;
        let ghost c0 = *counter as int;
        let ghost s = kids@.subrange(from as int, i + 1);
        let ghost p = kids@.subrange(from as int, i as int);
        assert(decreases_to!(kids => kids@[i as int]));
        if is_picked(sel, &kids[i]) {
            let res = convert_node(&kids[i], counter);
            match res {
                Ok(h) => {
                    out.push(h);
                    assert(out@ == before.push(h));
                    proof {
                        lemma_native_list_extend(s, sel as int, start, before, h);
                    }
                },
                Err(_) => {
                    assert(native_list(s, sel as int, start, out@));
                },
            }
        } else {
            assert(native_list(s, sel as int, start, out@));
        }
        i += 1;
    }
    out
}

/// Converts one raw native tree.
#[verifier::rlimit(60)]
fn convert_node(ast: &CAST, counter: &mut u64) -> (r: Result<CHIR, String>)
    requires
        *old(counter) + native_nodes(*ast) <= u64::MAX,
    ensures
        *final(counter) == *old(counter) + native_used(*ast),
        match r {
            Ok(h) => native_ok(*ast) && native_converts(*ast, *old(counter) as int, h),
            Err(e) => !native_ok(*ast) && e@ == native_error(*ast),
        },
    decreases ast,
{
    let t = ast.node_type.as_str();
    let ghost kids = ast.children@;
    proof {
        reveal(native_converts);
        lemma_native_used_each_within(kids, 0);
        lemma_native_used_each_within(kids, 1);
        lemma_native_used_each_within(kids, 2);
        assert(kids.subrange(0, kids.len() as int) =~= kids);
    }
    if str_eq(t, "TranslationUnit") {
        let declarations = convert_children(&ast.children, 0, 1, counter);
        Ok(
            CHIR::TranslationUnit {
                name: String::from_str("main"),
                declarations,
                meta: Metadata::new(),
            },
        )
    } else if str_eq(t, "FunctionDecl") {
        let name = match &ast.name {
            Some(n) => n.clone(),
            None => String::from_str("unknown"),
        };
        let return_type = parse_type(&ast.return_type);
        let mut params: Vec<Parameter> = Vec::new();
        let mut i: usize = 0;
        while i < ast.params.len()
            invariant
                i <= ast.params@.len(),
                params@.len() == i,
                forall|j: int|
                    0 <= j < i ==> (#[trigger] params@[j]).name == ast.params@[j].name
                        && params@[j].param_type == native_type(Some(ast.params@[j].param_type@)),
            decreases ast.params@.len() - i,
        {
            let p = &ast.params[i];
            let ty = parse_type(&Some(p.param_type.clone()));
            params.push(Parameter { name: p.name.clone(), param_type: ty });
            i += 1;
        }
        let body = convert_children(&ast.children, 0, 2, counter);
        let id = take_id(counter);
        Ok(
            CHIR::Function {
                id,
                name,
                return_type,
                params,
                body,
                storage_class: StorageClass::Static,
                visibility: Visibility::Private,
                meta: Metadata::new(),
            },
        )
    } else if str_eq(t, "ReturnStmt") {
        let value = if ast.children.len() == 0 {
            None
        } else {
            proof {
                lemma_native_nodes_split(kids);
                lemma_native_used_within(kids[0]);
            }
            let res = convert_node(&ast.children[0], counter);
            match res {
                Ok(h) => Some(Box::new(h)),
                Err(e) => {
                    return Err(e);
                },
            }
        };
        let id = take_id(counter);
        Ok(CHIR::Return { id, value, meta: Metadata::new() })
    } else if str_eq(t, "CallExpr") {
        if ast.children.len() == 0 {
            return Err(String::from_str("CallExpr must have at least one child (callee)"));
        }
        proof {
            lemma_native_nodes_split(kids);
            lemma_native_used_within(kids[0]);
            lemma_native_used_each_within(kids.subrange(1, kids.len() as int), 0);
        }
        let res = convert_node(&ast.children[0], counter);
        let callee = match res {
            Ok(h) => h,
            Err(e) => {
                return Err(e);
            },
        };
        let args = convert_children(&ast.children, 1, 0, counter);
        let id = take_id(counter);
        Ok(
            CHIR::Call {
                id,
                callee: Box::new(callee),
                args,
                inferred_type: None,
                meta: Metadata::new(),
            },
        )
    } else if str_eq(t, "DeclRefExpr") {
        let name = match &ast.name {
            Some(n) => n.clone(),
            None => String::from_str("unknown"),
        };
        let id = take_id(counter);
        if starts_with(name.as_str(), "Py_") || starts_with(name.as_str(), "_Py") {
            Ok(
                CHIR::CPythonMacro {
                    id,
                    name,
                    args: Vec::new(),
                    inferred_type: None,
                    meta: Metadata::new(),
                },
            )
        } else {
            Ok(CHIR::Variable { id, name, var_type: None, meta: Metadata::new() })
        }
    } else {
        let mut msg = String::from_str("Unsupported C AST node type: ");
        msg.append(t);
        Err(msg)
    }
}

/// Converts a raw native tree into the native representation, with handles
/// numbered from 1 in the order nodes are completed. Translation units keep
/// their function declarations; a function keeps the statements that
/// convert and drops the others; a call keeps the arguments that convert.
/// A node of unknown kind, or a call without a callee, is an error, which a
/// return passes on.
pub fn convert_to_hir(ast: &CAST) -> (r: Result<CHIR, String>)
    requires
        native_nodes(*ast) < u64::MAX,
    ensures
        match r {
            Ok(h) => native_ok(*ast) && native_converts(*ast, 1, h),
            Err(e) => !native_ok(*ast) && e@ == native_error(*ast),
        },
{
    let mut counter: u64 = 1;
    convert_node(ast, &mut counter)
}

} // verus!
