//! The front-end parser adapter's raw syntax nodes, and their conversion
//! into the front-end representation. Handles are numbered from 1 in the
//! order in which nodes are completed: children before their parent.

use vstd::prelude::*;

use crate::metadata::{is_empty_metadata, Metadata};
use crate::python::{Literal, PythonHIR};
use crate::text::str_eq;
use crate::{NodeId, Visibility};

verus! {

/// A raw front-end syntax node, as the parser adapter produces it.
#[derive(Debug)]
pub struct PythonAST {
    /// Kind of the node, such as `Module`, `FunctionDef` or `Call`.
    pub node_type: String,
    /// Line of the node.
    pub lineno: Option<usize>,
    /// Column offset of the node.
    pub col_offset: Option<usize>,
    /// Child nodes, in order.
    pub children: Vec<PythonAST>,
    /// Attributes by name, such as a function's `name` or a name's `id`.
    pub attributes: Vec<(String, String)>,
}

impl PythonAST {
    /// A node of the given kind with nothing else set.
    pub fn new(node_type: String) -> (r: Self)
        ensures
            r.node_type == node_type,
            r.lineno is None,
            r.col_offset is None,
            r.children@.len() == 0,
            r.attributes@.len() == 0,
    {
        PythonAST {
            node_type,
            lineno: None,
            col_offset: None,
            children: Vec::new(),
            attributes: Vec::new(),
        }
    }
}

/// The value of the first attribute named `key`.
pub open spec fn attribute_of(attrs: Seq<(String, String)>, key: Seq<char>) -> Option<Seq<char>>
    decreases attrs.len(),
{
    if attrs.len() == 0 {
        None
    } else if attrs[0].0@ == key {
        Some(attrs[0].1@)
    } else {
        attribute_of(attrs.subrange(1, attrs.len() as int), key)
    }
}

/// The value of the attribute named `key`, or `unknown`.
pub open spec fn attribute_or_unknown(attrs: Seq<(String, String)>, key: Seq<char>) -> Seq<char> {
    match attribute_of(attrs, key) {
        Some(v) => v,
        None => "unknown"@,
    }
}

/// Number of nodes in a tree.
pub open spec fn node_count(a: PythonAST) -> nat
    decreases a,
{
    1 + node_counts(a.children@)
}

/// Number of nodes in a list of trees.
pub open spec fn node_counts(s: Seq<PythonAST>) -> nat
    decreases s,
{
    if s.len() == 0 {
        0
    } else {
        node_counts(s.subrange(0, s.len() - 1)) + node_count(s[s.len() - 1])
    }
}

/// A tree that converts: every node met is of a known kind, and a call has
/// a callee. A return looks at its first child only; names and constants at
/// none.
pub open spec fn converts_ok(a: PythonAST) -> bool
    decreases a,
{
    let t = a.node_type@;
    if t == "Module"@ || t == "FunctionDef"@ {
        all_convert(a.children@)
    } else if t == "Return"@ {
        a.children@.len() == 0 || converts_ok(a.children@[0])
    } else if t == "Call"@ {
        a.children@.len() > 0 && all_convert(a.children@)
    } else {
        t == "Name"@ || t == "Constant"@
    }
}

/// Every tree of the list converts.
pub open spec fn all_convert(s: Seq<PythonAST>) -> bool
    decreases s,
{
    if s.len() == 0 {
        true
    } else {
        all_convert(s.subrange(0, s.len() - 1)) && converts_ok(s[s.len() - 1])
    }
}

/// How many handles converting a tree uses: one per node converted, but
/// none for the module.
pub open spec fn handles_used(a: PythonAST) -> nat
    decreases a,
{
    let t = a.node_type@;
    if t == "Module"@ {
        handles_used_all(a.children@)
    } else if t == "FunctionDef"@ {
        handles_used_all(a.children@) + 1
    } else if t == "Return"@ {
        (if a.children@.len() > 0 {
            handles_used(a.children@[0])
        } else {
            0
        }) + 1
    } else if t == "Call"@ {
        handles_used_all(a.children@) + 1
    } else {
        1
    }
}

/// How many handles converting every tree of a list uses.
pub open spec fn handles_used_all(s: Seq<PythonAST>) -> nat
    decreases s,
{
    if s.len() == 0 {
        0
    } else {
        handles_used_all(s.subrange(0, s.len() - 1)) + handles_used(s[s.len() - 1])
    }
}

/// `h` is what converting the tree `a` gives when its first handle is
/// `start`.
#[verifier::opaque]
pub open spec fn converts(a: PythonAST, start: int, h: PythonHIR) -> bool
    decreases a,
{
    let t = a.node_type@;
    let kids = a.children@;
    if t == "Module"@ {
        match h {
            PythonHIR::Module { name, body, meta } => name@ == "main"@ && is_empty_metadata(meta)
                && body@.len() == kids.len() && (forall|i: int|
                0 <= i < kids.len() ==> converts(
                #[trigger] kids[i],
                start + handles_used_all(kids.subrange(0, i)),
                body@[i],
            )),
            _ => false,
        }
    } else if t == "FunctionDef"@ {
        match h {
            PythonHIR::Function {
                id,
                name,
                params,
                return_type,
                body,
                decorators,
                visibility,
                meta,
            } => id.0 == start + handles_used_all(kids) && name@ == attribute_or_unknown(
                a.attributes@,
                "name"@,
            ) && params@.len() == 0 && return_type is None && decorators@.len() == 0
                && visibility == Visibility::Public && is_empty_metadata(meta) && body@.len() == kids.len() && (forall|i: int|
                0 <= i < kids.len() ==> converts(
                #[trigger] kids[i],
                start + handles_used_all(kids.subrange(0, i)),
                body@[i],
            )),
            _ => false,
        }
    } else if t == "Return"@ {
        match h {
            PythonHIR::Return { id, value, meta } => is_empty_metadata(meta) && if kids.len() > 0 {
                id.0 == start + handles_used(kids[0]) && match value {
                    Some(v) => converts(kids[0], start, *v),
                    None => false,
                }
            } else {
                id.0 == start && value is None
            },
            _ => false,
        }
    } else if t == "Call"@ {
        match h {
            PythonHIR::Call { id, callee, args, kwargs, inferred_type, meta } => kids.len() > 0
                && id.0 == start + handles_used_all(kids) && kwargs@.len() == 0
                && inferred_type is None && is_empty_metadata(meta) && (seq![*callee] + args@).len() == kids.len() && (forall|i: int|
                0 <= i < kids.len() ==> converts(
                #[trigger] kids[i],
                start + handles_used_all(kids.subrange(0, i)),
                (seq![*callee] + args@)[i],
            )),
            _ => false,
        }
    } else if t == "Name"@ {
        match h {
            PythonHIR::Variable { id, name, inferred_type, meta } => id.0 == start && name@
                == attribute_or_unknown(a.attributes@, "id"@) && inferred_type is None
                && is_empty_metadata(meta),
            _ => false,
        }
    } else if t == "Constant"@ {
        match h {
            PythonHIR::Literal { id, value, meta } => id.0 == start && value
                == Literal::NoneValue && is_empty_metadata(meta),
            _ => false,
        }
    } else {
        false
    }
}

/// `hs` is what converting the trees `s` one after the other gives when the
/// first handle is `start`.
pub open spec fn converts_list(s: Seq<PythonAST>, start: int, hs: Seq<PythonHIR>) -> bool {
    hs.len() == s.len() && forall|i: int|
        0 <= i < s.len() ==> converts(
            #[trigger] s[i],
            start + handles_used_all(s.subrange(0, i)),
            hs[i],
        )
}

/// The message of the first failure met when converting a tree.
pub open spec fn first_error(a: PythonAST) -> Seq<char>
    decreases a,
{
    let t = a.node_type@;
    if t == "Module"@ || t == "FunctionDef"@ {
        first_error_all(a.children@)
    } else if t == "Return"@ {
        if a.children@.len() > 0 {
            first_error(a.children@[0])
        } else {
            Seq::empty()
        }
    } else if t == "Call"@ {
        if a.children@.len() == 0 {
            "Call node must have at least one child (the callee)"@
        } else {
            first_error_all(a.children@)
        }
    } else if t == "Name"@ || t == "Constant"@ {
        Seq::empty()
    } else {
        "Unsupported Python AST node type: "@ + t
    }
}

/// The message of the first failure met when converting a list of trees.
pub open spec fn first_error_all(s: Seq<PythonAST>) -> Seq<char>
    decreases s,
{
    if s.len() == 0 {
        Seq::empty()
    } else if !all_convert(s.subrange(0, s.len() - 1)) {
        first_error_all(s.subrange(0, s.len() - 1))
    } else {
        first_error(s[s.len() - 1])
    }
}

/// Converting a tree uses no more handles than it has nodes.
proof fn lemma_handles_within_nodes(a: PythonAST)
    ensures
        handles_used(a) <= node_count(a),
    decreases a,
{
    lemma_handles_within_nodes_all(a.children@);
    if a.children@.len() > 0 {
        lemma_handles_within_nodes(a.children@[0]);
        lemma_node_counts_prefix(a.children@, 0);
        assert(a.children@.subrange(0, 0) =~= Seq::<PythonAST>::empty());
    }
}

/// Converting a list of trees uses no more handles than they have nodes.
proof fn lemma_handles_within_nodes_all(s: Seq<PythonAST>)
    ensures
        handles_used_all(s) <= node_counts(s),
    decreases s,
{
    if s.len() > 0 {
        lemma_handles_within_nodes_all(s.subrange(0, s.len() - 1));
        lemma_handles_within_nodes(s[s.len() - 1]);
    }
}

/// A prefix and the tree after it count no more nodes than the whole list.
pub proof fn lemma_node_counts_prefix(s: Seq<PythonAST>, i: int)
    requires
        0 <= i < s.len(),
    ensures
        node_counts(s.subrange(0, i)) + node_count(s[i]) <= node_counts(s),
        node_counts(s.subrange(0, i + 1)) == node_counts(s.subrange(0, i)) + node_count(s[i]),
        handles_used_all(s.subrange(0, i + 1)) == handles_used_all(s.subrange(0, i))
            + handles_used(s[i]),
        all_convert(s.subrange(0, i + 1)) == (all_convert(s.subrange(0, i)) && converts_ok(s[i])),
    decreases s.len(),
{
    let p = s.subrange(0, i + 1);
    assert(p.subrange(0, p.len() - 1) =~= s.subrange(0, i));
    assert(p[p.len() - 1] == s[i]);
    if i + 1 < s.len() {
        let q = s.subrange(0, s.len() - 1);
        assert(q.subrange(0, i) =~= s.subrange(0, i));
        assert(q.subrange(0, i + 1) =~= p);
        lemma_node_counts_prefix(q, i);
    } else {
        assert(p =~= s);
    }
}

/// The first tree that fails decides the list's failure and its message.
proof fn lemma_first_error_at(s: Seq<PythonAST>, i: int)
    requires
        0 <= i < s.len(),
        all_convert(s.subrange(0, i)),
        !converts_ok(s[i]),
    ensures
        !all_convert(s),
        first_error_all(s) == first_error(s[i]),
    decreases s.len(),
{
    lemma_node_counts_prefix(s, i);
    if i < s.len() - 1 {
        let q = s.subrange(0, s.len() - 1);
        assert(q.subrange(0, i) =~= s.subrange(0, i));
        assert(q[i] == s[i]);
        lemma_first_error_at(q, i);
    } else {
        assert(s.subrange(0, s.len() - 1) =~= s.subrange(0, i));
    }
}

/// The value of the first attribute named `key`.
fn attribute(attrs: &Vec<(String, String)>, key: &str) -> (r: Option<String>)
    ensures
        match r {
            Some(v) => attribute_of(attrs@, key@) == Some(v@),
            None => attribute_of(attrs@, key@) is None,
        },
{
    let mut i: usize = 0;
    assert(attrs@.subrange(0, attrs@.len() as int) =~= attrs@);
    while i < attrs.len()
        invariant
            i <= attrs@.len(),
            attribute_of(attrs@, key@) == attribute_of(
                attrs@.subrange(i as int, attrs@.len() as int),
                key@,
            ),
        decreases attrs@.len() - i,
    {
        let ghost rest = attrs@.subrange(i as int, attrs@.len() as int);
        assert(rest[0] == attrs@[i as int]);
        assert(rest.subrange(1, rest.len() as int) =~= attrs@.subrange(
            i + 1,
            attrs@.len() as int,
        ));
        if str_eq(attrs[i].0.as_str(), key) {
            return Some(attrs[i].1.clone());
        }
        i += 1;
    }
    None
}

/// The value of the attribute named `key`, or `unknown`.
fn attribute_or_default(attrs: &Vec<(String, String)>, key: &str) -> (r: String)
    ensures
        r@ == attribute_or_unknown(attrs@, key@),
{
    match attribute(attrs, key) {
        Some(v) => v,
        None => String::from_str("unknown"),
    }
}

/// Hands out the next handle.
fn next_id(counter: &mut u64) -> (r: NodeId)
    requires
        *old(counter) < u64::MAX,
    ensures
        r.0 == *old(counter),
        *final(counter) == *old(counter) + 1,
{
    let id = NodeId::new(*counter);
    *counter = *counter + 1;
    id
}

/// Converts a list of trees one after the other.
#[verifier::rlimit(60)]
fn convert_all(kids: &Vec<PythonAST>, counter: &mut u64) -> (r: Result<Vec<PythonHIR>, String>)
    requires
        *old(counter) + node_counts(kids@) <= u64::MAX,
    ensures
        match r {
            Ok(v) => all_convert(kids@) && converts_list(kids@, *old(counter) as int, v@)
                && *final(counter) == *old(counter) + handles_used_all(kids@),
            Err(e) => !all_convert(kids@) && e@ == first_error_all(kids@) && *final(counter)
                <= *old(counter) + node_counts(kids@),
        },
    decreases kids,
{
    let ghost start = *counter as int;
    let mut out: Vec<PythonHIR> = Vec::new();
    let mut i: usize = 0;
    assert(kids@.subrange(0, 0) =~= Seq::<PythonAST>::empty());
    while i < kids.len()
        invariant
            i <= kids@.len(),
            start == *old(counter),
            start + node_counts(kids@) <= u64::MAX,
            *counter == start + handles_used_all(kids@.subrange(0, i as int)),
            handles_used_all(kids@.subrange(0, i as int)) <= node_counts(
                kids@.subrange(0, i as int),
            ),
            all_convert(kids@.subrange(0, i as int)),
            out@.len() == i,
            forall|j: int|
                0 <= j < i ==> converts(
                    #[trigger] kids@[j],
                    start + handles_used_all(kids@.subrange(0, j)),
                    out@[j],
                ),
        decreases kids@.len() - i,
    {
        proof {
            lemma_node_counts_prefix(kids@, i as int);
            lemma_handles_within_nodes(kids@[i as int]);
        }
        assert(decreases_to!(kids => kids@[i as int]));
        let res = convert_node(&kids[i], counter);
        match res {
            Ok(h) => {
                out.push(h);
            },
            Err(e) => {
                proof {
                    lemma_first_error_at(kids@, i as int);
                }
                return Err(e);
            },
        }
        i += 1;
    }
    proof {
        assert(kids@.subrange(0, kids@.len() as int) =~= kids@);
        assert(all_convert(kids@));
        assert(*counter == start + handles_used_all(kids@));
        assert forall|j: int| 0 <= j < kids@.len() implies converts(
            #[trigger] kids@[j],
            start + handles_used_all(kids@.subrange(0, j)),
            out@[j],
        ) by {}
        assert(converts_list(kids@, start, out@));
    }
    Ok(out)
}

/// Converts one tree.
fn convert_node(ast: &PythonAST, counter: &mut u64) -> (r: Result<PythonHIR, String>)
    requires
        *old(counter) + node_count(*ast) <= u64::MAX,
    ensures
        match r {
            Ok(h) => converts_ok(*ast) && converts(*ast, *old(counter) as int, h)
                && *final(counter) == *old(counter) + handles_used(*ast),
            Err(e) => !converts_ok(*ast) && e@ == first_error(*ast) && *final(counter)
                <= *old(counter) + node_count(*ast),
        },
    decreases ast,
{
    let t = ast.node_type.as_str();
    let ghost kids = ast.children@;
    proof {
        lemma_handles_within_nodes_all(kids);
        reveal(converts);
    }
    if str_eq(t, "Module") {
        let res = convert_all(&ast.children, counter);
        let body = match res {
            Ok(v) => v,
            Err(e) => {
                return Err(e);
            },
        };
        Ok(PythonHIR::Module { name: String::from_str("main"), body, meta: Metadata::new() })
    } else if str_eq(t, "FunctionDef") {
        let name = attribute_or_default(&ast.attributes, "name");
        let res = convert_all(&ast.children, counter);
        let body = match res {
            Ok(v) => v,
            Err(e) => {
                return Err(e);
            },
        };
        let id = next_id(counter);
        Ok(
            PythonHIR::Function {
                id,
                name,
                params: Vec::new(),
                return_type: None,
                body,
                decorators: Vec::new(),
                visibility: Visibility::Public,
                meta: Metadata::new(),
            },
        )
    } else if str_eq(t, "Return") {
        let value = if ast.children.len() == 0 {
            None
        } else {
            proof {
                lemma_node_counts_prefix(kids, 0);
                lemma_handles_within_nodes(kids[0]);
            }
            let res = convert_node(&ast.children[0], counter);
            match res {
                Ok(h) => Some(Box::new(h)),
                Err(e) => {
                    return Err(e);
                },
            }
        };
        let id = next_id(counter);
        Ok(PythonHIR::Return { id, value, meta: Metadata::new() })
    } else if str_eq(t, "Call") {
        if ast.children.len() == 0 {
            return Err(String::from_str("Call node must have at least one child (the callee)"));
        }
        let res = convert_all(&ast.children, counter);
        let mut all = match res {
            Ok(v) => v,
            Err(e) => {
                return Err(e);
            },
        };
        let ghost converted = all@;
        let callee = all.remove(0);
        assert(converted =~= seq![callee] + all@);
        let id = next_id(counter);
        Ok(
            PythonHIR::Call {
                id,
                callee: Box::new(callee),
                args: all,
                kwargs: Vec::new(),
                inferred_type: None,
                meta: Metadata::new(),
            },
        )
    } else if str_eq(t, "Name") {
        let name = attribute_or_default(&ast.attributes, "id");
        let id = next_id(counter);
        Ok(PythonHIR::Variable { id, name, inferred_type: None, meta: Metadata::new() })
    } else if str_eq(t, "Constant") {
        let id = next_id(counter);
        Ok(PythonHIR::Literal { id, value: Literal::NoneValue, meta: Metadata::new() })
    } else {
        let mut msg = String::from_str("Unsupported Python AST node type: ");
        msg.append(t);
        Err(msg)
    }
}

/// Converts a raw front-end tree into the front-end representation, with
/// handles numbered from 1. Modules, function definitions, returns, calls,
/// names and constants are converted; any other kind, or a call without a
/// callee, is an error naming the first such node met.
pub fn convert_to_hir(ast: &PythonAST) -> (r: Result<PythonHIR, String>)
    requires
        node_count(*ast) < u64::MAX,
    ensures
        match r {
            Ok(h) => converts_ok(*ast) && converts(*ast, 1, h),
            Err(e) => !converts_ok(*ast) && e@ == first_error(*ast),
        },
{
    let mut counter: u64 = 1;
    convert_node(ast, &mut counter)
}

} // verus!
