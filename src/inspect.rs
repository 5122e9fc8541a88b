//! Analyses of raw syntax trees that the debugger shows: node counts, the
//! runtime operations a native tree names, and the native parameters that
//! carry front-end runtime objects.

use vstd::prelude::*;

use crate::front_ast::{node_count, node_counts, PythonAST};
use crate::native::{
    identify_pattern, native_nodes, native_nodes_all, opt_view, pattern_of_name, CPythonPattern,
    CAST,
};
use crate::text::{contains, occurs_in, str_eq};

verus! {

/// Counts the nodes of a raw front-end tree.
pub fn count_nodes(node: &PythonAST) -> (r: usize)
    requires
        node_count(*node) <= usize::MAX,
    ensures
        r == node_count(*node),
    decreases node,
{
    let mut total: usize = 1;
    let mut i: usize = 0;
    while i < node.children.len()
        invariant
            i <= node.children@.len(),
            node_count(*node) <= usize::MAX,
            node_count(*node) == 1 + node_counts(node.children@),
            total == 1 + node_counts(node.children@.subrange(0, i as int)),
            node_counts(node.children@.subrange(0, i as int)) <= node_counts(node.children@),
        decreases node.children@.len() - i,
    {
        proof {
            crate::front_ast::lemma_node_counts_prefix(node.children@, i as int);
        }
        assert(decreases_to!(node => node.children));
        assert(decreases_to!(node.children => node.children@[i as int]));
        let c = count_nodes(&node.children[i]);
        total = total + c;
        i += 1;
    }
    assert(node.children@.subrange(0, node.children@.len() as int) =~= node.children@);
    total
}

/// Counts the nodes of a raw native tree.
pub fn count_c_nodes(node: &CAST) -> (r: usize)
    requires
        native_nodes(*node) <= usize::MAX,
    ensures
        r == native_nodes(*node),
    decreases node,
{
    let mut total: usize = 1;
    let mut i: usize = 0;
    while i < node.children.len()
        invariant
            i <= node.children@.len(),
            native_nodes(*node) <= usize::MAX,
            native_nodes(*node) == 1 + native_nodes_all(node.children@),
            total == 1 + native_nodes_all(node.children@.subrange(0, i as int)),
        decreases node.children@.len() - i,
    {
        proof {
            crate::native::lemma_native_prefix(node.children@, 0, i as int, 0);
        }
        assert(node.children@.subrange(0, node.children@.len() as int) =~= node.children@);
        assert(decreases_to!(node => node.children));
        assert(decreases_to!(node.children => node.children@[i as int]));
        let c = count_c_nodes(&node.children[i]);
        total = total + c;
        i += 1;
    }
    assert(node.children@.subrange(0, node.children@.len() as int) =~= node.children@);
    total
}

/// The named runtime operations of a native tree, in pre-order: each node
/// whose name stands for one, with that name.
pub open spec fn cpython_calls(a: CAST) -> Seq<(CPythonPattern, Seq<char>)>
    decreases a,
{
    let own: Seq<(CPythonPattern, Seq<char>)> = match (pattern_of_name(opt_view(a.name)), a.name) {
        (Some(p), Some(n)) => seq![(p, n@)],
        _ => Seq::empty(),
    };
    own + cpython_calls_all(a.children@)
}

/// The named runtime operations of a list of native trees, in order.
pub open spec fn cpython_calls_all(s: Seq<CAST>) -> Seq<(CPythonPattern, Seq<char>)>
    decreases s,
{
    if s.len() == 0 {
        Seq::empty()
    } else {
        cpython_calls_all(s.subrange(0, s.len() - 1)) + cpython_calls(s[s.len() - 1])
    }
}

/// The character views of collected operations.
pub open spec fn call_views(v: Seq<(CPythonPattern, String)>) -> Seq<(CPythonPattern, Seq<char>)> {
    v.map_values(|e: (CPythonPattern, String)| (e.0, e.1@))
}

/// Collects the named runtime operations of a native tree, in pre-order.
pub fn collect_cpython_calls(node: &CAST) -> (r: Vec<(CPythonPattern, String)>)
    ensures
        call_views(r@) == cpython_calls(*node),
    decreases node,
{
    let mut calls: Vec<(CPythonPattern, String)> = Vec::new();
    if let Some(p) = identify_pattern(node) {
        if let Some(name) = &node.name {
            calls.push((p, name.clone()));
        }
    }
    let ghost own = call_views(calls@);
    assert(own =~= match (pattern_of_name(opt_view(node.name)), node.name) {
        (Some(p), Some(n)) => seq![(p, n@)],
        _ => Seq::<(CPythonPattern, Seq<char>)>::empty(),
    });
    let mut i: usize = 0;
    while i < node.children.len()
        invariant
            i <= node.children@.len(),
            call_views(calls@) == own + cpython_calls_all(node.children@.subrange(0, i as int)),
        decreases node.children@.len() - i,
    {
        assert(decreases_to!(node => node.children));
        assert(decreases_to!(node.children => node.children@[i as int]));
        let sub = collect_cpython_calls(&node.children[i]);
        let ghost before = calls@;
        let mut j: usize = 0;
        while j < sub.len()
            invariant
                j <= sub@.len(),
                call_views(calls@) == call_views(before) + call_views(sub@.subrange(0, j as int)),
            decreases sub@.len() - j,
        {
            let (p, n) = &sub[j];
            let ghost prev = calls@;
            calls.push((*p, n.clone()));
            assert(call_views(calls@) =~= call_views(prev).push((sub@[j as int].0, sub@[j as int].1@)));
            assert(call_views(sub@.subrange(0, j + 1)) =~= call_views(sub@.subrange(0, j as int)).push(
                (sub@[j as int].0, sub@[j as int].1@),
            ));
            j += 1;
            assert(call_views(calls@) =~= call_views(before) + call_views(sub@.subrange(0, j as int)));
        }
        proof {
            assert(sub@.subrange(0, sub@.len() as int) =~= sub@);
            let s = node.children@.subrange(0, i + 1);
            assert(s.subrange(0, s.len() - 1) =~= node.children@.subrange(0, i as int));
            assert(s[s.len() - 1] == node.children@[i as int]);
            assert(call_views(calls@) =~= own + cpython_calls_all(s));
        }
        i += 1;
    }
    assert(node.children@.subrange(0, node.children@.len() as int) =~= node.children@);
    calls
}

/// A native parameter type that carries a front-end runtime object.
pub open spec fn is_object_type(t: Seq<char>) -> bool {
    occurs_in("PyObject"@, t) || occurs_in("PyList"@, t) || occurs_in("PyDict"@, t)
}

/// The parameters of named native functions that carry front-end runtime
/// objects, in pre-order: function name, parameter name, parameter type.
pub open spec fn object_params(a: CAST) -> Seq<(Seq<char>, Seq<char>, Seq<char>)>
    decreases a,
{
    let own: Seq<(Seq<char>, Seq<char>, Seq<char>)> = if a.node_type@ == "FunctionDecl"@ {
        match a.name {
            Some(f) => object_params_of(f@, a.params@),
            None => Seq::empty(),
        }
    } else {
        Seq::empty()
    };
    own + object_params_all(a.children@)
}

/// The parameters of function `f` that carry front-end runtime objects.
pub open spec fn object_params_of(f: Seq<char>, ps: Seq<crate::native::CParam>) -> Seq<
    (Seq<char>, Seq<char>, Seq<char>),
>
    decreases ps.len(),
{
    if ps.len() == 0 {
        Seq::empty()
    } else {
        let last = ps[ps.len() - 1];
        object_params_of(f, ps.subrange(0, ps.len() - 1)) + if is_object_type(last.param_type@) {
            seq![(f, last.name@, last.param_type@)]
        } else {
            Seq::empty()
        }
    }
}

/// The object-carrying parameters of a list of native trees, in order.
pub open spec fn object_params_all(s: Seq<CAST>) -> Seq<(Seq<char>, Seq<char>, Seq<char>)>
    decreases s,
{
    if s.len() == 0 {
        Seq::empty()
    } else {
        object_params_all(s.subrange(0, s.len() - 1)) + object_params(s[s.len() - 1])
    }
}

/// The character views of collected parameters.
pub open spec fn param_views(v: Seq<(String, String, String)>) -> Seq<
    (Seq<char>, Seq<char>, Seq<char>),
> {
    v.map_values(|e: (String, String, String)| (e.0@, e.1@, e.2@))
}

/// Collects the parameters of named native functions that carry front-end
/// runtime objects, in pre-order.
pub fn collect_pyobject_params(node: &CAST) -> (r: Vec<(String, String, String)>)
    ensures
        param_views(r@) == object_params(*node),
    decreases node,
{
    let mut out: Vec<(String, String, String)> = Vec::new();
    if str_eq(node.node_type.as_str(), "FunctionDecl") {
        if let Some(f) = &node.name {
            let mut k: usize = 0;
            while k < node.params.len()
                invariant
                    k <= node.params@.len(),
                    param_views(out@) == object_params_of(f@, node.params@.subrange(0, k as int)),
                decreases node.params@.len() - k,
            {
                let p = &node.params[k];
                let ghost before = out@;
                let t = p.param_type.as_str();
                if contains(t, "PyObject") || contains(t, "PyList") || contains(t, "PyDict") {
                    out.push((f.clone(), p.name.clone(), p.param_type.clone()));
                }
                proof {
                    let s = node.params@.subrange(0, k + 1);
                    assert(s.subrange(0, s.len() - 1) =~= node.params@.subrange(0, k as int));
                    assert(s[s.len() - 1] == node.params@[k as int]);
                    assert(param_views(out@) =~= object_params_of(f@, s));
                }
                k += 1;
            }
            assert(node.params@.subrange(0, node.params@.len() as int) =~= node.params@);
        }
    }
    let ghost own = param_views(out@);
    let mut i: usize = 0;
    assert(own + object_params_all(node.children@.subrange(0, 0)) =~= own);
    while i < node.children.len()
        invariant
            i <= node.children@.len(),
            own + object_params_all(Seq::<CAST>::empty()) == own,
            own == (if node.node_type@ == "FunctionDecl"@ {
                match node.name {
                    Some(f) => object_params_of(f@, node.params@),
                    None => Seq::empty(),
                }
            } else {
                Seq::<(Seq<char>, Seq<char>, Seq<char>)>::empty()
            }),
            param_views(out@) == own + object_params_all(node.children@.subrange(0, i as int)),
        decreases node.children@.len() - i,
    {
        assert(decreases_to!(node => node.children));
        assert(decreases_to!(node.children => node.children@[i as int]));
        let sub = collect_pyobject_params(&node.children[i]);
        let ghost before = out@;
        let mut j: usize = 0;
        while j < sub.len()
            invariant
                j <= sub@.len(),
                param_views(out@) == param_views(before) + param_views(sub@.subrange(0, j as int)),
            decreases sub@.len() - j,
        {
            let e = &sub[j];
            let ghost prev = out@;
            out.push((e.0.clone(), e.1.clone(), e.2.clone()));
            assert(param_views(out@) =~= param_views(prev).push(
                (sub@[j as int].0@, sub@[j as int].1@, sub@[j as int].2@),
            ));
            assert(param_views(sub@.subrange(0, j + 1)) =~= param_views(sub@.subrange(0, j as int)).push(
                (sub@[j as int].0@, sub@[j as int].1@, sub@[j as int].2@),
            ));
            j += 1;
            assert(param_views(out@) =~= param_views(before) + param_views(
                sub@.subrange(0, j as int),
            ));
        }
        proof {
            assert(sub@.subrange(0, sub@.len() as int) =~= sub@);
            let s = node.children@.subrange(0, i + 1);
            assert(s.subrange(0, s.len() - 1) =~= node.children@.subrange(0, i as int));
            assert(s[s.len() - 1] == node.children@[i as int]);
            assert(param_views(out@) =~= own + object_params_all(s));
        }
        i += 1;
    }
    assert(node.children@.subrange(0, node.children@.len() as int) =~= node.children@);
    out
}

} // verus!
