use spydecy::c::{StorageClass, CHIR};
use spydecy::catalog::all_patterns;
use spydecy::error::UnificationError;
use spydecy::metadata::Metadata;
use spydecy::optimizer::OptimizationPipeline;
use spydecy::python::{self, PythonHIR};
use spydecy::types::{CType, IntSize, RustType, Type};
use spydecy::unified::{UnificationPattern, UnifiedHIR};
use spydecy::unifier::Unifier;
use spydecy::{Language, NodeId, Visibility};

fn var(id: u64, name: &str) -> PythonHIR {
    PythonHIR::Variable {
        id: NodeId::new(id),
        name: name.to_owned(),
        inferred_type: None,
        meta: Metadata::new(),
    }
}

fn call(id: u64, callee: &str, args: Vec<PythonHIR>) -> PythonHIR {
    PythonHIR::Call {
        id: NodeId::new(id),
        callee: Box::new(var(id + 100, callee)),
        args,
        kwargs: vec![],
        inferred_type: None,
        meta: Metadata::new(),
    }
}

fn function(id: u64, name: &str, return_type: Type) -> CHIR {
    CHIR::Function {
        id: NodeId::new(id),
        name: name.to_owned(),
        return_type,
        params: vec![],
        body: vec![],
        storage_class: StorageClass::Static,
        visibility: Visibility::Private,
        meta: Metadata::new(),
    }
}

fn literal(id: u64, value: python::Literal) -> PythonHIR {
    PythonHIR::Literal { id: NodeId::new(id), value, meta: Metadata::new() }
}

fn check_call(unified: UnifiedHIR, expected_callee: &str, expected: UnificationPattern) {
    let UnifiedHIR::Call { target_language, callee, cross_mapping, .. } = unified else {
        panic!("Expected UnifiedHIR::Call");
    };
    assert_eq!(target_language, Language::Rust);
    assert_eq!(callee, expected_callee);
    assert!(cross_mapping.is_some());
    assert_eq!(cross_mapping.expect("cross_mapping should exist").pattern, expected);
}

#[test]
fn test_unifier_len_pattern() {
    let mut unifier = Unifier::new();
    let python_call = call(1, "len", vec![]);
    let c_function = function(3, "list_length", Type::C(CType::SizeT));
    let unified = unifier.unify(&python_call, &c_function).expect("Unification should succeed");
    check_call(unified, "Vec::len", UnificationPattern::LenPattern);
}

#[test]
fn test_unifier_append_pattern() {
    let mut unifier = Unifier::new();
    let python_call = call(1, "append", vec![var(3, "item")]);
    let c_function = function(4, "PyList_Append", Type::C(CType::Int));
    let unified = unifier.unify(&python_call, &c_function).expect("Unification should succeed");
    check_call(unified, "Vec::push", UnificationPattern::AppendPattern);
}

#[test]
fn test_unifier_dict_get_pattern() {
    let mut unifier = Unifier::new();
    let python_call = call(1, "get", vec![var(3, "key")]);
    let c_function =
        function(4, "PyDict_GetItem", Type::C(CType::Pointer(Box::new(CType::Void))));
    let unified = unifier.unify(&python_call, &c_function).expect("Unification should succeed");
    check_call(unified, "HashMap::get", UnificationPattern::DictGetPattern);
}

#[test]
fn every_catalog_entry_unifies_from_its_names() {
    let entries = [
        ("len", "list_length", "Vec::len", UnificationPattern::LenPattern),
        ("append", "PyList_Append", "Vec::push", UnificationPattern::AppendPattern),
        ("get", "PyDict_GetItem", "HashMap::get", UnificationPattern::DictGetPattern),
        ("reverse", "list_reverse", "Vec::reverse", UnificationPattern::ReversePattern),
        ("clear", "list_clear", "Vec::clear", UnificationPattern::ClearPattern),
        ("pop", "list_pop", "Vec::pop", UnificationPattern::PopPattern),
        ("insert", "list_insert", "Vec::insert", UnificationPattern::InsertPattern),
        ("extend", "list_extend", "Vec::extend", UnificationPattern::ExtendPattern),
        ("dict_pop", "PyDict_DelItem", "HashMap::remove", UnificationPattern::DictPopPattern),
        ("dict_clear", "PyDict_Clear", "HashMap::clear", UnificationPattern::DictClearPattern),
        ("keys", "PyDict_Keys", "HashMap::keys", UnificationPattern::DictKeysPattern),
    ];
    assert_eq!(entries.len(), all_patterns().len());
    for (front, native, target, pattern) in entries {
        let mut unifier = Unifier::new();
        let unified = unifier
            .unify(&call(1, front, vec![]), &function(2, native, Type::Unknown))
            .expect("catalog pair should unify");
        check_call(unified, target, pattern);
    }
}

#[test]
fn unified_call_carries_pattern_type_handles_and_fresh_id() {
    let mut unifier = Unifier::new();
    let first = unifier
        .unify(&call(10, "len", vec![]), &function(20, "list_length", Type::Unknown))
        .unwrap();
    let second = unifier
        .unify(&call(11, "keys", vec![]), &function(21, "PyDict_Keys", Type::Unknown))
        .unwrap();
    let UnifiedHIR::Call { id, inferred_type, cross_mapping, source_language, .. } = first else {
        panic!("Expected UnifiedHIR::Call");
    };
    assert_eq!(id, NodeId::new(1));
    assert_eq!(inferred_type, Type::Rust(RustType::Int { bits: IntSize::ISize, signed: false }));
    assert_eq!(source_language, Language::Python);
    let m = cross_mapping.unwrap();
    assert_eq!(m.python_node, Some(NodeId::new(10)));
    assert_eq!(m.c_node, Some(NodeId::new(20)));
    assert!(!m.boundary_eliminated);
    let UnifiedHIR::Call { id, inferred_type, .. } = second else {
        panic!("Expected UnifiedHIR::Call");
    };
    assert_eq!(id, NodeId::new(2));
    assert_eq!(inferred_type, Type::Rust(RustType::Custom("Keys".to_owned())));
}

#[test]
fn argument_named_my_list_is_preserved() {
    let mut unifier = Unifier::new();
    let unified = unifier
        .unify(&call(1, "len", vec![var(2, "my_list")]), &function(3, "list_length", Type::Unknown))
        .unwrap();
    let UnifiedHIR::Call { args, .. } = unified else {
        panic!("Expected UnifiedHIR::Call");
    };
    assert_eq!(args.len(), 1);
    match &args[0] {
        UnifiedHIR::Variable { name, id, source_language, .. } => {
            assert_eq!(name, "my_list");
            assert_eq!(*id, NodeId::new(2));
            assert_eq!(*source_language, Language::Python);
        }
        other => panic!("Expected a variable, got {other:?}"),
    }
}

#[test]
fn nested_arguments_keep_their_order_and_shape() {
    let mut unifier = Unifier::new();
    let args = vec![
        var(2, "items"),
        literal(3, python::Literal::Int(0)),
        PythonHIR::BinOp {
            id: NodeId::new(4),
            op: python::BinOp::Add,
            left: Box::new(var(5, "i")),
            right: Box::new(literal(6, python::Literal::Int(1))),
            inferred_type: None,
            meta: Metadata::new(),
        },
    ];
    let unified = unifier
        .unify(&call(1, "insert", args), &function(7, "list_insert", Type::Unknown))
        .unwrap();
    let UnifiedHIR::Call { args, .. } = unified else {
        panic!("Expected UnifiedHIR::Call");
    };
    assert_eq!(args.len(), 3);
    assert!(matches!(&args[0], UnifiedHIR::Variable { name, .. } if name == "items"));
    assert!(matches!(&args[1], UnifiedHIR::Literal { .. }));
    assert!(matches!(&args[2], UnifiedHIR::BinOp { op: spydecy::unified::BinOp::Add, .. }));
}

#[test]
fn unknown_names_fail_with_suggestions() {
    let mut unifier = Unifier::new();
    let err = unifier
        .unify(&call(1, "frobnicate", vec![]), &function(2, "zzz_qqq", Type::Unknown))
        .unwrap_err();
    match err {
        UnificationError::NoPatternMatch { python_fn, c_fn, suggestions } => {
            assert_eq!(python_fn, "frobnicate");
            assert_eq!(c_fn, "zzz_qqq");
            assert!(!suggestions.is_empty());
            assert!(suggestions.len() <= 3);
        }
        other => panic!("Expected NoPatternMatch, got {other:?}"),
    }
}

#[test]
fn matching_is_exact_and_case_sensitive() {
    let mut unifier = Unifier::new();
    let err = unifier
        .unify(&call(1, "Len", vec![]), &function(2, "list_length", Type::Unknown))
        .unwrap_err();
    assert!(matches!(err, UnificationError::NoPatternMatch { .. }));
    let err = unifier
        .unify(&call(1, "len", vec![]), &function(2, "PyList_Append", Type::Unknown))
        .unwrap_err();
    assert!(matches!(err, UnificationError::NoPatternMatch { .. }));
}

#[test]
fn literal_against_function_is_incompatible() {
    let mut unifier = Unifier::new();
    for value in [
        python::Literal::Int(-3),
        python::Literal::Float(1.5f64.to_bits()),
        python::Literal::Str("len".to_owned()),
        python::Literal::Bool(true),
        python::Literal::NoneValue,
    ] {
        let err = unifier
            .unify(&literal(1, value), &function(2, "list_length", Type::Unknown))
            .unwrap_err();
        match err {
            UnificationError::IncompatibleNodes { python_kind, c_kind } => {
                assert_eq!(python_kind, "Literal");
                assert_eq!(c_kind, "Function");
            }
            other => panic!("Expected IncompatibleNodes, got {other:?}"),
        }
    }
}

#[test]
fn complex_callee_is_unsupported() {
    let mut unifier = Unifier::new();
    let front = PythonHIR::Call {
        id: NodeId::new(1),
        callee: Box::new(PythonHIR::Attribute {
            id: NodeId::new(2),
            object: Box::new(var(3, "xs")),
            attr: "append".to_owned(),
            inferred_type: None,
            meta: Metadata::new(),
        }),
        args: vec![],
        kwargs: vec![],
        inferred_type: None,
        meta: Metadata::new(),
    };
    let err = unifier.unify(&front, &function(4, "PyList_Append", Type::Unknown)).unwrap_err();
    assert_eq!(err, UnificationError::UnsupportedPython { node_kind: "Attribute".to_owned() });
}

#[test]
fn unsupported_argument_is_named() {
    let mut unifier = Unifier::new();
    let subscript = PythonHIR::Subscript {
        id: NodeId::new(2),
        object: Box::new(var(3, "xs")),
        index: Box::new(literal(4, python::Literal::Int(0))),
        inferred_type: None,
        meta: Metadata::new(),
    };
    let err = unifier
        .unify(&call(1, "len", vec![var(5, "ok"), subscript]), &function(6, "list_length", Type::Unknown))
        .unwrap_err();
    assert_eq!(err, UnificationError::UnsupportedPython { node_kind: "Subscript".to_owned() });
}

#[test]
fn len_of_item_list_end_to_end() {
    let mut unifier = Unifier::new();
    let unified = unifier
        .unify(
            &call(1, "len", vec![var(2, "item_list")]),
            &function(3, "list_length", Type::C(CType::SizeT)),
        )
        .unwrap();
    let optimized = OptimizationPipeline::standard().run(unified).unwrap();
    let UnifiedHIR::Call { callee, args, cross_mapping, target_language, .. } = optimized else {
        panic!("Expected UnifiedHIR::Call");
    };
    assert_eq!(callee, "Vec::len");
    assert_eq!(target_language, Language::Rust);
    assert!(matches!(&args[0], UnifiedHIR::Variable { name, .. } if name == "item_list"));
    assert!(cross_mapping.unwrap().boundary_eliminated);
}
