use spydecy::c::{StorageClass, CHIR};
use spydecy::metadata::Metadata;
use spydecy::native::{identify_pattern, is_cpython_api, parse_type, CPythonPattern, CAST};
use spydecy::python::PythonHIR;
use spydecy::types::{CPythonType, CType, Type};
use spydecy::{NodeId, Visibility};

#[test]
fn test_parse_basic_types() {
    assert!(matches!(parse_type(&Some("int".to_string())), Type::C(CType::Int)));
    assert!(matches!(parse_type(&Some("void".to_string())), Type::C(CType::Void)));
    assert!(matches!(parse_type(&Some("size_t".to_string())), Type::C(CType::SizeT)));
}

#[test]
fn test_parse_cpython_types() {
    let py_ssize = parse_type(&Some("Py_ssize_t".to_string()));
    assert!(matches!(py_ssize, Type::C(CType::CPython(_))));
    let pylist = parse_type(&Some("PyListObject*".to_string()));
    assert!(matches!(pylist, Type::C(CType::CPython(_))));
}

#[test]
fn parse_type_other_spellings() {
    assert_eq!(
        parse_type(&Some("PyObject *".to_string())),
        Type::C(CType::CPython(CPythonType::PyObject))
    );
    assert_eq!(
        parse_type(&Some("PyListObject*".to_string())),
        Type::C(CType::CPython(CPythonType::PyListObject))
    );
    assert_eq!(parse_type(&Some("long".to_string())), Type::Unknown);
    assert_eq!(parse_type(&None), Type::Unknown);
}

#[test]
fn test_identify_list_length_pattern() {
    let mut ast = CAST::new("FunctionDecl".to_string());
    ast.name = Some("list_length".to_string());
    assert_eq!(identify_pattern(&ast), Some(CPythonPattern::ListLength));
}

#[test]
fn test_identify_pylist_size() {
    let mut ast = CAST::new("FunctionDecl".to_string());
    ast.name = Some("PyList_Size".to_string());
    assert_eq!(identify_pattern(&ast), Some(CPythonPattern::ListLength));
}

#[test]
fn identify_other_names() {
    let mut ast = CAST::new("CallExpr".to_string());
    assert_eq!(identify_pattern(&ast), None);
    ast.name = Some("Py_SIZE".to_string());
    assert_eq!(identify_pattern(&ast), Some(CPythonPattern::ObjectSize));
    ast.name = Some("strlen".to_string());
    assert_eq!(identify_pattern(&ast), None);
    assert!(!is_cpython_api(&ast));
}

fn c_var(id: u64, name: &str) -> CHIR {
    CHIR::Variable { id: NodeId::new(id), name: name.to_owned(), var_type: None, meta: Metadata::new() }
}

#[test]
fn test_c_function_creation() {
    let func = CHIR::Function {
        id: NodeId::new(1),
        name: "list_length".to_owned(),
        return_type: Type::C(CType::SizeT),
        params: vec![],
        body: vec![],
        storage_class: StorageClass::Static,
        visibility: Visibility::Private,
        meta: Metadata::new(),
    };
    assert_eq!(func.id(), Some(NodeId::new(1)));
}

#[test]
fn c_test_cpython_api_detection() {
    let py_call = CHIR::Call {
        id: NodeId::new(2),
        callee: Box::new(c_var(3, "PyList_Append")),
        args: vec![],
        inferred_type: None,
        meta: Metadata::new(),
    };
    assert!(py_call.is_cpython_api());
    let normal_call = CHIR::Call {
        id: NodeId::new(4),
        callee: Box::new(c_var(5, "strlen")),
        args: vec![],
        inferred_type: None,
        meta: Metadata::new(),
    };
    assert!(!normal_call.is_cpython_api());
    let private_call = CHIR::Call {
        id: NodeId::new(6),
        callee: Box::new(c_var(7, "_PyObject_New")),
        args: vec![],
        inferred_type: None,
        meta: Metadata::new(),
    };
    assert!(private_call.is_cpython_api());
}

#[test]
fn test_cpython_macro() {
    let macro_call = CHIR::CPythonMacro {
        id: NodeId::new(6),
        name: "Py_SIZE".to_owned(),
        args: vec![],
        inferred_type: None,
        meta: Metadata::new(),
    };
    assert!(macro_call.is_cpython_api());
}

#[test]
fn test_python_function_creation() {
    let func = PythonHIR::Function {
        id: NodeId::new(1),
        name: "test_func".to_owned(),
        params: vec![],
        return_type: None,
        body: vec![],
        decorators: vec![],
        visibility: Visibility::Public,
        meta: Metadata::new(),
    };
    assert_eq!(func.id(), Some(NodeId::new(1)));
}

#[test]
fn test_python_call_creation() {
    let call = PythonHIR::Call {
        id: NodeId::new(2),
        callee: Box::new(PythonHIR::Variable {
            id: NodeId::new(3),
            name: "len".to_owned(),
            inferred_type: None,
            meta: Metadata::new(),
        }),
        args: vec![],
        kwargs: vec![],
        inferred_type: None,
        meta: Metadata::new(),
    };
    assert_eq!(call.id(), Some(NodeId::new(2)));
}

#[test]
fn modules_have_no_handle() {
    let m = PythonHIR::Module { name: "m".to_owned(), body: vec![], meta: Metadata::new() };
    assert_eq!(m.id(), None);
    assert_eq!(m.kind_name(), "Module");
    let tu = CHIR::TranslationUnit { name: "t".to_owned(), declarations: vec![], meta: Metadata::new() };
    assert_eq!(tu.id(), None);
    assert!(tu.metadata().attributes.is_empty());
}

fn cnode(kind: &str, name: Option<&str>, children: Vec<CAST>) -> CAST {
    let mut n = CAST::new(kind.to_string());
    n.name = name.map(|s| s.to_string());
    n.children = children;
    n
}

#[test]
fn test_convert_empty_translation_unit() {
    let ast = CAST::new("TranslationUnit".to_string());
    let result = spydecy::native::convert_to_hir(&ast);
    assert!(result.is_ok());
}

#[test]
fn native_conversion_numbers_and_filters() {
    // static Py_ssize_t list_length(PyListObject *self) { return Py_SIZE(self); }
    let call = cnode(
        "CallExpr",
        None,
        vec![cnode("DeclRefExpr", Some("Py_SIZE"), vec![]), cnode("DeclRefExpr", Some("self"), vec![])],
    );
    let mut func = cnode(
        "FunctionDecl",
        Some("list_length"),
        vec![cnode("ReturnStmt", None, vec![call]), cnode("CompoundStmt", None, vec![])],
    );
    func.return_type = Some("Py_ssize_t".to_string());
    func.params = vec![spydecy::native::CParam {
        name: "self".to_string(),
        param_type: "PyListObject *".to_string(),
    }];
    let tu = cnode("TranslationUnit", None, vec![func, cnode("VarDecl", Some("g"), vec![])]);
    let hir = spydecy::native::convert_to_hir(&tu).unwrap();
    let CHIR::TranslationUnit { name, declarations, .. } = hir else {
        panic!("Expected a translation unit");
    };
    assert_eq!(name, "main");
    assert_eq!(declarations.len(), 1);
    let CHIR::Function { id, name, return_type, params, body, .. } = &declarations[0] else {
        panic!("Expected a function");
    };
    assert_eq!(name, "list_length");
    assert_eq!(*return_type, Type::C(CType::CPython(CPythonType::PySsizeT)));
    assert_eq!(params[0].param_type, Type::C(CType::CPython(CPythonType::PyListObject)));
    // The compound statement is of an unknown kind: it is dropped.
    assert_eq!(body.len(), 1);
    assert_eq!(*id, NodeId::new(5));
    let CHIR::Return { id, value: Some(v), .. } = &body[0] else {
        panic!("Expected a return");
    };
    assert_eq!(*id, NodeId::new(4));
    let CHIR::Call { id, callee, args, .. } = &**v else {
        panic!("Expected a call");
    };
    assert_eq!(*id, NodeId::new(3));
    assert!(matches!(&**callee, CHIR::CPythonMacro { name, .. } if name == "Py_SIZE"));
    assert!(matches!(&args[0], CHIR::Variable { name, .. } if name == "self"));
}

#[test]
fn native_conversion_errors() {
    let bad = cnode("WhileStmt", None, vec![]);
    assert_eq!(
        spydecy::native::convert_to_hir(&bad).unwrap_err(),
        "Unsupported C AST node type: WhileStmt"
    );
    let ret = cnode("ReturnStmt", None, vec![cnode("CallExpr", None, vec![])]);
    assert_eq!(
        spydecy::native::convert_to_hir(&ret).unwrap_err(),
        "CallExpr must have at least one child (callee)"
    );
}
