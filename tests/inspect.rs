use spydecy::front_ast::PythonAST;
use spydecy::inspect::{collect_cpython_calls, collect_pyobject_params, count_c_nodes, count_nodes};
use spydecy::native::{CParam, CPythonPattern, CAST};

#[test]
fn test_count_nodes() {
    let ast = PythonAST {
        node_type: "Module".to_string(),
        lineno: None,
        col_offset: None,
        children: vec![
            PythonAST::new("FunctionDef".to_string()),
            PythonAST::new("FunctionDef".to_string()),
        ],
        attributes: vec![],
    };
    assert_eq!(count_nodes(&ast), 3);
}

#[test]
fn test_collect_cpython_calls() {
    let mut ast = CAST::new("FunctionDecl".to_owned());
    ast.name = Some("list_length".to_owned());
    let mut child = CAST::new("CallExpr".to_owned());
    child.name = Some("PyList_Append".to_owned());
    ast.children.push(child);
    let calls = collect_cpython_calls(&ast);
    assert_eq!(calls.len(), 2);
    assert!(calls.iter().any(|(_, name)| name == "list_length"));
    assert!(calls.iter().any(|(_, name)| name == "PyList_Append"));
    assert_eq!(calls[0], (CPythonPattern::ListLength, "list_length".to_owned()));
    assert_eq!(calls[1], (CPythonPattern::ListAppend, "PyList_Append".to_owned()));
}

#[test]
fn test_collect_pyobject_params() {
    let mut ast = CAST::new("FunctionDecl".to_owned());
    ast.name = Some("test_func".to_owned());
    ast.params.push(CParam { name: "obj".to_owned(), param_type: "PyObject*".to_owned() });
    ast.params.push(CParam { name: "x".to_owned(), param_type: "int".to_owned() });
    let params = collect_pyobject_params(&ast);
    assert_eq!(params.len(), 1);
    assert_eq!(params[0].1, "obj");
    assert_eq!(params[0].2, "PyObject*");
}

#[test]
fn test_count_c_nodes() {
    let mut ast = CAST::new("TranslationUnit".to_owned());
    ast.children.push(CAST::new("FunctionDecl".to_owned()));
    ast.children.push(CAST::new("FunctionDecl".to_owned()));
    assert_eq!(count_c_nodes(&ast), 3);
}

#[test]
fn nested_trees_are_walked_in_pre_order() {
    let mut f = CAST::new("FunctionDecl".to_owned());
    f.name = Some("dict_get".to_owned());
    f.params.push(CParam { name: "d".to_owned(), param_type: "PyDictObject *".to_owned() });
    f.params.push(CParam { name: "l".to_owned(), param_type: "PyListObject *".to_owned() });
    let mut call = CAST::new("CallExpr".to_owned());
    call.name = Some("PyDict_GetItem".to_owned());
    let mut inner = CAST::new("CallExpr".to_owned());
    inner.name = Some("Py_SIZE".to_owned());
    call.children.push(inner);
    f.children.push(call);
    let mut tu = CAST::new("TranslationUnit".to_owned());
    tu.children.push(f);
    assert_eq!(count_c_nodes(&tu), 4);
    let calls = collect_cpython_calls(&tu);
    assert_eq!(
        calls,
        vec![
            (CPythonPattern::DictGet, "PyDict_GetItem".to_owned()),
            (CPythonPattern::ObjectSize, "Py_SIZE".to_owned())
        ]
    );
    let params = collect_pyobject_params(&tu);
    assert_eq!(params.len(), 2);
    assert_eq!(params[1], ("dict_get".to_owned(), "l".to_owned(), "PyListObject *".to_owned()));
}
