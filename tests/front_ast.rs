use spydecy::front_ast::{convert_to_hir, PythonAST};
use spydecy::python::PythonHIR;
use spydecy::session::extract_python_call;
use spydecy::NodeId;

fn node(kind: &str, attrs: &[(&str, &str)], children: Vec<PythonAST>) -> PythonAST {
    let mut n = PythonAST::new(kind.to_string());
    n.attributes = attrs.iter().map(|(k, v)| (k.to_string(), v.to_string())).collect();
    n.children = children;
    n
}

#[test]
fn hir_converter_test_convert_simple_function() {
    let mut ast = PythonAST::new("Module".to_string());
    let func = node("FunctionDef", &[("name", "my_len")], vec![]);
    ast.children.push(func);
    let hir = convert_to_hir(&ast).unwrap();
    if let PythonHIR::Module { body, .. } = hir {
        assert_eq!(body.len(), 1);
    } else {
        panic!("Expected Module");
    }
}

#[test]
fn test_convert_function_with_return() {
    let mut module = PythonAST::new("Module".to_string());
    let mut func = node("FunctionDef", &[("name", "test")], vec![]);
    let ret = PythonAST::new("Return".to_string());
    func.children.push(ret);
    module.children.push(func);
    let hir = convert_to_hir(&module).unwrap();
    assert!(matches!(hir, PythonHIR::Module { .. }));
}

#[test]
fn handles_are_numbered_children_first() {
    // def my_len(x): return len(x)
    let call = node(
        "Call",
        &[],
        vec![node("Name", &[("id", "len")], vec![]), node("Name", &[("id", "x")], vec![])],
    );
    let module = node(
        "Module",
        &[],
        vec![node("FunctionDef", &[("name", "my_len")], vec![node("Return", &[], vec![call])])],
    );
    let hir = convert_to_hir(&module).unwrap();
    let call = extract_python_call(&hir).unwrap();
    let PythonHIR::Call { id, callee, args, .. } = call else {
        panic!("Expected a call");
    };
    assert_eq!(*id, NodeId::new(3));
    assert!(matches!(&**callee, PythonHIR::Variable { name, id, .. } if name == "len" && *id == NodeId::new(1)));
    assert!(matches!(&args[0], PythonHIR::Variable { name, id, .. } if name == "x" && *id == NodeId::new(2)));
    let PythonHIR::Module { body, .. } = &hir else {
        panic!("Expected Module");
    };
    assert!(matches!(&body[0], PythonHIR::Function { name, id, .. } if name == "my_len" && *id == NodeId::new(5)));
}

#[test]
fn conversion_errors_name_the_first_failure() {
    let bad = node("Module", &[], vec![node("Lambda", &[], vec![]), node("Call", &[], vec![])]);
    assert_eq!(convert_to_hir(&bad).unwrap_err(), "Unsupported Python AST node type: Lambda");
    let bad = node("Module", &[], vec![node("Call", &[], vec![])]);
    assert_eq!(
        convert_to_hir(&bad).unwrap_err(),
        "Call node must have at least one child (the callee)"
    );
    let unnamed = node("Name", &[], vec![]);
    assert!(matches!(convert_to_hir(&unnamed).unwrap(), PythonHIR::Variable { name, .. } if name == "unknown"));
}
