use spydecy::tracer::{Language, MiniHIR};

#[test]
fn test_unify_len_call() {
    let python_hir = MiniHIR::PythonCall {
        callee: "len".to_owned(),
        args: vec![MiniHIR::PythonVar("x".to_owned())],
    };
    let c_hir = MiniHIR::CFunction {
        name: "list_length".to_owned(),
        body: vec![MiniHIR::CFieldAccess {
            object: Box::new(MiniHIR::PythonVar("self".to_owned())),
            field: "Py_SIZE".to_owned(),
        }],
    };
    let unified = MiniHIR::unify(&python_hir, &c_hir).expect("Unification should succeed");
    assert_eq!(
        unified,
        MiniHIR::UnifiedCall {
            target_language: Language::Rust,
            callee: "Vec::len".to_owned(),
            args: vec![MiniHIR::PythonVar("x".to_owned())],
        }
    );
}

#[test]
fn test_eliminate_boundary() {
    let unified = MiniHIR::UnifiedCall {
        target_language: Language::Python,
        callee: "len".to_owned(),
        args: vec![MiniHIR::PythonVar("x".to_owned())],
    };
    let optimized = unified.eliminate_boundary();
    assert_eq!(
        optimized,
        MiniHIR::UnifiedCall {
            target_language: Language::Rust,
            callee: "Vec::len".to_owned(),
            args: vec![MiniHIR::PythonVar("x".to_owned())],
        }
    );
}

#[test]
fn test_codegen_rust() {
    let python_func = MiniHIR::PythonFunction {
        name: "my_len".to_owned(),
        body: vec![MiniHIR::UnifiedCall {
            target_language: Language::Rust,
            callee: "Vec::len".to_owned(),
            args: vec![MiniHIR::PythonVar("x".to_owned())],
        }],
    };
    let rust_code = python_func.codegen();
    assert!(rust_code.contains("pub fn my_len"));
    assert!(rust_code.contains("x.len()"));
    assert!(!rust_code.contains("extern"));
    assert!(!rust_code.contains("PyObject"));
}

#[test]
fn test_unify_fails_on_mismatch() {
    let python_hir = MiniHIR::PythonVar("x".to_owned());
    let c_hir = MiniHIR::PythonVar("y".to_owned());
    let result = MiniHIR::unify(&python_hir, &c_hir);
    assert!(result.is_err());
}

#[test]
fn test_tracer_bullet_full_pipeline() {
    let python_hir = MiniHIR::PythonFunction {
        name: "my_len".to_string(),
        body: vec![MiniHIR::PythonCall {
            callee: "len".to_string(),
            args: vec![MiniHIR::PythonVar("x".to_string())],
        }],
    };
    let c_hir = MiniHIR::CFunction {
        name: "list_length".to_string(),
        body: vec![MiniHIR::CFieldAccess {
            object: Box::new(MiniHIR::PythonVar("self".to_string())),
            field: "Py_SIZE".to_string(),
        }],
    };
    let python_call = match &python_hir {
        MiniHIR::PythonFunction { body, .. } => body.first().unwrap(),
        _ => panic!("Expected PythonFunction"),
    };
    let unified = MiniHIR::unify(python_call, &c_hir)
        .expect("Unification should succeed for len() -> list_length()");
    assert!(matches!(
        unified,
        MiniHIR::UnifiedCall { target_language: Language::Rust, callee: ref c, .. } if c == "Vec::len"
    ));
    let optimized = unified.eliminate_boundary();
    assert!(matches!(optimized, MiniHIR::UnifiedCall { target_language: Language::Rust, .. }));
    let final_hir = MiniHIR::PythonFunction { name: "my_len".to_string(), body: vec![optimized] };
    let rust_code = final_hir.codegen();
    assert!(rust_code.contains("pub fn my_len"), "Generated code should contain function signature");
    assert!(rust_code.contains("x.len()"), "Generated code should contain x.len()");
    assert!(!rust_code.contains("extern"), "Generated code should NOT contain FFI (extern)");
    assert!(!rust_code.contains("PyObject"), "Generated code should NOT contain PyObject references");
    assert!(!rust_code.contains("unsafe"), "Generated code should be safe Rust");
}

#[test]
fn test_unification_creates_correct_rust_mapping() {
    let python_call = MiniHIR::PythonCall {
        callee: "len".to_string(),
        args: vec![MiniHIR::PythonVar("my_list".to_string())],
    };
    let c_function = MiniHIR::CFunction { name: "list_length".to_string(), body: vec![] };
    let unified = MiniHIR::unify(&python_call, &c_function).unwrap();
    match unified {
        MiniHIR::UnifiedCall { target_language, callee, args } => {
            assert_eq!(target_language, Language::Rust);
            assert_eq!(callee, "Vec::len");
            assert_eq!(args.len(), 1);
        }
        _ => panic!("Expected UnifiedCall"),
    }
}

#[test]
fn test_boundary_elimination_removes_ffi() {
    let cross_language = MiniHIR::UnifiedCall {
        target_language: Language::Python,
        callee: "len".to_string(),
        args: vec![],
    };
    let rust_only = cross_language.eliminate_boundary();
    match rust_only {
        MiniHIR::UnifiedCall { target_language, .. } => {
            assert_eq!(target_language, Language::Rust);
        }
        _ => panic!("Expected UnifiedCall"),
    }
}

#[test]
fn test_codegen_produces_valid_rust_syntax() {
    let hir = MiniHIR::PythonFunction {
        name: "test_func".to_string(),
        body: vec![MiniHIR::UnifiedCall {
            target_language: Language::Rust,
            callee: "Vec::len".to_string(),
            args: vec![],
        }],
    };
    let code = hir.codegen();
    assert!(code.starts_with("pub fn test_func"));
    assert!(code.contains("-> usize"));
    assert!(code.contains('{'));
    assert!(code.contains('}'));
}

#[test]
fn codegen_exact_text_and_fallback() {
    let f = MiniHIR::PythonFunction {
        name: "f".to_owned(),
        body: vec![MiniHIR::PythonVar("a".to_owned()), MiniHIR::PythonVar("b".to_owned())],
    };
    assert_eq!(f.codegen(), "pub fn f<T>(x: &Vec<T>) -> usize {\n    a\n    b\n}");
    let p = MiniHIR::CPointer(Box::new(MiniHIR::PythonVar("p".to_owned())));
    assert_eq!(p.codegen(), "/* Not implemented: CPointer */");
}

#[test]
fn other_unified_calls_are_left_alone() {
    let call = MiniHIR::UnifiedCall {
        target_language: Language::Python,
        callee: "append".to_owned(),
        args: vec![],
    };
    let out = call.eliminate_boundary();
    assert!(matches!(out, MiniHIR::UnifiedCall { target_language: Language::Python, .. }));
    let c = MiniHIR::CFunction { name: "list_append".to_owned(), body: vec![] };
    let p = MiniHIR::PythonCall { callee: "len".to_owned(), args: vec![] };
    assert!(MiniHIR::unify(&p, &c).is_err());
}
