use spydecy::types::{CPythonType, CType, IntSize, PythonType, RustType, Type};

fn rust_i32() -> Type {
    Type::Rust(RustType::Int { bits: IntSize::I32, signed: true })
}

#[test]
fn test_python_list_to_rust_vec_compatibility() {
    let py_list = Type::Python(PythonType::List(Box::new(Type::Python(PythonType::Int))));
    let rust_vec = Type::Rust(RustType::Vec(Box::new(rust_i32())));
    assert!(py_list.is_compatible(&rust_vec));
}

#[test]
fn test_c_pylistobject_to_rust_vec_compatibility() {
    let c_list = Type::C(CType::CPython(CPythonType::PyListObject));
    let rust_vec = Type::Rust(RustType::Vec(Box::new(Type::Unknown)));
    assert!(c_list.is_compatible(&rust_vec));
}

#[test]
fn test_type_display() {
    let py_list = Type::Python(PythonType::List(Box::new(Type::Python(PythonType::Int))));
    assert_eq!(py_list.to_string(), "list[int]");
    let rust_vec = Type::Rust(RustType::Vec(Box::new(rust_i32())));
    assert_eq!(rust_vec.to_string(), "Vec<i32>");
}

#[test]
fn compatibility_is_reflexive_and_unknown_is_bottom() {
    let samples = vec![
        Type::Unknown,
        Type::Python(PythonType::Dict {
            key: Box::new(Type::Python(PythonType::Str)),
            value: Box::new(Type::Python(PythonType::Int)),
        }),
        Type::C(CType::Array { element: Box::new(CType::Char), size: Some(16) }),
        Type::Generic { name: "T".to_owned(), bounds: vec!["Clone".to_owned()] },
        Type::Function { params: vec![rust_i32(), Type::Unknown], return_type: Box::new(rust_i32()) },
    ];
    for t in &samples {
        assert!(t.is_compatible(t));
        assert!(Type::Unknown.is_compatible(t));
        assert!(t.is_compatible(&Type::Unknown));
    }
}

#[test]
fn compatibility_is_checked_in_both_orders() {
    let dict = Type::Python(PythonType::Dict {
        key: Box::new(Type::Unknown),
        value: Box::new(Type::Unknown),
    });
    let map = Type::Rust(RustType::HashMap {
        key: Box::new(Type::Unknown),
        value: Box::new(Type::Unknown),
    });
    assert!(dict.is_compatible(&map));
    assert!(map.is_compatible(&dict));
    let vec = Type::Rust(RustType::Vec(Box::new(Type::Unknown)));
    assert!(vec.is_compatible(&Type::Python(PythonType::List(Box::new(Type::Unknown)))));
}

#[test]
fn unrelated_types_are_incompatible() {
    assert!(!Type::Python(PythonType::Int).is_compatible(&Type::Python(PythonType::Str)));
    assert!(!Type::C(CType::Int).is_compatible(&Type::Rust(RustType::Bool)));
    assert!(!Type::Python(PythonType::List(Box::new(Type::Unknown)))
        .is_compatible(&Type::Rust(RustType::HashMap {
            key: Box::new(Type::Unknown),
            value: Box::new(Type::Unknown),
        })));
    let g1 = Type::Generic { name: "T".to_owned(), bounds: vec![] };
    let g2 = Type::Generic { name: "U".to_owned(), bounds: vec![] };
    assert!(!g1.is_compatible(&g2));
}

#[test]
fn type_rendering_covers_every_universe() {
    let tuple = Type::Python(PythonType::Tuple(vec![
        Type::Python(PythonType::Int),
        Type::Python(PythonType::Str),
    ]));
    assert_eq!(tuple.to_string(), "tuple[int, str]");
    assert_eq!(Type::Python(PythonType::Tuple(vec![])).to_string(), "tuple[]");
    assert_eq!(
        Type::C(CType::Array { element: Box::new(CType::Char), size: Some(128) }).to_string(),
        "char[128]"
    );
    assert_eq!(
        Type::C(CType::Pointer(Box::new(CType::Struct("Point".to_owned())))).to_string(),
        "struct Point*"
    );
    assert_eq!(Type::C(CType::CPython(CPythonType::PySsizeT)).to_string(), "Py_ssize_t");
    assert_eq!(
        Type::Rust(RustType::Int { bits: IntSize::ISize, signed: false }).to_string(),
        "usize"
    );
    assert_eq!(Type::Rust(RustType::Float { bits: 64 }).to_string(), "f64");
    assert_eq!(
        Type::Rust(RustType::Reference {
            mutable: true,
            inner: Box::new(Type::Rust(RustType::Str)),
        })
        .to_string(),
        "&mut &str"
    );
    assert_eq!(
        Type::Rust(RustType::Result {
            ok: Box::new(Type::Rust(RustType::Unit)),
            err: Box::new(Type::Rust(RustType::String)),
        })
        .to_string(),
        "Result<(), String>"
    );
    let f = Type::Function {
        params: vec![rust_i32(), Type::Unknown],
        return_type: Box::new(Type::Rust(RustType::Bool)),
    };
    assert_eq!(f.to_string(), "fn(i32, ?) -> bool");
}

#[test]
fn clone_gives_an_equal_type() {
    let t = Type::Function {
        params: vec![Type::Generic { name: "T".to_owned(), bounds: vec!["Ord".to_owned()] }],
        return_type: Box::new(Type::Python(PythonType::SetOf(Box::new(Type::Unknown)))),
    };
    let c = t.clone();
    assert_eq!(c, t);
    assert_eq!(c.to_string(), "fn(T) -> set[?]");
}
