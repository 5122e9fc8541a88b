use spydecy::catalog::{all_patterns, find_similar_patterns};
use spydecy::c::{StorageClass, CHIR};
use spydecy::error::{extract_c_fn_name, extract_python_fn_name, UnificationError};
use spydecy::metadata::Metadata;
use spydecy::python::{self, PythonHIR};
use spydecy::types::Type;
use spydecy::unified::UnificationPattern;
use spydecy::{NodeId, Visibility};

#[test]
fn test_all_patterns_count() {
    let patterns = all_patterns();
    assert_eq!(patterns.len(), 11, "Should have 11 supported patterns");
}

#[test]
fn test_find_similar_patterns_exact_match() {
    let suggestions = find_similar_patterns("len", "list_length");
    assert!(!suggestions.is_empty());
    assert_eq!(suggestions[0].python_fn, "len()");
}

#[test]
fn test_find_similar_patterns_partial_match() {
    let suggestions = find_similar_patterns("append", "PyList");
    assert!(!suggestions.is_empty());
    assert!(suggestions.iter().any(|s| s.python_fn.contains("append")));
}

#[test]
fn test_find_similar_patterns_no_match() {
    let suggestions = find_similar_patterns("unknown_fn", "unknown_c_fn");
    assert!(!suggestions.is_empty());
    assert!(suggestions.len() <= 3);
}

#[test]
fn test_error_display_no_pattern_match() {
    let error = UnificationError::NoPatternMatch {
        python_fn: "foo".to_owned(),
        c_fn: "bar".to_owned(),
        suggestions: all_patterns(),
    };
    let display = error.to_string();
    assert!(display.contains("foo"));
    assert!(display.contains("bar"));
    assert!(display.contains("Supported patterns"));
    assert!(display.contains("len()"));
}

#[test]
fn test_error_display_incompatible_nodes() {
    let error = UnificationError::IncompatibleNodes {
        python_kind: "Module".to_owned(),
        c_kind: "Literal".to_owned(),
    };
    let display = error.to_string();
    assert!(display.contains("Module"));
    assert!(display.contains("Literal"));
    assert!(display.contains("incompatible"));
}

#[test]
fn catalog_order_is_stable() {
    let p = all_patterns();
    assert_eq!(p[0].pattern, UnificationPattern::LenPattern);
    assert_eq!(p[0].c_fn, "list_length()");
    assert_eq!(p[0].rust_output, "Vec::len()");
    assert_eq!(p[10].pattern, UnificationPattern::DictKeysPattern);
    assert_eq!(p[10].python_fn, "keys()");
}

#[test]
fn fallback_is_the_first_three_entries_sorted() {
    let s = find_similar_patterns("zzz", "qqq");
    let names: Vec<&str> = s.iter().map(|e| e.python_fn).collect();
    assert_eq!(names, vec!["append()", "get()", "len()"]);
}

#[test]
fn suggestions_are_sorted_and_deduplicated() {
    // "pop" overlaps pop() and dict_pop(); "list_" overlaps the native list functions.
    let s = find_similar_patterns("pop", "list_pop");
    let names: Vec<&str> = s.iter().map(|e| e.python_fn).collect();
    assert_eq!(names, vec!["dict_pop()", "pop()"]);
    let s = find_similar_patterns("clear", "PyDict_Clear");
    let names: Vec<&str> = s.iter().map(|e| e.python_fn).collect();
    assert_eq!(names, vec!["clear()", "dict_clear()"]);
}

#[test]
fn no_match_message_lists_at_most_five_numbered_suggestions() {
    let error = UnificationError::NoPatternMatch {
        python_fn: "foo".to_owned(),
        c_fn: "bar".to_owned(),
        suggestions: all_patterns(),
    };
    let text = error.to_string();
    assert!(text.contains("  1. len() + list_length() -> Vec::len()\n"));
    assert!(text.contains("  5. clear() + list_clear() -> Vec::clear()\n"));
    assert!(!text.contains("  6. "));
    assert!(text.contains("https://github.com/noahgift/spydecy#custom-patterns"));
    let empty = UnificationError::NoPatternMatch {
        python_fn: "foo".to_owned(),
        c_fn: "bar".to_owned(),
        suggestions: vec![],
    };
    assert!(!empty.to_string().contains("Supported patterns"));
}

#[test]
fn unsupported_messages_name_the_kind() {
    let e = UnificationError::UnsupportedPython { node_kind: "ListComp".to_owned() };
    assert!(e.to_string().starts_with("Unsupported Python HIR node: ListComp\n"));
    let e = UnificationError::UnsupportedC { node_kind: "Cast".to_owned() };
    assert!(e.to_string().starts_with("Unsupported C HIR node: Cast\n"));
}

#[test]
fn name_extraction_degrades_to_labels() {
    let lit = PythonHIR::Literal {
        id: NodeId::new(1),
        value: python::Literal::Int(3),
        meta: Metadata::new(),
    };
    assert_eq!(extract_python_fn_name(&lit), "Literal");
    let complex = PythonHIR::Call {
        id: NodeId::new(2),
        callee: Box::new(lit),
        args: vec![],
        kwargs: vec![],
        inferred_type: None,
        meta: Metadata::new(),
    };
    assert_eq!(extract_python_fn_name(&complex), "<complex expression>");
    let f = CHIR::Function {
        id: NodeId::new(3),
        name: "list_length".to_owned(),
        return_type: Type::Unknown,
        params: vec![],
        body: vec![],
        storage_class: StorageClass::Static,
        visibility: Visibility::Private,
        meta: Metadata::new(),
    };
    assert_eq!(extract_c_fn_name(&f), "list_length");
    let tu = CHIR::TranslationUnit { name: "m".to_owned(), declarations: vec![], meta: Metadata::new() };
    assert_eq!(extract_c_fn_name(&tu), "TranslationUnit");
}
