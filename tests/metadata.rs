use spydecy::metadata::{Attribute, CrossRef, CrossRefKind, Metadata};
use spydecy::{placeholder, Language, NodeId, SourceLocation, VERSION};

#[test]
fn test_language_display() {
    assert_eq!(Language::Python.to_string(), "Python");
    assert_eq!(Language::C.to_string(), "C");
    assert_eq!(Language::Rust.to_string(), "Rust");
}

#[test]
fn test_source_location_creation() {
    let loc = SourceLocation::new("test.py".to_owned(), 10, 5, Language::Python);
    assert_eq!(loc.line, 10);
    assert_eq!(loc.column, 5);
    assert_eq!(loc.language, Language::Python);
}

#[test]
fn test_node_id_creation() {
    let id = NodeId::new(42);
    assert_eq!(id.0, 42);
}

#[test]
fn test_metadata_creation() {
    let meta = Metadata::new();
    assert!(meta.source.is_none());
    assert!(meta.docs.is_none());
    assert!(meta.attributes.is_empty());
}

#[test]
fn test_metadata_with_docs() {
    let meta = Metadata::new().with_docs("Test documentation".to_string());
    assert_eq!(meta.docs, Some("Test documentation".to_string()));
}

#[test]
fn test_attribute_creation() {
    let attr = Attribute::new("staticmethod".to_string());
    assert_eq!(attr.name, "staticmethod");
    assert!(attr.args.is_empty());
}

#[test]
fn test_cross_ref_creation() {
    let cross_ref = CrossRef::new(CrossRefKind::PythonToC, NodeId::new(42), Language::Python);
    assert_eq!(cross_ref.kind, CrossRefKind::PythonToC);
    assert_eq!(cross_ref.target.0, 42);
}

#[test]
fn test_version() {
    assert!(VERSION.starts_with('0'));
}

#[test]
fn test_placeholder() {
    assert_eq!(placeholder(), "Spydecy - EXTREME TDD Quality");
}

#[test]
fn lib_test_placeholder() {
    assert!(!spydecy::analyzers::placeholder().is_empty());
}

#[test]
fn hints_replace_the_value_of_an_existing_key() {
    let mut meta = Metadata::new();
    meta.add_hint("inline".to_owned(), "always".to_owned());
    meta.add_hint("vectorize".to_owned(), "no".to_owned());
    meta.add_hint("inline".to_owned(), "never".to_owned());
    assert_eq!(
        meta.hints,
        vec![
            ("inline".to_owned(), "never".to_owned()),
            ("vectorize".to_owned(), "no".to_owned())
        ]
    );
}

#[test]
fn attributes_and_cross_refs_are_appended_in_order() {
    let mut meta = Metadata::with_source(SourceLocation::new("a.c".to_owned(), 1, 2, Language::C));
    meta.add_attribute(Attribute::with_args("packed".to_owned(), vec!["1".to_owned()]));
    meta.add_attribute(Attribute::new("cold".to_owned()));
    meta.add_cross_ref(
        CrossRef::new(CrossRefKind::Unified, NodeId::new(7), Language::Rust)
            .with_description("merged".to_owned()),
    );
    assert_eq!(meta.attributes[0].name, "packed");
    assert_eq!(meta.attributes[0].args, vec!["1".to_owned()]);
    assert_eq!(meta.attributes[1].name, "cold");
    assert_eq!(meta.cross_refs[0].description, Some("merged".to_owned()));
    assert_eq!(meta.source.as_ref().map(|s| s.line), Some(1));
    let copy = meta.copy();
    assert_eq!(copy, meta);
}
