use spydecy::metadata::Metadata;
use spydecy::optimizer::{BoundaryEliminationPass, OptimizationPass, OptimizationPipeline};
use spydecy::types::Type;
use spydecy::unified::{CrossMapping, LoopKind, UnificationPattern, UnifiedHIR};
use spydecy::{Language, NodeId};

fn python_call(id: u64, args: Vec<UnifiedHIR>) -> UnifiedHIR {
    UnifiedHIR::Call {
        id: NodeId::new(id),
        target_language: Language::Python,
        callee: "len".to_owned(),
        args,
        inferred_type: Type::Unknown,
        source_language: Language::Python,
        cross_mapping: Some(CrossMapping {
            python_node: None,
            c_node: None,
            pattern: UnificationPattern::LenPattern,
            boundary_eliminated: false,
        }),
        meta: Metadata::new(),
    }
}

fn c_call(id: u64) -> UnifiedHIR {
    UnifiedHIR::Call {
        id: NodeId::new(id),
        target_language: Language::Python,
        callee: "list_length".to_owned(),
        args: vec![],
        inferred_type: Type::Unknown,
        source_language: Language::C,
        cross_mapping: Some(CrossMapping {
            python_node: None,
            c_node: None,
            pattern: UnificationPattern::LenPattern,
            boundary_eliminated: false,
        }),
        meta: Metadata::new(),
    }
}

#[test]
fn test_boundary_elimination() {
    let optimized = python_call(1, vec![]).eliminate_boundary();
    if let UnifiedHIR::Call { cross_mapping, .. } = optimized {
        assert!(cross_mapping.expect("cross_mapping should exist").boundary_eliminated);
    }
}

#[test]
fn test_boundary_elimination_pass() {
    let pass = BoundaryEliminationPass::new();
    let optimized = pass.run(python_call(1, vec![])).expect("Pass should succeed");
    if let UnifiedHIR::Call { cross_mapping, .. } = optimized {
        let mapping = cross_mapping.expect("Mapping should exist");
        assert!(mapping.boundary_eliminated, "Boundary should be eliminated");
    } else {
        panic!("Expected UnifiedHIR::Call");
    }
}

#[test]
fn test_pipeline_creation() {
    let pipeline = OptimizationPipeline::new();
    assert_eq!(pipeline.pass_count(), 0);
}

#[test]
fn test_pipeline_add_pass() {
    let mut pipeline = OptimizationPipeline::new();
    pipeline.add_pass(OptimizationPass::BoundaryElimination(BoundaryEliminationPass::new()));
    assert_eq!(pipeline.pass_count(), 1);
}

#[test]
fn test_standard_pipeline() {
    let pipeline = OptimizationPipeline::standard();
    assert_eq!(pipeline.pass_count(), 1, "Standard pipeline should have 1 pass");
}

#[test]
fn test_pipeline_run() {
    let pipeline = OptimizationPipeline::standard();
    let optimized = pipeline.run(python_call(1, vec![])).expect("Pipeline should succeed");
    if let UnifiedHIR::Call { cross_mapping, .. } = optimized {
        let mapping = cross_mapping.expect("Mapping should exist");
        assert!(mapping.boundary_eliminated, "Pipeline should eliminate boundary");
    }
}

#[test]
fn pass_name() {
    assert_eq!(BoundaryEliminationPass::new().name(), "BoundaryElimination");
}

#[test]
fn foreign_target_moves_to_emitted_language_and_arguments_are_rewritten() {
    let t = python_call(1, vec![c_call(2)]);
    let UnifiedHIR::Call { target_language, args, .. } = t.eliminate_boundary() else {
        panic!("Expected UnifiedHIR::Call");
    };
    assert_eq!(target_language, Language::Python);
    let UnifiedHIR::Call { target_language, cross_mapping, .. } = &args[0] else {
        panic!("Expected UnifiedHIR::Call");
    };
    assert_eq!(*target_language, Language::Rust);
    assert!(cross_mapping.unwrap().boundary_eliminated);
}

#[test]
fn elimination_reaches_nested_bodies() {
    let t = UnifiedHIR::Loop {
        id: NodeId::new(1),
        kind: LoopKind::While { condition: Box::new(c_call(2)) },
        body: vec![UnifiedHIR::Return {
            id: NodeId::new(3),
            value: Some(Box::new(c_call(4))),
            source_language: Language::Python,
            meta: Metadata::new(),
        }],
        source_language: Language::Python,
        meta: Metadata::new(),
    };
    let out = t.eliminate_boundary();
    let UnifiedHIR::Loop { kind: LoopKind::While { condition }, body, .. } = out else {
        panic!("Expected a loop");
    };
    assert!(matches!(*condition, UnifiedHIR::Call { target_language: Language::Rust, .. }));
    let UnifiedHIR::Return { value: Some(v), .. } = &body[0] else {
        panic!("Expected a return");
    };
    assert!(matches!(**v, UnifiedHIR::Call { target_language: Language::Rust, .. }));
}

#[test]
fn standard_pipeline_is_idempotent() {
    let pipeline = OptimizationPipeline::standard();
    let make = || UnifiedHIR::Module {
        name: "m".to_owned(),
        source_language: Language::Python,
        declarations: vec![python_call(1, vec![c_call(2)]), c_call(3)],
        meta: Metadata::new(),
    };
    let once = pipeline.run(make()).unwrap();
    let twice = pipeline.run(pipeline.run(make()).unwrap()).unwrap();
    let thrice = pipeline.run(pipeline.run(pipeline.run(make()).unwrap()).unwrap()).unwrap();
    assert_eq!(once, twice);
    assert_eq!(once, thrice);
    assert_ne!(once, make());
}

#[test]
fn empty_pipeline_returns_its_input() {
    let out = OptimizationPipeline::new().run(c_call(5)).unwrap();
    assert_eq!(out, c_call(5));
}
