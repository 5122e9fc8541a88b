use spydecy::c::{StorageClass, CHIR};
use spydecy::debugger::{Breakpoint, TranspilationPhase, TranspilationState};
use spydecy::metadata::Metadata;
use spydecy::python::PythonHIR;
use spydecy::session::{extract_c_function, extract_python_call, outside_work, StepAction, Stepper};
use spydecy::types::Type;
use spydecy::unified::UnifiedHIR;
use spydecy::{Language, NodeId, Visibility};

fn len_module(arg: &str) -> PythonHIR {
    let call = PythonHIR::Call {
        id: NodeId::new(3),
        callee: Box::new(PythonHIR::Variable {
            id: NodeId::new(4),
            name: "len".to_owned(),
            inferred_type: None,
            meta: Metadata::new(),
        }),
        args: vec![PythonHIR::Variable {
            id: NodeId::new(5),
            name: arg.to_owned(),
            inferred_type: None,
            meta: Metadata::new(),
        }],
        kwargs: vec![],
        inferred_type: None,
        meta: Metadata::new(),
    };
    PythonHIR::Module {
        name: "m".to_owned(),
        body: vec![PythonHIR::Function {
            id: NodeId::new(1),
            name: "my_len".to_owned(),
            params: vec![],
            return_type: None,
            body: vec![PythonHIR::Return {
                id: NodeId::new(2),
                value: Some(Box::new(call)),
                meta: Metadata::new(),
            }],
            decorators: vec![],
            visibility: Visibility::Public,
            meta: Metadata::new(),
        }],
        meta: Metadata::new(),
    }
}

fn list_length_unit() -> CHIR {
    CHIR::TranslationUnit {
        name: "main".to_owned(),
        declarations: vec![CHIR::Function {
            id: NodeId::new(9),
            name: "list_length".to_owned(),
            return_type: Type::Unknown,
            params: vec![],
            body: vec![],
            storage_class: StorageClass::Static,
            visibility: Visibility::Private,
            meta: Metadata::new(),
        }],
        meta: Metadata::new(),
    }
}

#[test]
fn extraction_finds_the_call_and_the_function() {
    let m = len_module("xs");
    let call = extract_python_call(&m).unwrap();
    assert_eq!(call.id(), Some(NodeId::new(3)));
    let tu = list_length_unit();
    let f = extract_c_function(&tu).unwrap();
    assert_eq!(f.id(), Some(NodeId::new(9)));
}

#[test]
fn extraction_errors() {
    let empty = PythonHIR::Module { name: "m".to_owned(), body: vec![], meta: Metadata::new() };
    assert_eq!(extract_python_call(&empty).unwrap_err(), "Expected function in Python module");
    let lit = PythonHIR::Variable {
        id: NodeId::new(1),
        name: "x".to_owned(),
        inferred_type: None,
        meta: Metadata::new(),
    };
    assert_eq!(extract_python_call(&lit).unwrap_err(), "Expected Python module");
    let tu = CHIR::TranslationUnit { name: "t".to_owned(), declarations: vec![], meta: Metadata::new() };
    assert_eq!(extract_c_function(&tu).unwrap_err(), "C file has no declarations");
    let v = CHIR::Variable { id: NodeId::new(1), name: "v".to_owned(), var_type: None, meta: Metadata::new() };
    assert_eq!(extract_c_function(&v).unwrap_err(), "Expected C TranslationUnit");
}

#[test]
fn stepping_unifies_and_optimises_in_the_library() {
    let mut stepper = Stepper::new(TranspilationState::new("a.py".to_owned(), "a.c".to_owned()));
    let mut actions = vec![];
    for _ in 0..4 {
        let p = stepper.step().unwrap();
        actions.push(outside_work(p));
        if p == TranspilationPhase::PythonParsed {
            stepper.state_mut().python_hir = Some(len_module("item_list"));
        }
        if p == TranspilationPhase::CParsed {
            stepper.state_mut().c_hir = Some(list_length_unit());
        }
    }
    assert_eq!(
        actions,
        vec![StepAction::ParsePython, StepAction::Nothing, StepAction::ParseC, StepAction::Nothing]
    );
    assert_eq!(stepper.step().unwrap(), TranspilationPhase::UnifiedHIR);
    assert!(stepper.state().unified_hir.is_some());
    assert_eq!(stepper.step().unwrap(), TranspilationPhase::Optimized);
    let Some(UnifiedHIR::Call { callee, cross_mapping, target_language, .. }) =
        &stepper.state().optimized_hir
    else {
        panic!("Expected an optimised call");
    };
    assert_eq!(callee, "Vec::len");
    assert_eq!(*target_language, Language::Rust);
    assert!(cross_mapping.unwrap().boundary_eliminated);
    assert_eq!(outside_work(stepper.step().unwrap()), StepAction::GenerateRust);
}

#[test]
fn unify_phase_fails_without_inputs() {
    let mut stepper = Stepper::new(TranspilationState::new("a.py".to_owned(), "a.c".to_owned()));
    for _ in 0..4 {
        stepper.step().unwrap();
    }
    assert_eq!(stepper.step().unwrap_err(), "No Python HIR");
}

#[test]
fn breakpoints_stop_in_their_phase() {
    let mut stepper = Stepper::new(TranspilationState::new("a.py".to_owned(), "a.c".to_owned()));
    stepper.add_breakpoint(Breakpoint::Function("f".to_owned()));
    stepper.add_breakpoint(Breakpoint::Phase("c parsed".to_owned()));
    assert_eq!(stepper.breakpoints().len(), 2);
    assert!(!stepper.check_breakpoint());
    stepper.step().unwrap();
    stepper.step().unwrap();
    assert!(!stepper.check_breakpoint());
    stepper.step().unwrap();
    assert!(stepper.check_breakpoint());
    assert!(stepper.clear_breakpoint(1));
    assert!(!stepper.check_breakpoint());
    assert!(!stepper.clear_breakpoint(5));
    assert_eq!(stepper.breakpoints().len(), 1);
}
