//! A step-through session over the transpilation phases. The library makes
//! the decisions and does the in-memory work (unification, optimisation);
//! reading sources, parsing and code emission are outside work that the
//! caller performs when a step asks for it.

use vstd::prelude::*;

use crate::c::CHIR;
use crate::debugger::{
    next_phase, phase_text, Breakpoint, BreakpointModel, TranspilationPhase, TranspilationState,
};
use crate::optimizer::{pipeline_result, OptimizationPipeline};
use crate::python::PythonHIR;
use crate::unifier::{unify_outcome, Unifier};

verus! {

/// The call a front-end module holds in the shape the pipeline expects: a
/// module whose first item is a function whose first statement returns a
/// value.
pub open spec fn front_call_of(m: PythonHIR) -> Result<PythonHIR, Seq<char>> {
    match m {
        PythonHIR::Module { body, .. } => if body@.len() > 0 {
            match body@[0] {
                PythonHIR::Function { body: stmts, .. } => if stmts@.len() > 0 {
                    match stmts@[0] {
                        PythonHIR::Return { value: Some(v), .. } => Ok(*v),
                        _ => Err("Expected return statement with call in function body"@),
                    }
                } else {
                    Err("Expected return statement with call in function body"@)
                },
                _ => Err("Expected function in Python module"@),
            }
        } else {
            Err("Expected function in Python module"@)
        },
        _ => Err("Expected Python module"@),
    }
}

/// The function a native translation unit holds first.
pub open spec fn native_function_of(t: CHIR) -> Result<CHIR, Seq<char>> {
    match t {
        CHIR::TranslationUnit { declarations, .. } => if declarations@.len() > 0 {
            Ok(declarations@[0])
        } else {
            Err("C file has no declarations"@)
        },
        _ => Err("Expected C TranslationUnit"@),
    }
}

/// Finds the call to unify in a front-end module.
pub fn extract_python_call(python_hir: &PythonHIR) -> (r: Result<&PythonHIR, String>)
    ensures
        match r {
            Ok(c) => front_call_of(*python_hir) == Ok::<PythonHIR, Seq<char>>(*c),
            Err(e) => front_call_of(*python_hir) == Err::<PythonHIR, Seq<char>>(e@),
        },
{
    match python_hir {
        PythonHIR::Module { body, .. } => {
            if body.len() == 0 {
                return Err(String::from_str("Expected function in Python module"));
            }
            match &body[0] {
                PythonHIR::Function { body: stmts, .. } => {
                    if stmts.len() == 0 {
                        return Err(
                            String::from_str(
                                "Expected return statement with call in function body",
                            ),
                        );
                    }
                    match &stmts[0] {
                        PythonHIR::Return { value: Some(v), .. } => Ok(&**v),
                        _ => Err(
                            String::from_str(
                                "Expected return statement with call in function body",
                            ),
                        ),
                    }
                },
                _ => Err(String::from_str("Expected function in Python module")),
            }
        },
        _ => Err(String::from_str("Expected Python module")),
    }
}

/// Finds the function to unify in a native translation unit.
pub fn extract_c_function(c_hir: &CHIR) -> (r: Result<&CHIR, String>)
    ensures
        match r {
            Ok(c) => native_function_of(*c_hir) == Ok::<CHIR, Seq<char>>(*c),
            Err(e) => native_function_of(*c_hir) == Err::<CHIR, Seq<char>>(e@),
        },
{
    match c_hir {
        CHIR::TranslationUnit { declarations, .. } => {
            if declarations.len() == 0 {
                Err(String::from_str("C file has no declarations"))
            } else {
                Ok(&declarations[0])
            }
        },
        _ => Err(String::from_str("Expected C TranslationUnit")),
    }
}

/// Outside work a phase asks for once it is entered.
#[derive(Debug, Clone, Copy, PartialEq, Eq, Structural)]
pub enum StepAction {
    /// Nothing outside the library.
    Nothing,
    /// Read and parse the front-end source into the state.
    ParsePython,
    /// Read and parse the native source into the state.
    ParseC,
    /// Emit code from the optimised tree into the state.
    GenerateRust,
}

/// The outside work that entering `p` asks for.
pub open spec fn action_of(p: TranspilationPhase) -> StepAction {
    match p {
        TranspilationPhase::PythonParsed => StepAction::ParsePython,
        TranspilationPhase::CParsed => StepAction::ParseC,
        TranspilationPhase::RustGenerated => StepAction::GenerateRust,
        _ => StepAction::Nothing,
    }
}

/// The outside work that entering a phase asks for.
pub fn outside_work(p: TranspilationPhase) -> (r: StepAction)
    ensures
        r == action_of(p),
{
    match p {
        TranspilationPhase::PythonParsed => StepAction::ParsePython,
        TranspilationPhase::CParsed => StepAction::ParseC,
        TranspilationPhase::RustGenerated => StepAction::GenerateRust,
        _ => StepAction::Nothing,
    }
}

/// A character with ASCII capitals folded to lower case, as a code.
pub open spec fn ascii_lower(c: char) -> int {
    if 'A' <= c && c <= 'Z' {
        c as int + 32
    } else {
        c as int
    }
}

/// Equality of two strings with ASCII letters compared regardless of case.
pub open spec fn eq_ignore_ascii_case(a: Seq<char>, b: Seq<char>) -> bool {
    a.len() == b.len() && forall|i: int| 0 <= i < a.len() ==> ascii_lower(#[trigger] a[i]) == ascii_lower(b[i])
}

fn lower(c: char) -> (r: u32)
    ensures
        r as int == ascii_lower(c),
{
    if 'A' <= c && c <= 'Z' {
        c as u32 + 32
    } else {
        c as u32
    }
}

/// Whether two strings are equal with ASCII letters compared regardless of
/// case.
pub fn str_eq_ignore_ascii_case(a: &str, b: &str) -> (r: bool)
    ensures
        r == eq_ignore_ascii_case(a@, b@),
{
    let n = a.unicode_len();
    if n != b.unicode_len() {
        return false;
    }
    let mut i: usize = 0;
    while i < n
        invariant
            n == a@.len(),
            n == b@.len(),
            i <= n,
            forall|j: int| 0 <= j < i ==> ascii_lower(#[trigger] a@[j]) == ascii_lower(b@[j]),
        decreases n - i,
    {
        if lower(a.get_char(i)) != lower(b.get_char(i)) {
            return false;
        }
        i += 1;
    }
    true
}

/// Breakpoint `b` stops the session in phase `p`: boundary elimination
/// stops once the tree is optimised, a phase breakpoint stops in the phase
/// of that name (ASCII case ignored); function breakpoints never stop it.
pub open spec fn stops_at(b: BreakpointModel, p: TranspilationPhase) -> bool {
    match b {
        BreakpointModel::BoundaryElimination => p == TranspilationPhase::Optimized,
        BreakpointModel::Phase(name) => eq_ignore_ascii_case(phase_text(p), name),
        BreakpointModel::Function(_) => false,
    }
}

/// `new` holds the unification of the call and function that `old` holds.
pub open spec fn unified_from(old: TranspilationState, new: TranspilationState) -> bool {
    match (old.python_hir, old.c_hir, new.unified_hir) {
        (Some(m), Some(t), Some(u)) => match (front_call_of(m), native_function_of(t)) {
            (Ok(call), Ok(fun)) => exists|next2: u64| unify_outcome(call, fun, 1, Ok(u), next2),
            _ => false,
        },
        _ => false,
    }
}

/// `new` holds the standard pipeline's result on the tree that `old` holds;
/// the unified tree has moved into the optimised one.
pub open spec fn optimized_from(old: TranspilationState, new: TranspilationState) -> bool {
    new.unified_hir is None && match (old.unified_hir, new.optimized_hir) {
        (Some(t), Some(o)) => pipeline_result(1, t, o),
        _ => false,
    }
}

/// A step-through session: the state and the breakpoints.
pub struct Stepper {
    state: TranspilationState,
    breakpoints: Vec<Breakpoint>,
}

impl Stepper {
    /// The session's state.
    pub closed spec fn spec_state(&self) -> TranspilationState {
        self.state
    }

    /// The session's breakpoints, in order.
    pub closed spec fn spec_breakpoints(&self) -> Seq<BreakpointModel> {
        self.breakpoints@.map_values(|b: Breakpoint| b@)
    }

    /// A session over a state, without breakpoints.
    pub fn new(state: TranspilationState) -> (r: Self)
        ensures
            r.spec_state() == state,
            r.spec_breakpoints().len() == 0,
    {
        Stepper { state, breakpoints: Vec::new() }
    }

    /// The session's state.
    pub fn state(&self) -> (r: &TranspilationState)
        ensures
            *r == self.spec_state(),
    {
        &self.state
    }

    /// The session's state, for the caller's outside work.
    pub fn state_mut(&mut self) -> (r: &mut TranspilationState)
        ensures
            *r == old(self).spec_state(),
            final(self).spec_state() == *final(r),
            final(self).spec_breakpoints() == old(self).spec_breakpoints(),
    {
        &mut self.state
    }

    /// Appends a breakpoint.
    pub fn add_breakpoint(&mut self, bp: Breakpoint)
        ensures
            final(self).spec_breakpoints() == old(self).spec_breakpoints().push(bp@),
            final(self).spec_state() == old(self).spec_state(),
    {
        self.breakpoints.push(bp);
        assert(self.breakpoints@.map_values(|b: Breakpoint| b@) =~= old(
            self,
        ).breakpoints@.map_values(|b: Breakpoint| b@).push(bp@));
    }

    /// The breakpoints, in order.
    pub fn breakpoints(&self) -> (r: &Vec<Breakpoint>)
        ensures
            r@.map_values(|b: Breakpoint| b@) == self.spec_breakpoints(),
    {
        &self.breakpoints
    }

    /// Removes the breakpoint at `index`; says whether there was one.
    pub fn clear_breakpoint(&mut self, index: usize) -> (r: bool)
        ensures
            r == (index < old(self).spec_breakpoints().len()),
            r ==> final(self).spec_breakpoints() == old(self).spec_breakpoints().remove(
                index as int,
            ),
            !r ==> final(self).spec_breakpoints() == old(self).spec_breakpoints(),
            final(self).spec_state() == old(self).spec_state(),
    {
        if index < self.breakpoints.len() {
            self.breakpoints.remove(index);
            assert(self.breakpoints@.map_values(|b: Breakpoint| b@) =~= old(
                self,
            ).breakpoints@.map_values(|b: Breakpoint| b@).remove(index as int));
            true
        } else {
            false
        }
    }

    /// Whether some breakpoint stops the session in its current phase.
    pub fn check_breakpoint(&self) -> (r: bool)
        ensures
            r == exists|i: int|
                0 <= i < self.spec_breakpoints().len() && stops_at(
                    #[trigger] self.spec_breakpoints()[i],
                    self.spec_state().phase,
                ),
    {
        let phase = self.state.phase;
        let mut i: usize = 0;
        while i < self.breakpoints.len()
            invariant
                i <= self.breakpoints@.len(),
                phase == self.state.phase,
                forall|j: int|
                    0 <= j < i ==> !stops_at(#[trigger] self.breakpoints@[j]@, phase),
            decreases self.breakpoints@.len() - i,
        {
            let stop = match &self.breakpoints[i] {
                Breakpoint::BoundaryElimination => phase == TranspilationPhase::Optimized,
                Breakpoint::Phase(name) => str_eq_ignore_ascii_case(phase.name(), name.as_str()),
                Breakpoint::Function(_) => false,
            };
            if stop {
                assert(self.spec_breakpoints()[i as int] == self.breakpoints@[i as int]@);
                return true;
            }
            i += 1;
        }
        proof {
            assert forall|j: int| 0 <= j < self.spec_breakpoints().len() implies !stops_at(
                #[trigger] self.spec_breakpoints()[j],
                phase,
            ) by {
                assert(self.spec_breakpoints()[j] == self.breakpoints@[j]@);
            }
        }
        false
    }

    /// Moves to the next phase and does the library's part of it: entering
    /// the unified phase unifies the front-end call with the native function
    /// held in the state; entering the optimised phase runs the standard
    /// pipeline over the unified tree. Outside work that a phase asks for
    /// (see `outside_work`) is left to the caller. At the last phase, or
    /// when the state lacks what a phase needs, it fails.
    pub fn step(&mut self) -> (r: Result<TranspilationPhase, String>)
        requires
            old(self).spec_state().step_count < usize::MAX,
        ensures
            final(self).spec_breakpoints() == old(self).spec_breakpoints(),
            next_phase(old(self).spec_state().phase) is None ==> r is Err,
            r matches Ok(p) ==> Some(p) == next_phase(old(self).spec_state().phase)
                && final(self).spec_state().phase == p,
            r matches Ok(p) ==> (p == TranspilationPhase::UnifiedHIR ==> unified_from(
                old(self).spec_state(),
                final(self).spec_state(),
            )),
            r matches Ok(p) ==> (p == TranspilationPhase::Optimized ==> optimized_from(
                old(self).spec_state(),
                final(self).spec_state(),
            )),
    {
        let p = match self.state.advance() {
            Ok(p) => p,
            Err(e) => {
                return Err(e);
            },
        };
        match p {
            TranspilationPhase::UnifiedHIR => {
                let unified = {
                    let python_hir = match &self.state.python_hir {
                        Some(h) => h,
                        None => {
                            return Err(String::from_str("No Python HIR"));
                        },
                    };
                    let c_hir = match &self.state.c_hir {
                        Some(h) => h,
                        None => {
                            return Err(String::from_str("No C HIR"));
                        },
                    };
                    let call = match extract_python_call(python_hir) {
                        Ok(c) => c,
                        Err(e) => {
                            return Err(e);
                        },
                    };
                    let fun = match extract_c_function(c_hir) {
                        Ok(f) => f,
                        Err(e) => {
                            return Err(e);
                        },
                    };
                    let mut unifier = Unifier::new();
                    match unifier.unify(call, fun) {
                        Ok(u) => {
                            assert(unify_outcome(*call, *fun, 1, Ok(u), unifier.next_handle()));
                            u
                        },
                        Err(e) => {
                            return Err(e.to_string());
                        },
                    }
                };
                self.state.unified_hir = Some(unified);
            },
            TranspilationPhase::Optimized => {
                let unified = match self.state.unified_hir.take() {
                    Some(u) => u,
                    None => {
                        return Err(String::from_str("No Unified HIR"));
                    },
                };
                let pipeline = OptimizationPipeline::standard();
                match pipeline.run(unified) {
                    Ok(o) => {
                        self.state.optimized_hir = Some(o);
                    },
                    Err(e) => {
                        return Err(e.message);
                    },
                }
            },
            _ => {},
        }
        Ok(p)
    }
}

} // verus!
