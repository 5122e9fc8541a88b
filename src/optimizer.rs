//! The optimisation pipeline: an ordered list of passes over unified trees,
//! the first and only mandatory one being boundary elimination. Passes hold
//! no state, so independent trees may be optimised in parallel.

use vstd::prelude::*;

use crate::unified::{
    eliminates, lemma_eliminate_compose, lemma_eliminate_idempotent, lemma_same_tree_refl,
    same_tree, UnifiedHIR,
};

verus! {

/// Why a pass failed.
#[derive(Debug, PartialEq, Eq)]
pub struct PassError {
    /// Name of the pass.
    pub pass: String,
    /// What went wrong.
    pub message: String,
}

/// The pass that erases the cross-language boundary of recognised calls.
#[derive(Debug, Clone, Copy, PartialEq, Eq, Structural)]
pub struct BoundaryEliminationPass;

impl BoundaryEliminationPass {
    /// The pass.
    pub fn new() -> (r: Self)
        ensures
            r == BoundaryEliminationPass,
    {
        BoundaryEliminationPass
    }

    /// Name of the pass.
    pub fn name(&self) -> (r: &'static str)
        ensures
            r@ == "BoundaryElimination"@,
    {
        "BoundaryElimination"
    }

    /// Runs the pass: every call, at any depth, has its boundary eliminated.
    /// It never fails.
    pub fn run(&self, hir: UnifiedHIR) -> (r: Result<UnifiedHIR, PassError>)
        ensures
            r matches Ok(t) && eliminates(hir, t),
    {
        Ok(hir.eliminate_boundary())
    }
}

/// The passes a pipeline can hold.
#[derive(Debug, Clone, Copy, PartialEq, Eq, Structural)]
pub enum OptimizationPass {
    /// Boundary elimination.
    BoundaryElimination(BoundaryEliminationPass),
}

impl OptimizationPass {
    /// Name of the pass.
    pub fn name(&self) -> (r: &'static str)
        ensures
            r@ == "BoundaryElimination"@,
    {
        match self {
            OptimizationPass::BoundaryElimination(p) => p.name(),
        }
    }

    /// Runs the pass.
    pub fn run(&self, hir: UnifiedHIR) -> (r: Result<UnifiedHIR, PassError>)
        ensures
            r matches Ok(t) && eliminates(hir, t),
    {
        match self {
            OptimizationPass::BoundaryElimination(p) => p.run(hir),
        }
    }
}

/// What running `n` passes over `t` gives: `t` itself when there are none,
/// otherwise `t` with its boundary eliminated (every pass eliminates the
/// boundary, and a second elimination changes nothing).
pub open spec fn pipeline_result(n: nat, t: UnifiedHIR, r: UnifiedHIR) -> bool {
    if n == 0 {
        r == t
    } else {
        eliminates(t, r)
    }
}

/// An ordered list of passes.
pub struct OptimizationPipeline {
    passes: Vec<OptimizationPass>,
}

impl OptimizationPipeline {
    /// How many passes the pipeline holds.
    pub closed spec fn num_passes(&self) -> nat {
        self.passes@.len()
    }

    /// A pipeline without passes.
    pub fn new() -> (r: Self)
        ensures
            r.num_passes() == 0,
    {
        OptimizationPipeline { passes: Vec::new() }
    }

    /// The standard pipeline: exactly boundary elimination.
    pub fn standard() -> (r: Self)
        ensures
            r.num_passes() == 1,
    {
        let mut p = Self::new();
        p.add_pass(OptimizationPass::BoundaryElimination(BoundaryEliminationPass::new()));
        p
    }

    /// Appends a pass.
    pub fn add_pass(&mut self, pass: OptimizationPass)
        ensures
            final(self).num_passes() == old(self).num_passes() + 1,
    {
        self.passes.push(pass);
    }

    /// How many passes the pipeline holds.
    pub fn pass_count(&self) -> (r: usize)
        ensures
            r == self.num_passes(),
    {
        self.passes.len()
    }

    /// Folds the tree through every pass in order, stopping at the first
    /// error.
    pub fn run(&self, hir: UnifiedHIR) -> (r: Result<UnifiedHIR, PassError>)
        ensures
            r matches Ok(t) && pipeline_result(self.num_passes(), hir, t),
    {
        let ghost start = hir;
        let mut cur = hir;
        let mut i: usize = 0;
        while i < self.passes.len()
            invariant
                i <= self.passes@.len(),
                i == 0 ==> cur == start,
                i > 0 ==> eliminates(start, cur),
            decreases self.passes@.len() - i,
        {
            let ghost before = cur;
            match self.passes[i].run(cur) {
                Ok(next) => {
                    proof {
                        if i > 0 {
                            lemma_eliminate_compose(start, before, next);
                        }
                    }
                    cur = next;
                },
                Err(e) => {
                    return Err(e);
                },
            }
            i += 1;
        }
        Ok(cur)
    }
}

/// Running a pipeline on what it produced gives the same tree again: for any
/// unified tree `t`, `run(run(t))` and `run(t)` are the same tree.
pub proof fn lemma_pipeline_idempotent(
    p: OptimizationPipeline,
    t: UnifiedHIR,
    r1: UnifiedHIR,
    r2: UnifiedHIR,
)
    requires
        pipeline_result(p.num_passes(), t, r1),
        pipeline_result(p.num_passes(), r1, r2),
    ensures
        same_tree(r1, r2),
{
    if p.num_passes() == 0 {
        lemma_same_tree_refl(r1);
    } else {
        lemma_eliminate_idempotent(t, r1, r2);
    }
}

} // verus!
