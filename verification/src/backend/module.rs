//! The module, a named container of functions, and the pass manager that
//! optimizes its functions one at a time.

use crate::backend::call::{Call, CallView, Op};
use crate::backend::handles::{
    issued, one, two, LLVMContext, LLVMFunction, LLVMFunctionPassManager, LLVMModule, LLVMType,
    LLVMWrapper, Lookup,
};
use crate::backend::trace::Trace;
use vstd::prelude::*;

verus! {

impl LLVMModule {
    /// Records the making of a module named `name` in the global context.
    pub fn new(trace: &mut Trace, name: &str) -> (m: LLVMModule)
        ensures
            issued(
                old(trace)@,
                final(trace)@,
                CallView::named(Op::ModuleCreate, seq![], name@),
                m@,
            ),
    {
        let c = Call::named(Op::ModuleCreate, Vec::new(), name);
        assert(c@.args =~= seq![]);
        assert(c@ == CallView::named(Op::ModuleCreate, seq![], name@));
        LLVMModule::from_ref(trace.record(c))
    }

    /// Records the making of a module named `name` in the context `ctx`.
    pub fn in_ctx(trace: &mut Trace, name: &str, ctx: &LLVMContext) -> (m: LLVMModule)
        ensures
            issued(
                old(trace)@,
                final(trace)@,
                CallView::named(Op::ModuleCreateInContext, seq![ctx@], name@),
                m@,
            ),
    {
        let c = Call::named(Op::ModuleCreateInContext, one(ctx.to_ref()), name);
        LLVMModule::from_ref(trace.record(c))
    }

    /// Records the printing of the module's text for inspection.
    pub fn dump(&self, trace: &mut Trace)
        ensures
            final(trace)@ == old(trace)@.push(CallView::plain(Op::DumpModule, seq![self@])),
    {
        let c = Call::plain(Op::DumpModule, one(self.to_ref()));
        trace.record(c);
    }

    /// Records the search for the function named `fun_name`. Whether there
    /// is one is known from the reply: see [`Lookup::found`].
    pub fn get_function(&self, trace: &mut Trace, fun_name: &str) -> (q: Lookup)
        ensures
            issued(
                old(trace)@,
                final(trace)@,
                CallView::named(Op::GetNamedFunction, seq![self@], fun_name@),
                q@,
            ),
    {
        let c = Call::named(Op::GetNamedFunction, one(self.to_ref()), fun_name);
        Lookup::from_ref(trace.record(c))
    }

    /// Records the adding of a function named `fun_name` of the type `fty`.
    pub fn add_function(&self, trace: &mut Trace, fun_name: &str, fty: &LLVMType) -> (f:
        LLVMFunction)
        ensures
            issued(
                old(trace)@,
                final(trace)@,
                CallView::named(Op::AddFunction, seq![self@, fty@], fun_name@),
                f@,
            ),
    {
        let c = Call::named(Op::AddFunction, two(self.to_ref(), fty.to_ref()), fun_name);
        LLVMFunction::from_ref(trace.record(c))
    }

    /// Records the release of the module, and gives the handle up.
    pub fn dispose(self, trace: &mut Trace)
        ensures
            final(trace)@ == old(trace)@.push(CallView::plain(Op::DisposeModule, seq![self@])),
    {
        let c = Call::plain(Op::DisposeModule, one(self.to_ref()));
        trace.record(c);
    }
}

impl Lookup {
    /// The function that was looked up, given the reference `reply` that the
    /// search replied with: none where the reference is null.
    pub fn found(&self, reply: usize) -> (f: Option<LLVMFunction>)
        ensures
            reply == 0 ==> f is None,
            reply != 0 ==> f is Some && f->0@ == self@,
    {
        if reply == 0 {
            None
        } else {
            Some(LLVMFunction::from_ref(self.to_ref()))
        }
    }
}

/// The passes that optimize a function, in the order in which they run:
/// basic alias analysis, instruction combining, reassociation, global value
/// numbering, control-flow simplification, merged load and store motion,
/// constant propagation, promotion of memory to registers, and tail-call
/// elimination.
pub open spec fn pipeline() -> Seq<Op> {
    seq![
        Op::AddBasicAliasAnalysisPass,
        Op::AddInstructionCombiningPass,
        Op::AddReassociatePass,
        Op::AddGvnPass,
        Op::AddCfgSimplificationPass,
        Op::AddMergedLoadStoreMotionPass,
        Op::AddConstantPropagationPass,
        Op::AddPromoteMemoryToRegisterPass,
        Op::AddTailCallEliminationPass,
    ]
}

/// The calls that set up the pass manager for the module `m`, where the call
/// that makes the manager stands at position `fpm`: the making of the
/// manager, the adding of each pass of the pipeline in order, and the
/// initialization.
pub open spec fn pass_manager_setup(m: usize, fpm: usize) -> Seq<CallView> {
    seq![CallView::plain(Op::CreateFunctionPassManager, seq![m])] + Seq::new(
        pipeline().len(),
        |i: int| CallView::plain(pipeline()[i], seq![fpm]),
    ) + seq![CallView::plain(Op::InitializeFunctionPassManager, seq![fpm])]
}

impl LLVMFunctionPassManager {
    /// Records the making of a pass manager for the functions of `m`, the
    /// adding of the passes of the pipeline, and the initialization that
    /// must come before the first run.
    pub fn init_for_module(trace: &mut Trace, m: &LLVMModule) -> (fpm: LLVMFunctionPassManager)
        ensures
            final(trace)@ == old(trace)@ + pass_manager_setup(m@, fpm@),
            fpm@ == old(trace)@.len(),
    {
        let id = trace.record(Call::plain(Op::CreateFunctionPassManager, one(m.to_ref())));
        let passes = vec![
            Op::AddBasicAliasAnalysisPass,
            Op::AddInstructionCombiningPass,
            Op::AddReassociatePass,
            Op::AddGvnPass,
            Op::AddCfgSimplificationPass,
            Op::AddMergedLoadStoreMotionPass,
            Op::AddConstantPropagationPass,
            Op::AddPromoteMemoryToRegisterPass,
            Op::AddTailCallEliminationPass,
        ];
        assert(passes@ =~= pipeline());
        let ghost start = old(trace)@.push(CallView::plain(Op::CreateFunctionPassManager, seq![m@]));
        let mut i: usize = 0;
        while i < passes.len()
            invariant
                i <= passes.len(),
                passes@ == pipeline(),
                trace@ == start + Seq::new(i as nat, |k: int| CallView::plain(pipeline()[k], seq![id])),
            decreases passes.len() - i,
        {
            let ghost before = trace@;
            trace.record(Call::plain(passes[i], one(id)));
            i = i + 1;
            assert(trace@ =~= start + Seq::new(
                i as nat,
                |k: int| CallView::plain(pipeline()[k], seq![id]),
            ));
        }
        trace.record(Call::plain(Op::InitializeFunctionPassManager, one(id)));
        assert(trace@ =~= old(trace)@ + pass_manager_setup(m@, id));
        LLVMFunctionPassManager::from_ref(id)
    }

    /// Records a run of the pipeline on the function `f`.
    pub fn run(&self, trace: &mut Trace, f: &LLVMFunction)
        ensures
            final(trace)@ == old(trace)@.push(
                CallView::plain(Op::RunFunctionPassManager, seq![self@, f@]),
            ),
    {
        let c = Call::plain(Op::RunFunctionPassManager, two(self.to_ref(), f.to_ref()));
        trace.record(c);
    }

    /// Records the release of the pass manager, and gives the handle up.
    pub fn dispose(self, trace: &mut Trace)
        ensures
            final(trace)@ == old(trace)@.push(
                CallView::plain(Op::DisposePassManager, seq![self@]),
            ),
    {
        let c = Call::plain(Op::DisposePassManager, one(self.to_ref()));
        trace.record(c);
    }
}

} // verus!
