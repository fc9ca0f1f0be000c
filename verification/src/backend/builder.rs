//! The instruction builder: a cursor in a basic block, where each build
//! operation adds one instruction.

use crate::backend::call::{Call, CallView, Op};
use crate::backend::handles::{
    four, issued, one, references, three, to_refs, two, LLVMBasicBlock, LLVMBuilder, LLVMContext,
    LLVMFunction, LLVMType, LLVMValue, LLVMWrapper,
};
use crate::backend::trace::Trace;
use vstd::prelude::*;

verus! {

/// The values of the incoming pairs `incoming`, in order.
pub open spec fn incoming_values(incoming: Seq<(LLVMValue, LLVMBasicBlock)>) -> Seq<usize> {
    Seq::new(incoming.len(), |i: int| incoming[i].0@)
}

/// The blocks of the incoming pairs `incoming`, in order.
pub open spec fn incoming_blocks(incoming: Seq<(LLVMValue, LLVMBasicBlock)>) -> Seq<usize> {
    Seq::new(incoming.len(), |i: int| incoming[i].1@)
}

/// The call that attaches the pairs `incoming` of a value and the block that
/// control comes from to the phi node `phi`.
pub open spec fn add_incoming_call(
    phi: usize,
    incoming: Seq<(LLVMValue, LLVMBasicBlock)>,
) -> CallView {
    CallView {
        list: incoming_values(incoming),
        blocks: incoming_blocks(incoming),
        ..CallView::plain(Op::AddIncoming, seq![phi])
    }
}

/// The call that builds the call of `fun` on the arguments `args`, its result
/// named `name`.
pub open spec fn build_call(builder: usize, fun: usize, args: Seq<usize>, name: Seq<char>) -> CallView {
    CallView { list: args, ..CallView::named(Op::BuildCall, seq![builder, fun], name) }
}

/// The call that builds the address of the field at index `idx` of the
/// structure that `ptr` points to, the address named `name`.
pub open spec fn build_struct_gep(builder: usize, ptr: usize, idx: u64, name: Seq<char>) -> CallView {
    CallView { number: idx, ..CallView::named(Op::BuildStructGep, seq![builder, ptr], name) }
}

impl LLVMBuilder {
    /// Records the making of a builder in the context `ctx`.
    pub fn in_ctx(trace: &mut Trace, ctx: &LLVMContext) -> (b: LLVMBuilder)
        ensures
            issued(
                old(trace)@,
                final(trace)@,
                CallView::plain(Op::CreateBuilder, seq![ctx@]),
                b@,
            ),
    {
        let c = Call::plain(Op::CreateBuilder, one(ctx.to_ref()));
        LLVMBuilder::from_ref(trace.record(c))
    }

    /// Records the placing of the builder in `block` before the instruction
    /// `instr`, or at the end of `block` where `instr` is the null reference.
    pub fn set_position(&self, trace: &mut Trace, block: &LLVMBasicBlock, instr: &LLVMValue)
        ensures
            final(trace)@ == old(trace)@.push(
                CallView::plain(Op::PositionBuilder, seq![self@, block@, instr@]),
            ),
    {
        let c = Call::plain(
            Op::PositionBuilder,
            three(self.to_ref(), block.to_ref(), instr.to_ref()),
        );
        trace.record(c);
    }

    /// Records the placing of the builder at the end of `block`.
    pub fn set_position_at_end(&self, trace: &mut Trace, block: &LLVMBasicBlock)
        ensures
            final(trace)@ == old(trace)@.push(
                CallView::plain(Op::PositionBuilderAtEnd, seq![self@, block@]),
            ),
    {
        let c = Call::plain(Op::PositionBuilderAtEnd, two(self.to_ref(), block.to_ref()));
        trace.record(c);
    }

    /// Records the request for the block that the builder stands in.
    pub fn get_insert_block(&self, trace: &mut Trace) -> (b: LLVMBasicBlock)
        ensures
            issued(
                old(trace)@,
                final(trace)@,
                CallView::plain(Op::GetInsertBlock, seq![self@]),
                b@,
            ),
    {
        let c = Call::plain(Op::GetInsertBlock, one(self.to_ref()));
        LLVMBasicBlock::from_ref(trace.record(c))
    }

    /// Records the building of a stack allocation for a value of type `ty`;
    /// the address is named `dest`.
    pub fn alloca(&self, trace: &mut Trace, ty: &LLVMType, dest: &str) -> (v: LLVMValue)
        ensures
            issued(
                old(trace)@,
                final(trace)@,
                CallView::named(Op::BuildAlloca, seq![self@, ty@], dest@),
                v@,
            ),
    {
        let c = Call::named(Op::BuildAlloca, two(self.to_ref(), ty.to_ref()), dest);
        LLVMValue::from_ref(trace.record(c))
    }

    /// Records the building of a phi node of type `ty` without incoming
    /// pairs; the node is named `dest`.
    pub fn phi(&self, trace: &mut Trace, ty: &LLVMType, dest: &str) -> (v: LLVMValue)
        ensures
            issued(
                old(trace)@,
                final(trace)@,
                CallView::named(Op::BuildPhi, seq![self@, ty@], dest@),
                v@,
            ),
    {
        let c = Call::named(Op::BuildPhi, two(self.to_ref(), ty.to_ref()), dest);
        LLVMValue::from_ref(trace.record(c))
    }

    /// Records the building of a load from the address `ptr`; the loaded
    /// value is named `dest`.
    pub fn load(&self, trace: &mut Trace, ptr: &LLVMValue, dest: &str) -> (v: LLVMValue)
        ensures
            issued(
                old(trace)@,
                final(trace)@,
                CallView::named(Op::BuildLoad, seq![self@, ptr@], dest@),
                v@,
            ),
    {
        let c = Call::named(Op::BuildLoad, two(self.to_ref(), ptr.to_ref()), dest);
        LLVMValue::from_ref(trace.record(c))
    }

    /// Records the building of a store of `val` to the address `ptr`.
    pub fn store(&self, trace: &mut Trace, val: &LLVMValue, ptr: &LLVMValue) -> (v: LLVMValue)
        ensures
            issued(
                old(trace)@,
                final(trace)@,
                CallView::plain(Op::BuildStore, seq![self@, val@, ptr@]),
                v@,
            ),
    {
        let c = Call::plain(Op::BuildStore, three(self.to_ref(), val.to_ref(), ptr.to_ref()));
        LLVMValue::from_ref(trace.record(c))
    }

    /// Records the building of a return of `val`.
    pub fn ret(&self, trace: &mut Trace, val: &LLVMValue) -> (v: LLVMValue)
        ensures
            issued(
                old(trace)@,
                final(trace)@,
                CallView::plain(Op::BuildRet, seq![self@, val@]),
                v@,
            ),
    {
        let c = Call::plain(Op::BuildRet, two(self.to_ref(), val.to_ref()));
        LLVMValue::from_ref(trace.record(c))
    }

    /// Records the building of a branch to `then` where `cond` holds and to
    /// `el` where it does not.
    pub fn cond_br(
        &self,
        trace: &mut Trace,
        cond: &LLVMValue,
        then: &LLVMBasicBlock,
        el: &LLVMBasicBlock,
    ) -> (v: LLVMValue)
        ensures
            issued(
                old(trace)@,
                final(trace)@,
                CallView::plain(Op::BuildCondBr, seq![self@, cond@, then@, el@]),
                v@,
            ),
    {
        let c = Call::plain(
            Op::BuildCondBr,
            four(self.to_ref(), cond.to_ref(), then.to_ref(), el.to_ref()),
        );
        LLVMValue::from_ref(trace.record(c))
    }

    /// Records the building of a branch to `cont`.
    pub fn br(&self, trace: &mut Trace, cont: &LLVMBasicBlock) -> (v: LLVMValue)
        ensures
            issued(
                old(trace)@,
                final(trace)@,
                CallView::plain(Op::BuildBr, seq![self@, cont@]),
                v@,
            ),
    {
        let c = Call::plain(Op::BuildBr, two(self.to_ref(), cont.to_ref()));
        LLVMValue::from_ref(trace.record(c))
    }

    /// Records the building of a cast of `val` to the type `dest_ty` that
    /// keeps its bits; the result is named `dest`.
    pub fn bit_cast(&self, trace: &mut Trace, val: &LLVMValue, dest_ty: &LLVMType, dest: &str) -> (v:
        LLVMValue)
        ensures
            issued(
                old(trace)@,
                final(trace)@,
                CallView::named(Op::BuildBitCast, seq![self@, val@, dest_ty@], dest@),
                v@,
            ),
    {
        let c = Call::named(
            Op::BuildBitCast,
            three(self.to_ref(), val.to_ref(), dest_ty.to_ref()),
            dest,
        );
        LLVMValue::from_ref(trace.record(c))
    }

    /// Records the attaching of the pairs `incoming`, each a value and the
    /// block that control comes from, to the phi node `phi`: as many pairs
    /// as are given, in the order given, each value beside its own block.
    pub fn add_incoming(
        trace: &mut Trace,
        phi: &LLVMValue,
        incoming: &Vec<(LLVMValue, LLVMBasicBlock)>,
    )
        ensures
            final(trace)@ == old(trace)@.push(add_incoming_call(phi@, incoming@)),
    {
        let mut vals: Vec<usize> = Vec::new();
        let mut blks: Vec<usize> = Vec::new();
        let mut i: usize = 0;
        while i < incoming.len()
            invariant
                i <= incoming.len(),
                vals.len() == i,
                blks.len() == i,
                forall|k: int| 0 <= k < i ==> vals[k] == incoming[k].0@,
                forall|k: int| 0 <= k < i ==> blks[k] == incoming[k].1@,
            decreases incoming.len() - i,
        {
            vals.push(incoming[i].0.to_ref());
            blks.push(incoming[i].1.to_ref());
            i = i + 1;
        }
        assert(vals@ =~= incoming_values(incoming@));
        assert(blks@ =~= incoming_blocks(incoming@));
        let mut c = Call::plain(Op::AddIncoming, one(phi.to_ref()));
        c.list = vals;
        c.blocks = blks;
        trace.record(c);
    }

    /// Records the building of a phi node of type `ty` named `dest`, and then
    /// the attaching of the pairs `incoming` to it.
    pub fn phi_node(
        &self,
        trace: &mut Trace,
        ty: &LLVMType,
        incoming: &Vec<(LLVMValue, LLVMBasicBlock)>,
        dest: &str,
    ) -> (v: LLVMValue)
        ensures
            final(trace)@ == old(trace)@.push(
                CallView::named(Op::BuildPhi, seq![self@, ty@], dest@),
            ).push(add_incoming_call(old(trace)@.len() as usize, incoming@)),
            v@ == old(trace)@.len(),
    {
        let phi = self.phi(trace, ty, dest);
        LLVMBuilder::add_incoming(trace, &phi, incoming);
        phi
    }

    /// Records the building of a return without a value.
    pub fn ret_void(&self, trace: &mut Trace) -> (v: LLVMValue)
        ensures
            issued(old(trace)@, final(trace)@, CallView::plain(Op::BuildRetVoid, seq![self@]), v@),
    {
        let c = Call::plain(Op::BuildRetVoid, one(self.to_ref()));
        LLVMValue::from_ref(trace.record(c))
    }

    /// Records the building of a call of `fun` on the arguments `args`, which
    /// are left as they are; the result is named `name`.
    pub fn call(
        &self,
        trace: &mut Trace,
        fun: &LLVMFunction,
        args: &mut Vec<LLVMValue>,
        name: &str,
    ) -> (v: LLVMValue)
        ensures
            issued(
                old(trace)@,
                final(trace)@,
                build_call(self@, fun@, references(old(args)@), name@),
                v@,
            ),
            *final(args) == *old(args),
    {
        let mut c = Call::named(Op::BuildCall, two(self.to_ref(), fun.to_ref()), name);
        c.list = to_refs(args);
        LLVMValue::from_ref(trace.record(c))
    }

    /// Records the building of the address of the field at index `idx` of
    /// the structure that `ptr` points to; the address is named `name`.
    pub fn struct_field_ptr(&self, trace: &mut Trace, ptr: &LLVMValue, idx: usize, name: &str) -> (v:
        LLVMValue)
        ensures
            issued(
                old(trace)@,
                final(trace)@,
                build_struct_gep(self@, ptr@, idx as u64, name@),
                v@,
            ),
    {
        let mut c = Call::named(Op::BuildStructGep, two(self.to_ref(), ptr.to_ref()), name);
        c.number = idx as u64;
        LLVMValue::from_ref(trace.record(c))
    }

    /// Records the release of the builder, and gives the handle up.
    pub fn dispose(self, trace: &mut Trace)
        ensures
            final(trace)@ == old(trace)@.push(CallView::plain(Op::DisposeBuilder, seq![self@])),
    {
        let c = Call::plain(Op::DisposeBuilder, one(self.to_ref()));
        trace.record(c);
    }
}

} // verus!
