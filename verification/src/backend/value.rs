//! Types, values, functions and basic blocks: views of what a context or a
//! module owns.

use crate::backend::call::{Call, CallView, Op};
use crate::backend::handles::{
    issued, one, LLVMBasicBlock, LLVMFunction, LLVMType, LLVMValue, LLVMWrapper, Pending,
};
use crate::backend::trace::Trace;
use vstd::prelude::*;

verus! {

/// What the backend does when a function fails verification.
#[derive(Clone, Copy, PartialEq, Eq, Structural, Hash, Debug)]
pub enum VerifierFailureAction {
    /// Print what is wrong and abort the process.
    AbortProcess,
    /// Print what is wrong and reply with the status.
    PrintMessage,
    /// Reply with the status alone.
    ReturnStatus,
}

impl VerifierFailureAction {
    /// The number that the backend knows the action by.
    pub open spec fn code(self) -> u64 {
        match self {
            VerifierFailureAction::AbortProcess => 0,
            VerifierFailureAction::PrintMessage => 1,
            VerifierFailureAction::ReturnStatus => 2,
        }
    }

    /// The number that the backend knows the action by.
    pub fn number(&self) -> (n: u64)
        ensures
            n == self.code(),
    {
        match self {
            VerifierFailureAction::AbortProcess => 0,
            VerifierFailureAction::PrintMessage => 1,
            VerifierFailureAction::ReturnStatus => 2,
        }
    }
}

/// The call of `op` on the operand `arg` with the number `number`.
pub open spec fn numbered(op: Op, arg: usize, number: u64) -> CallView {
    CallView { number: number, ..CallView::plain(op, seq![arg]) }
}

impl LLVMType {
    /// Records the making of the type of the pointers to this type in the
    /// address space `address_space`.
    pub fn get_ptr(&self, trace: &mut Trace, address_space: usize) -> (ty: LLVMType)
        ensures
            issued(
                old(trace)@,
                final(trace)@,
                numbered(Op::PointerType, self@, address_space as u64),
                ty@,
            ),
    {
        let mut c = Call::plain(Op::PointerType, one(self.to_ref()));
        c.number = address_space as u64;
        LLVMType::from_ref(trace.record(c))
    }

    /// Records the request for the type of the elements of this pointer,
    /// array or vector type.
    pub fn get_element(&self, trace: &mut Trace) -> (ty: LLVMType)
        ensures
            issued(
                old(trace)@,
                final(trace)@,
                CallView::plain(Op::GetElementType, seq![self@]),
                ty@,
            ),
    {
        let c = Call::plain(Op::GetElementType, one(self.to_ref()));
        LLVMType::from_ref(trace.record(c))
    }

    /// Records the making of the null constant of this type.
    pub fn get_null_ptr(&self, trace: &mut Trace) -> (v: LLVMValue)
        ensures
            issued(old(trace)@, final(trace)@, CallView::plain(Op::ConstNull, seq![self@]), v@),
    {
        let c = Call::plain(Op::ConstNull, one(self.to_ref()));
        LLVMValue::from_ref(trace.record(c))
    }
}

impl LLVMValue {
    /// Records the naming of the value as `name`.
    pub fn set_name(&self, trace: &mut Trace, name: &str)
        ensures
            final(trace)@ == old(trace)@.push(
                CallView::named(Op::SetValueName, seq![self@], name@),
            ),
    {
        let c = Call::named(Op::SetValueName, one(self.to_ref()), name);
        trace.record(c);
    }

    /// The same value seen as a function.
    pub fn into_function(self) -> (f: LLVMFunction)
        ensures
            f@ == self@,
    {
        LLVMFunction::from_ref(self.to_ref())
    }

    /// Records the request for the value's type.
    pub fn get_type(&self, trace: &mut Trace) -> (ty: LLVMType)
        ensures
            issued(old(trace)@, final(trace)@, CallView::plain(Op::TypeOf, seq![self@]), ty@),
    {
        let c = Call::plain(Op::TypeOf, one(self.to_ref()));
        LLVMType::from_ref(trace.record(c))
    }

    /// Records the printing of the value for inspection.
    pub fn dump(&self, trace: &mut Trace)
        ensures
            final(trace)@ == old(trace)@.push(CallView::plain(Op::DumpValue, seq![self@])),
    {
        let c = Call::plain(Op::DumpValue, one(self.to_ref()));
        trace.record(c);
    }
}

impl LLVMFunction {
    /// The same function seen as a value.
    pub fn into_value(self) -> (v: LLVMValue)
        ensures
            v@ == self@,
    {
        LLVMValue::from_ref(self.to_ref())
    }

    /// Records the request for the number of the function's basic blocks.
    pub fn count_basic_blocks(&self, trace: &mut Trace) -> (n: Pending)
        ensures
            issued(
                old(trace)@,
                final(trace)@,
                CallView::plain(Op::CountBasicBlocks, seq![self@]),
                n@,
            ),
    {
        let c = Call::plain(Op::CountBasicBlocks, one(self.to_ref()));
        Pending::from_ref(trace.record(c))
    }

    /// Records the request for the number of the function's parameters.
    pub fn count_params(&self, trace: &mut Trace) -> (n: Pending)
        ensures
            issued(old(trace)@, final(trace)@, CallView::plain(Op::CountParams, seq![self@]), n@),
    {
        let c = Call::plain(Op::CountParams, one(self.to_ref()));
        Pending::from_ref(trace.record(c))
    }

    /// Records the request for the function's parameter at index `idx`.
    pub fn get_param(&self, trace: &mut Trace, idx: usize) -> (v: LLVMValue)
        ensures
            issued(old(trace)@, final(trace)@, numbered(Op::GetParam, self@, idx as u64), v@),
    {
        let mut c = Call::plain(Op::GetParam, one(self.to_ref()));
        c.number = idx as u64;
        LLVMValue::from_ref(trace.record(c))
    }

    /// Records the request for the function's entry block.
    pub fn get_entry_basic_block(&self, trace: &mut Trace) -> (b: LLVMBasicBlock)
        ensures
            issued(
                old(trace)@,
                final(trace)@,
                CallView::plain(Op::GetEntryBasicBlock, seq![self@]),
                b@,
            ),
    {
        let c = Call::plain(Op::GetEntryBasicBlock, one(self.to_ref()));
        LLVMBasicBlock::from_ref(trace.record(c))
    }

    /// Records the check of the function's structure, with what to do where
    /// it fails. Whether the function passed is known from the reply: see
    /// [`LLVMFunction::verified`].
    pub fn verify(&self, trace: &mut Trace, action: VerifierFailureAction) -> (status: Pending)
        ensures
            issued(
                old(trace)@,
                final(trace)@,
                numbered(Op::VerifyFunction, self@, action.code()),
                status@,
            ),
    {
        let mut c = Call::plain(Op::VerifyFunction, one(self.to_ref()));
        c.number = action.number();
        Pending::from_ref(trace.record(c))
    }

    /// Whether a function passed the check of its structure, given the
    /// status `reply` that the check replied with: it passed where the status
    /// is zero.
    pub fn verified(reply: usize) -> (ok: bool)
        ensures
            ok == (reply == 0),
    {
        reply == 0
    }
}

impl LLVMBasicBlock {
    /// Records the request for the function that the block belongs to.
    pub fn get_parent(&self, trace: &mut Trace) -> (f: LLVMFunction)
        ensures
            issued(
                old(trace)@,
                final(trace)@,
                CallView::plain(Op::GetBasicBlockParent, seq![self@]),
                f@,
            ),
    {
        let c = Call::plain(Op::GetBasicBlockParent, one(self.to_ref()));
        LLVMFunction::from_ref(trace.record(c))
    }

    /// Records the request for the block's first instruction. The reply is
    /// the null reference where the block is empty.
    pub fn get_first_instr(&self, trace: &mut Trace) -> (v: LLVMValue)
        ensures
            issued(
                old(trace)@,
                final(trace)@,
                CallView::plain(Op::GetFirstInstruction, seq![self@]),
                v@,
            ),
    {
        let c = Call::plain(Op::GetFirstInstruction, one(self.to_ref()));
        LLVMValue::from_ref(trace.record(c))
    }
}

} // verus!
