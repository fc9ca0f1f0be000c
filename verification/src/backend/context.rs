//! The context: the root that types and constants belong to.

use crate::backend::call::{Call, CallView, Op};
use crate::backend::handles::{
    issued, one, references, to_refs, two, LLVMBasicBlock, LLVMContext, LLVMFunction, LLVMType, LLVMValue,
    LLVMWrapper,
};
use crate::backend::trace::Trace;
use vstd::prelude::*;

verus! {

/// The 64-bit pattern that passes `val` sign-extended: `val` itself where it
/// is not negative, and `val` counted down from 2 to the 64th where it is.
pub open spec fn sign_extended(val: i32) -> u64 {
    if val >= 0 {
        val as u64
    } else {
        (0x1_0000_0000_0000_0000 + val) as u64
    }
}

/// The call that makes the constant of the integer type `ty` from the 64-bit
/// pattern `number`, sign-extended to the type's width or not.
pub open spec fn const_int(ty: usize, number: u64, sign_extend: bool) -> CallView {
    CallView { number: number, flag: sign_extend, ..CallView::plain(Op::ConstInt, seq![ty]) }
}

/// The call that makes the constant array of the `length` bytes of `text`,
/// followed by a zero byte unless `bare`.
pub open spec fn const_string(ctx: usize, text: Seq<char>, length: u64, bare: bool) -> CallView {
    CallView { number: length, flag: bare, ..CallView::named(Op::ConstString, seq![ctx], text) }
}

/// The call that makes a type from the types `list`: the function type that
/// returns `args[0]`, or the structure type in the context `args[0]`.
pub open spec fn type_of_list(op: Op, first: usize, list: Seq<usize>, flag: bool) -> CallView {
    CallView { list: list, flag: flag, ..CallView::plain(op, seq![first]) }
}

impl LLVMContext {
    /// Records the making of a context.
    pub fn new(trace: &mut Trace) -> (ctx: LLVMContext)
        ensures
            issued(old(trace)@, final(trace)@, CallView::plain(Op::ContextCreate, seq![]), ctx@),
    {
        let c = Call::plain(Op::ContextCreate, Vec::new());
        assert(c@.args =~= seq![]);
        assert(c@ == CallView::plain(Op::ContextCreate, seq![]));
        LLVMContext::from_ref(trace.record(c))
    }

    /// Records a call of `op`, which takes this context alone and replies
    /// with a type.
    fn simple_type(&self, trace: &mut Trace, op: Op) -> (ty: LLVMType)
        ensures
            issued(old(trace)@, final(trace)@, CallView::plain(op, seq![self@]), ty@),
    {
        let c = Call::plain(op, one(self.to_ref()));
        LLVMType::from_ref(trace.record(c))
    }

    /// Records the request for the 1-bit integer type.
    pub fn get_int1_type(&self, trace: &mut Trace) -> (ty: LLVMType)
        ensures
            issued(old(trace)@, final(trace)@, CallView::plain(Op::Int1Type, seq![self@]), ty@),
    {
        self.simple_type(trace, Op::Int1Type)
    }

    /// Records the request for the 8-bit integer type.
    pub fn get_int8_type(&self, trace: &mut Trace) -> (ty: LLVMType)
        ensures
            issued(old(trace)@, final(trace)@, CallView::plain(Op::Int8Type, seq![self@]), ty@),
    {
        self.simple_type(trace, Op::Int8Type)
    }

    /// Records the request for the 16-bit integer type.
    pub fn get_int16_type(&self, trace: &mut Trace) -> (ty: LLVMType)
        ensures
            issued(old(trace)@, final(trace)@, CallView::plain(Op::Int16Type, seq![self@]), ty@),
    {
        self.simple_type(trace, Op::Int16Type)
    }

    /// Records the request for the 32-bit integer type.
    pub fn get_int32_type(&self, trace: &mut Trace) -> (ty: LLVMType)
        ensures
            issued(old(trace)@, final(trace)@, CallView::plain(Op::Int32Type, seq![self@]), ty@),
    {
        self.simple_type(trace, Op::Int32Type)
    }

    /// Records the request for the double-precision type.
    pub fn get_double_type(&self, trace: &mut Trace) -> (ty: LLVMType)
        ensures
            issued(old(trace)@, final(trace)@, CallView::plain(Op::DoubleType, seq![self@]), ty@),
    {
        self.simple_type(trace, Op::DoubleType)
    }

    /// Records the request for the void type.
    pub fn get_void_type(&self, trace: &mut Trace) -> (ty: LLVMType)
        ensures
            issued(old(trace)@, final(trace)@, CallView::plain(Op::VoidType, seq![self@]), ty@),
    {
        self.simple_type(trace, Op::VoidType)
    }

    /// Records the making of the type of the functions that take `param` and
    /// return `ret`, with further arguments of any number if `is_var_arg`.
    pub fn get_function_type(
        trace: &mut Trace,
        ret: &LLVMType,
        param: &Vec<LLVMType>,
        is_var_arg: bool,
    ) -> (ty: LLVMType)
        ensures
            issued(
                old(trace)@,
                final(trace)@,
                type_of_list(Op::FunctionType, ret@, references(param@), is_var_arg),
                ty@,
            ),
    {
        let mut c = Call::plain(Op::FunctionType, one(ret.to_ref()));
        c.list = to_refs(param);
        c.flag = is_var_arg;
        LLVMType::from_ref(trace.record(c))
    }

    /// Records the making of the structure type with the fields `types`,
    /// laid out without padding if `packed`.
    pub fn get_struct_type(&self, trace: &mut Trace, types: &Vec<LLVMType>, packed: bool) -> (ty:
        LLVMType)
        ensures
            issued(
                old(trace)@,
                final(trace)@,
                type_of_list(Op::StructType, self@, references(types@), packed),
                ty@,
            ),
    {
        let mut c = Call::plain(Op::StructType, one(self.to_ref()));
        c.list = to_refs(types);
        c.flag = packed;
        LLVMType::from_ref(trace.record(c))
    }

    /// Records the making of the constant array of the bytes of `s`, followed
    /// by a zero byte.
    pub fn get_const_string(&self, trace: &mut Trace, s: &str) -> (v: LLVMValue)
        ensures
            issued(old(trace)@, final(trace)@, const_string(self@, s@, s.len() as u64, false), v@),
    {
        let mut c = Call::named(Op::ConstString, one(self.to_ref()), s);
        c.number = s.len() as u64;
        LLVMValue::from_ref(trace.record(c))
    }

    /// Records the request for the double-precision type, and then the
    /// making of the constant of that type with the bit pattern `bits`.
    pub fn get_double_const(&self, trace: &mut Trace, bits: u64) -> (v: LLVMValue)
        ensures
            final(trace)@ == old(trace)@.push(CallView::plain(Op::DoubleType, seq![self@])).push(
                CallView {
                    number: bits,
                    ..CallView::plain(Op::ConstReal, seq![old(trace)@.len() as usize])
                },
            ),
            v@ == old(trace)@.len() + 1,
    {
        let ty = self.get_double_type(trace);
        let mut c = Call::plain(Op::ConstReal, one(ty.to_ref()));
        c.number = bits;
        LLVMValue::from_ref(trace.record(c))
    }

    /// Records a request for the type that `op` gives in this context, and
    /// then the making of the constant of that type from `number`.
    fn int_const(&self, trace: &mut Trace, op: Op, number: u64, sign_extend: bool) -> (v:
        LLVMValue)
        ensures
            final(trace)@ == old(trace)@.push(CallView::plain(op, seq![self@])).push(
                const_int(old(trace)@.len() as usize, number, sign_extend),
            ),
            v@ == old(trace)@.len() + 1,
    {
        let ty = self.simple_type(trace, op);
        let mut c = Call::plain(Op::ConstInt, one(ty.to_ref()));
        c.number = number;
        c.flag = sign_extend;
        LLVMValue::from_ref(trace.record(c))
    }

    /// Records the request for the 32-bit integer type, and then the making
    /// of the signed constant `val` of that type.
    pub fn get_int32_const(&self, trace: &mut Trace, val: i32) -> (v: LLVMValue)
        ensures
            final(trace)@ == old(trace)@.push(CallView::plain(Op::Int32Type, seq![self@])).push(
                const_int(old(trace)@.len() as usize, sign_extended(val), true),
            ),
            v@ == old(trace)@.len() + 1,
    {
        let number: u64 = if val >= 0 {
            val as u64
        } else {
            u64::MAX - ((-(val + 1)) as u64)
        };
        self.int_const(trace, Op::Int32Type, number, true)
    }

    /// Records the request for the 8-bit integer type, and then the making
    /// of the unsigned constant `val` of that type.
    pub fn get_uint8_const(&self, trace: &mut Trace, val: u8) -> (v: LLVMValue)
        ensures
            final(trace)@ == old(trace)@.push(CallView::plain(Op::Int8Type, seq![self@])).push(
                const_int(old(trace)@.len() as usize, val as u64, false),
            ),
            v@ == old(trace)@.len() + 1,
    {
        self.int_const(trace, Op::Int8Type, val as u64, false)
    }

    /// Records the request for the 1-bit integer type, and then the making
    /// of the constant of that type from `val`, taken as signed.
    pub fn get_int1_const(&self, trace: &mut Trace, val: u64) -> (v: LLVMValue)
        ensures
            final(trace)@ == old(trace)@.push(CallView::plain(Op::Int1Type, seq![self@])).push(
                const_int(old(trace)@.len() as usize, val, true),
            ),
            v@ == old(trace)@.len() + 1,
    {
        self.int_const(trace, Op::Int1Type, val, true)
    }

    /// Records the adding of a basic block named `name` at the end of `fun`.
    pub fn append_basic_block(&self, trace: &mut Trace, fun: &LLVMFunction, name: &str) -> (b:
        LLVMBasicBlock)
        ensures
            issued(
                old(trace)@,
                final(trace)@,
                CallView::named(Op::AppendBasicBlock, seq![self@, fun@], name@),
                b@,
            ),
    {
        let c = Call::named(Op::AppendBasicBlock, two(self.to_ref(), fun.to_ref()), name);
        LLVMBasicBlock::from_ref(trace.record(c))
    }

    /// Records the release of the context, and gives the handle up.
    pub fn dispose(self, trace: &mut Trace)
        ensures
            final(trace)@ == old(trace)@.push(CallView::plain(Op::ContextDispose, seq![self@])),
    {
        let c = Call::plain(Op::ContextDispose, one(self.to_ref()));
        trace.record(c);
    }
}

} // verus!
